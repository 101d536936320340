pub mod math;
pub mod text;
pub mod bytes;
