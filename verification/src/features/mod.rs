pub mod bhop;
pub mod esp;
