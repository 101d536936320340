pub mod instance;
