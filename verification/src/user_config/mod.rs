pub mod default_config;
