pub mod csgo;
