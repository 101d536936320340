pub mod findpattern;
pub mod games;
pub mod hconfig;
pub mod scanner;
