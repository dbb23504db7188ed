pub mod idle;
pub mod info;
pub mod model;
pub mod parser;
