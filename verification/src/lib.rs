pub mod cli;
pub mod effectiveness;
pub mod model;
pub mod render;
pub mod text;
