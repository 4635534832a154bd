pub mod color;
pub mod grid;
pub mod guard;
pub mod laws;
pub mod logfmt;
pub mod payload;
pub mod numfmt;
pub mod points;
pub mod rect;
pub mod scan;
pub mod state;
pub mod status;
pub mod textscan;
