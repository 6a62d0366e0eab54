pub mod jsontext;
pub mod classify;
pub mod laws;
pub mod model;
pub mod payload;
pub mod numtext;
pub mod outcome;
pub mod relay;
