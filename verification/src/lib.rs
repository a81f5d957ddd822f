pub mod text;
pub mod sets;
pub mod git;
pub mod keys;
pub mod app;
pub mod ui;
pub mod laws;
