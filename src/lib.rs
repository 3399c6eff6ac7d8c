pub mod action;
pub mod assets;
pub mod blueprint;
pub mod combined;
pub mod history;
pub mod selection;
