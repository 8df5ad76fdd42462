pub mod app;
pub mod laws;
pub mod network;
pub mod nmcli;
pub mod screen;
pub mod text;
