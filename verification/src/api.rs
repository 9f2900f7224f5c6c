pub mod models;
pub mod settings;
pub mod websocket;
