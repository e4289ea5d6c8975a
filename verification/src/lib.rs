pub mod ai;
pub mod dispatch;
pub mod languages;
pub mod server;
pub mod text;
