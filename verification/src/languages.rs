pub mod grammar;
pub mod helpers;
pub mod language_standard;
pub mod js_backend;
pub mod jsx_backend;
pub mod locator;
pub mod rust_backend;
pub mod ts_backend;
