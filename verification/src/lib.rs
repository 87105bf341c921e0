//! Core helpers: default construction through out-parameters, readable names of API calls
//! for diagnostics, and the decision logic of the Windows adapters (the `winit` event-loop
//! adapter, window capture sessions and process groups).
pub mod text;
pub mod base;
pub mod prelude;
pub mod api_name;
pub mod debug;
pub mod app_event;
pub mod capture;
pub mod process_group;
pub mod window_handle;

pub use base::{out_var, out_var_or_err};
