//! Render a template into the body of a trillium `Conn`.
//!
//! The crate buffers the output of a caller-supplied render routine and, on
//! success, attaches it as the connection's response body with a 200 status.
//! On failure it returns the untouched connection together with the cause, so
//! that the caller can still produce a response.

pub mod conn_state;
pub mod render;

pub use conn_state::{conn_body, conn_content_type, conn_halted, conn_status};
pub use render::{
    html_content_type, render, render_html, render_html_try, render_try,
    render_with_size_estimate, renders_to, routine_callable, routine_failed, routine_output,
    routine_wrote, Diagnostic, RenderError, RenderTry, RucteConnExt,
};
