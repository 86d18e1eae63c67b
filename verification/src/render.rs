//! Buffered rendering into a connection.
//!
//! A render routine is a single-use callable that receives an empty byte
//! buffer (preallocated to a capacity hint) and returns either the filled
//! buffer or an I/O failure. `render` and its variants run the routine
//! exactly once — the routine is moved into the one call, so it cannot run
//! twice, and every outcome the contracts describe is an outcome of that one
//! invocation — and bind its output to the connection's response body. On
//! failure the connection comes back untouched inside a [`RenderError`], so
//! the caller can still answer the request.

use vstd::prelude::*;

use crate::conn_state::{
    conn_body, conn_content_type, conn_halt, conn_halted, conn_status, conn_with_body,
    conn_with_content_type, conn_with_status, io_error_message,
};

verus! {

/// A render routine failed: the cause, together with the connection the
/// routine was meant to fill, which must still be returned to the server.
#[derive(Debug)]
pub struct RenderError {
    /// The I/O failure the render routine produced.
    pub cause: std::io::Error,
    /// The connection as it was when rendering began.
    pub conn: trillium::Conn,
}

/// What a failed render leaves behind for logging: the cause and a
/// human-readable rendering of it.
#[derive(Debug)]
pub struct Diagnostic {
    /// The text of the failure, as `std::io::Error` displays it.
    pub message: String,
    /// The I/O failure itself.
    pub cause: std::io::Error,
}

/// The outcome of a shortcut render: either the connection with the rendered
/// body bound to it, or — after a failure — the connection rewritten to a
/// halted 500 response, beside a [`Diagnostic`] to log. A handler matches on
/// this and returns the connection of either arm.
#[derive(Debug)]
pub enum RenderTry {
    /// Rendering succeeded; the connection carries the routine's bytes.
    Rendered(trillium::Conn),
    /// Rendering failed; the connection is a halted 500 response.
    Halted(trillium::Conn, Diagnostic),
}

/// The fixed value the content-type response header is set to by the
/// html-rendering variants.
pub open spec fn html_content_type() -> Seq<char> {
    "text/html; charset=utf-8"@
}

/// Holds when `r` is an outcome the routine `f` can produce when handed a
/// fresh (empty) buffer.
pub open spec fn routine_output<F: FnOnce(Vec<u8>) -> Result<Vec<u8>, std::io::Error>>(
    f: F,
    r: Result<Vec<u8>, std::io::Error>,
) -> bool {
    exists|buf: Vec<u8>| buf@ == Seq::<u8>::empty() && #[trigger] call_ensures(f, (buf,), r)
}

/// Holds when the routine `f` can succeed with exactly the bytes of `out`.
pub open spec fn routine_wrote<F: FnOnce(Vec<u8>) -> Result<Vec<u8>, std::io::Error>>(
    f: F,
    out: Vec<u8>,
) -> bool {
    routine_output(f, Ok(out))
}

/// Holds when the routine `f` can fail with exactly the cause `cause`.
pub open spec fn routine_failed<F: FnOnce(Vec<u8>) -> Result<Vec<u8>, std::io::Error>>(
    f: F,
    cause: std::io::Error,
) -> bool {
    routine_output(f, Err(cause))
}

/// Holds when every fresh (empty) buffer satisfies the routine's
/// precondition, so that it may be invoked at all.
pub open spec fn routine_callable<F: FnOnce(Vec<u8>) -> Result<Vec<u8>, std::io::Error>>(
    f: F,
) -> bool {
    forall|buf: Vec<u8>| buf@ == Seq::<u8>::empty() ==> #[trigger] call_requires(f, (buf,))
}

/// Holds when `after` is `before` with its response body set to exactly
/// `body`, its status set to 200 Ok, and its halted flag unchanged.
pub open spec fn renders_to(before: trillium::Conn, after: trillium::Conn, body: Seq<u8>) -> bool {
    &&& conn_body(after) == Some(body)
    &&& conn_status(after) == Some(200u16)
    &&& conn_halted(after) == conn_halted(before)
}

/// Render with a caller-supplied capacity hint for the output buffer. The
/// hint only sizes the initial allocation; the routine always starts from an
/// empty buffer, so the hint has no bearing on the bytes produced.
///
/// On success the returned connection carries the routine's bytes as its
/// body and status 200, with the halted flag and the content-type header
/// unchanged; on failure the connection inside the error is the given one,
/// untouched, beside the cause the routine produced.
pub fn render_with_size_estimate<F: FnOnce(Vec<u8>) -> Result<Vec<u8>, std::io::Error>>(
    conn: trillium::Conn,
    render_fn: F,
    size_estimate: usize,
) -> (r: Result<trillium::Conn, RenderError>)
    requires
        routine_callable(render_fn),
    ensures
        match r {
            Ok(after) => {
                &&& exists|out: Vec<u8>|
                    #[trigger] routine_wrote(render_fn, out) && renders_to(conn, after, out@)
                &&& conn_content_type(after) == conn_content_type(conn)
            },
            Err(e) => {
                &&& e.conn == conn
                &&& routine_failed(render_fn, e.cause)
            },
        },
{
    let buf: Vec<u8> = Vec::with_capacity(size_estimate);
    match render_fn(buf) {
        Ok(out) => {
            proof {
                assert(routine_wrote(render_fn, out));
            }
            Ok(conn_with_body(conn_with_status(conn, 200), out))
        },
        Err(cause) => {
            proof {
                assert(routine_failed(render_fn, cause));
            }
            Err(RenderError { cause, conn })
        },
    }
}

/// Render with the default buffer capacity of 1024 bytes.
///
/// On success the returned connection carries the routine's bytes as its
/// body and status 200, with the halted flag and the content-type header
/// unchanged; on failure the connection inside the error is the given one,
/// untouched, beside the cause the routine produced.
pub fn render<F: FnOnce(Vec<u8>) -> Result<Vec<u8>, std::io::Error>>(
    conn: trillium::Conn,
    render_fn: F,
) -> (r: Result<trillium::Conn, RenderError>)
    requires
        routine_callable(render_fn),
    ensures
        match r {
            Ok(after) => {
                &&& exists|out: Vec<u8>|
                    #[trigger] routine_wrote(render_fn, out) && renders_to(conn, after, out@)
                &&& conn_content_type(after) == conn_content_type(conn)
            },
            Err(e) => {
                &&& e.conn == conn
                &&& routine_failed(render_fn, e.cause)
            },
        },
{
    render_with_size_estimate(conn, render_fn, 1024)
}

/// Render with the default buffer capacity, setting the content-type
/// response header to `text/html; charset=utf-8` first. The header is set on
/// the connection that rendering starts from, so it is present on the
/// success path and on the connection inside the failure, alike; a previous
/// value of the header is overwritten.
///
/// Apart from the header, success and failure look exactly as for
/// [`render`]: on failure neither the body, nor the status, nor the halted
/// flag of the returned connection have changed.
pub fn render_html<F: FnOnce(Vec<u8>) -> Result<Vec<u8>, std::io::Error>>(
    conn: trillium::Conn,
    render_fn: F,
) -> (r: Result<trillium::Conn, RenderError>)
    requires
        routine_callable(render_fn),
    ensures
        match r {
            Ok(after) => {
                &&& exists|out: Vec<u8>|
                    #[trigger] routine_wrote(render_fn, out) && renders_to(conn, after, out@)
                &&& conn_content_type(after) == Some(html_content_type())
            },
            Err(e) => {
                &&& routine_failed(render_fn, e.cause)
                &&& conn_body(e.conn) == conn_body(conn)
                &&& conn_status(e.conn) == conn_status(conn)
                &&& conn_halted(e.conn) == conn_halted(conn)
                &&& conn_content_type(e.conn) == Some(html_content_type())
            },
        },
{
    let tagged = conn_with_content_type(conn, "text/html; charset=utf-8");
    render_with_size_estimate(tagged, render_fn, 1024)
}

/// The shortcut form of [`render`]: on success the connection with the body
/// bound, on failure the connection rewritten to a halted 500 response —
/// body and content-type header untouched — beside a diagnostic holding the
/// cause. Either way a connection comes back, ready to be returned from the
/// handler.
pub fn render_try<F: FnOnce(Vec<u8>) -> Result<Vec<u8>, std::io::Error>>(
    conn: trillium::Conn,
    render_fn: F,
) -> (r: RenderTry)
    requires
        routine_callable(render_fn),
    ensures
        match r {
            RenderTry::Rendered(after) => {
                &&& exists|out: Vec<u8>|
                    #[trigger] routine_wrote(render_fn, out) && renders_to(conn, after, out@)
                &&& conn_content_type(after) == conn_content_type(conn)
            },
            RenderTry::Halted(after, d) => {
                &&& routine_failed(render_fn, d.cause)
                &&& conn_status(after) == Some(500u16)
                &&& conn_halted(after)
                &&& conn_body(after) == conn_body(conn)
                &&& conn_content_type(after) == conn_content_type(conn)
            },
        },
{
    match render(conn, render_fn) {
        Ok(after) => RenderTry::Rendered(after),
        Err(e) => {
            let RenderError { cause, conn: recovered } = e;
            let message = io_error_message(&cause);
            let halted = conn_halt(conn_with_status(recovered, 500));
            RenderTry::Halted(halted, Diagnostic { message, cause })
        },
    }
}

/// The shortcut form of [`render_html`]: as [`render_try`], but the
/// content-type response header is set to `text/html; charset=utf-8` before
/// rendering, so both arms carry it.
pub fn render_html_try<F: FnOnce(Vec<u8>) -> Result<Vec<u8>, std::io::Error>>(
    conn: trillium::Conn,
    render_fn: F,
) -> (r: RenderTry)
    requires
        routine_callable(render_fn),
    ensures
        match r {
            RenderTry::Rendered(after) => {
                &&& exists|out: Vec<u8>|
                    #[trigger] routine_wrote(render_fn, out) && renders_to(conn, after, out@)
                &&& conn_content_type(after) == Some(html_content_type())
            },
            RenderTry::Halted(after, d) => {
                &&& routine_failed(render_fn, d.cause)
                &&& conn_status(after) == Some(500u16)
                &&& conn_halted(after)
                &&& conn_body(after) == conn_body(conn)
                &&& conn_content_type(after) == Some(html_content_type())
            },
        },
{
    match render_html(conn, render_fn) {
        Ok(after) => RenderTry::Rendered(after),
        Err(e) => {
            let RenderError { cause, conn: recovered } = e;
            let message = io_error_message(&cause);
            let halted = conn_halt(conn_with_status(recovered, 500));
            RenderTry::Halted(halted, Diagnostic { message, cause })
        },
    }
}

/// Render methods on the connection itself, in the style the surrounding
/// server's handlers use: each returns the connection on every path. On
/// success the routine's bytes become the body and the status is 200; on
/// failure the connection is rewritten to a halted 500 response and the
/// cause is discarded — a caller that wants the cause uses [`render_try`] or
/// the `Result`-returning functions instead.
pub trait RucteConnExt: Sized {
    /// The response body this connection carries, `None` while no body is
    /// set.
    spec fn view_body(&self) -> Option<Seq<u8>>;

    /// The response status of this connection, `None` while no status is
    /// set.
    spec fn view_status(&self) -> Option<u16>;

    /// Whether this connection is halted.
    spec fn view_halted(&self) -> bool;

    /// The content-type response header of this connection, `None` while
    /// that header is absent.
    spec fn view_content_type(&self) -> Option<Seq<char>>;

    /// Render a template to this connection's body, starting from a buffer
    /// of the default capacity of 1024 bytes.
    fn render<F: FnOnce(Vec<u8>) -> Result<Vec<u8>, std::io::Error>>(
        self,
        render_fn: F,
    ) -> (r: Self)
        requires
            routine_callable(render_fn),
        ensures
            ({
                ||| {
                    &&& exists|out: Vec<u8>|
                        #[trigger] routine_wrote(render_fn, out) && r.view_body() == Some(out@)
                    &&& r.view_status() == Some(200u16)
                    &&& r.view_halted() == self.view_halted()
                    &&& r.view_content_type() == self.view_content_type()
                }
                ||| {
                    &&& exists|cause: std::io::Error| #[trigger] routine_failed(render_fn, cause)
                    &&& r.view_status() == Some(500u16)
                    &&& r.view_halted()
                    &&& r.view_body() == self.view_body()
                    &&& r.view_content_type() == self.view_content_type()
                }
            }),
    ;

    /// Render a template to this connection's body, starting from a buffer
    /// preallocated to the given capacity in bytes. The capacity is only a
    /// hint and has no bearing on the bytes produced.
    fn render_with_size_estimate<F: FnOnce(Vec<u8>) -> Result<Vec<u8>, std::io::Error>>(
        self,
        render_fn: F,
        size_estimate: usize,
    ) -> (r: Self)
        requires
            routine_callable(render_fn),
        ensures
            ({
                ||| {
                    &&& exists|out: Vec<u8>|
                        #[trigger] routine_wrote(render_fn, out) && r.view_body() == Some(out@)
                    &&& r.view_status() == Some(200u16)
                    &&& r.view_halted() == self.view_halted()
                    &&& r.view_content_type() == self.view_content_type()
                }
                ||| {
                    &&& exists|cause: std::io::Error| #[trigger] routine_failed(render_fn, cause)
                    &&& r.view_status() == Some(500u16)
                    &&& r.view_halted()
                    &&& r.view_body() == self.view_body()
                    &&& r.view_content_type() == self.view_content_type()
                }
            }),
    ;

    /// Render a template to this connection's body and set the content-type
    /// response header to `text/html; charset=utf-8` — on the failure path
    /// too, since the header is set before rendering begins.
    fn render_html<F: FnOnce(Vec<u8>) -> Result<Vec<u8>, std::io::Error>>(
        self,
        render_fn: F,
    ) -> (r: Self)
        requires
            routine_callable(render_fn),
        ensures
            r.view_content_type() == Some(html_content_type()),
            ({
                ||| {
                    &&& exists|out: Vec<u8>|
                        #[trigger] routine_wrote(render_fn, out) && r.view_body() == Some(out@)
                    &&& r.view_status() == Some(200u16)
                    &&& r.view_halted() == self.view_halted()
                }
                ||| {
                    &&& exists|cause: std::io::Error| #[trigger] routine_failed(render_fn, cause)
                    &&& r.view_status() == Some(500u16)
                    &&& r.view_halted()
                    &&& r.view_body() == self.view_body()
                }
            }),
    ;
}

impl RucteConnExt for trillium::Conn {
    open spec fn view_body(&self) -> Option<Seq<u8>> {
        conn_body(*self)
    }

    open spec fn view_status(&self) -> Option<u16> {
        conn_status(*self)
    }

    open spec fn view_halted(&self) -> bool {
        conn_halted(*self)
    }

    open spec fn view_content_type(&self) -> Option<Seq<char>> {
        conn_content_type(*self)
    }

    fn render<F: FnOnce(Vec<u8>) -> Result<Vec<u8>, std::io::Error>>(
        self,
        render_fn: F,
    ) -> (r: Self) {
        Self::render_with_size_estimate(self, render_fn, 1024)
    }

    fn render_with_size_estimate<F: FnOnce(Vec<u8>) -> Result<Vec<u8>, std::io::Error>>(
        self,
        render_fn: F,
        size_estimate: usize,
    ) -> (r: Self) {
        match render_with_size_estimate(self, render_fn, size_estimate) {
            Ok(after) => after,
            Err(e) => {
                let RenderError { cause: _, conn: recovered } = e;
                conn_halt(conn_with_status(recovered, 500))
            },
        }
    }

    fn render_html<F: FnOnce(Vec<u8>) -> Result<Vec<u8>, std::io::Error>>(
        self,
        render_fn: F,
    ) -> (r: Self) {
        match render_html(self, render_fn) {
            Ok(after) => after,
            Err(e) => {
                let RenderError { cause: _, conn: recovered } = e;
                conn_halt(conn_with_status(recovered, 500))
            },
        }
    }
}

} // verus!
