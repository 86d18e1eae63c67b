//! The trusted boundary around trillium's `Conn`.
//!
//! A `Conn` is the request/response carrier owned by the surrounding trillium
//! server. This crate never constructs one; it only threads one through. The
//! four spec functions below name the parts of a connection's response state
//! that this crate reads or writes: the response body, the response status,
//! the halted flag, and the content-type response header. Every wrapper in
//! this module states its effect on all four.

use vstd::prelude::*;

verus! {

#[verifier::external_type_specification]
#[verifier::external_body]
pub struct ExConn(trillium::Conn);

#[verifier::external_type_specification]
#[verifier::external_body]
pub struct ExIoError(std::io::Error);

/// The bytes of the connection's response body, `None` while no body is set.
pub uninterp spec fn conn_body(c: trillium::Conn) -> Option<Seq<u8>>;

/// The connection's response status code, `None` while no status is set.
pub uninterp spec fn conn_status(c: trillium::Conn) -> Option<u16>;

/// Whether the connection is halted, i.e. the server must not run any
/// further handler on it.
pub uninterp spec fn conn_halted(c: trillium::Conn) -> bool;

/// The value of the connection's content-type response header, `None` while
/// that header is absent.
pub uninterp spec fn conn_content_type(c: trillium::Conn) -> Option<Seq<char>>;

/// Relies on `trillium::Conn::with_status`, which stores the status converted
/// by `trillium_http`'s `TryFrom<u16> for Status` and touches nothing else.
/// The conversion falls back to a different code only for a u16 that is not a
/// standard status code; 200 and 500, the two codes this crate sets, are
/// standard, so the stored code is the given one.
#[verifier::external_body]
pub(crate) fn conn_with_status(c: trillium::Conn, status: u16) -> (r: trillium::Conn)
    requires
        status == 200u16 || status == 500u16,
    ensures
        conn_status(r) == Some(status),
        conn_body(r) == conn_body(c),
        conn_halted(r) == conn_halted(c),
        conn_content_type(r) == conn_content_type(c),
{
    c.with_status(status)
}

/// Relies on `trillium::Conn::with_body`, which replaces the response body
/// (here with a static body holding exactly the given bytes) and neither the
/// status, nor the halted flag, nor any header.
#[verifier::external_body]
pub(crate) fn conn_with_body(c: trillium::Conn, body: Vec<u8>) -> (r: trillium::Conn)
    ensures
        conn_body(r) == Some(body@),
        conn_status(r) == conn_status(c),
        conn_halted(r) == conn_halted(c),
        conn_content_type(r) == conn_content_type(c),
{
    c.with_body(body)
}

/// Relies on `trillium::Conn::halt`, which sets the halted flag and touches
/// nothing else.
#[verifier::external_body]
pub(crate) fn conn_halt(c: trillium::Conn) -> (r: trillium::Conn)
    ensures
        conn_halted(r),
        conn_body(r) == conn_body(c),
        conn_status(r) == conn_status(c),
        conn_content_type(r) == conn_content_type(c),
{
    c.halt()
}

/// Relies on `trillium::Conn::with_response_header` with
/// `KnownHeaderName::ContentType`: `Headers::insert` replaces any previous
/// value of that header and leaves every other header, the body, the status
/// and the halted flag alone.
#[verifier::external_body]
pub(crate) fn conn_with_content_type(c: trillium::Conn, value: &str) -> (r: trillium::Conn)
    ensures
        conn_content_type(r) == Some(value@),
        conn_body(r) == conn_body(c),
        conn_status(r) == conn_status(c),
        conn_halted(r) == conn_halted(c),
{
    c.with_response_header(trillium::KnownHeaderName::ContentType, value.to_string())
}

/// Relies on the `Display` impl of `std::io::Error` for a human-readable
/// rendering of the failure cause. Nothing is assumed of the text.
#[verifier::external_body]
pub(crate) fn io_error_message(e: &std::io::Error) -> String {
    format!("{e}")
}

} // verus!
