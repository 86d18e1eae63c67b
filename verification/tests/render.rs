use std::cell::Cell;
use std::io::{Error, ErrorKind};
use std::rc::Rc;

use trillium::KnownHeaderName;
use trillium_ructe::{render, render_html, render_html_try, render_try, render_with_size_estimate, RenderTry, RucteConnExt};
use trillium_testing::TestConn;

fn new_conn() -> trillium::Conn {
    TestConn::build("get", "/", "").into()
}

fn body_bytes(conn: &trillium::Conn) -> Vec<u8> {
    conn.response_body()
        .expect("a response body should be set")
        .static_bytes()
        .expect("the response body should be a static body")
        .to_vec()
}

fn content_type(conn: &trillium::Conn) -> Option<String> {
    conn.response_headers()
        .get_str(KnownHeaderName::ContentType)
        .map(|s| s.to_string())
}

#[test]
fn render_success_binds_body_and_status() {
    let conn = new_conn();
    assert!(conn.status().is_none());
    assert!(!conn.is_halted());
    let conn = render(conn, |mut buf: Vec<u8>| {
        buf.extend_from_slice(b"<h1>hello world</h1>");
        Ok(buf)
    })
    .expect("rendering should succeed");
    assert_eq!(body_bytes(&conn), b"<h1>hello world</h1>".to_vec());
    assert_eq!(conn.status().expect("a status should be set"), 200u16);
    assert!(!conn.is_halted());
    assert_eq!(content_type(&conn), None);
}

#[test]
fn render_failure_returns_conn_untouched() {
    let conn = new_conn();
    let err = render(conn, |_buf: Vec<u8>| -> Result<Vec<u8>, Error> {
        Err(Error::new(ErrorKind::Other, "boom"))
    })
    .expect_err("rendering should fail");
    assert_eq!(err.cause.kind(), ErrorKind::Other);
    assert_eq!(err.cause.to_string(), "boom");
    let conn = err.conn;
    assert!(conn.status().is_none());
    assert!(!conn.is_halted());
    assert!(conn.response_body().is_none());
    assert_eq!(content_type(&conn), None);
}

#[test]
fn render_html_success_sets_content_type() {
    let conn = new_conn();
    let conn = render_html(conn, |mut buf: Vec<u8>| {
        buf.extend_from_slice(b"<h1>hi</h1>");
        Ok(buf)
    })
    .expect("rendering should succeed");
    assert_eq!(content_type(&conn).as_deref(), Some("text/html; charset=utf-8"));
    assert_eq!(body_bytes(&conn), b"<h1>hi</h1>".to_vec());
    assert_eq!(conn.status().expect("a status should be set"), 200u16);
}

#[test]
fn render_html_overwrites_previous_content_type() {
    let conn = new_conn().with_response_header(KnownHeaderName::ContentType, "text/plain");
    let conn = render_html(conn, |buf: Vec<u8>| Ok(buf)).expect("rendering should succeed");
    assert_eq!(content_type(&conn).as_deref(), Some("text/html; charset=utf-8"));
}

#[test]
fn render_html_failure_still_sets_content_type() {
    let conn = new_conn();
    let err = render_html(conn, |_buf: Vec<u8>| -> Result<Vec<u8>, Error> {
        Err(Error::new(ErrorKind::BrokenPipe, "pipe closed"))
    })
    .expect_err("rendering should fail");
    assert_eq!(err.cause.kind(), ErrorKind::BrokenPipe);
    let conn = err.conn;
    assert_eq!(content_type(&conn).as_deref(), Some("text/html; charset=utf-8"));
    assert!(conn.status().is_none());
    assert!(!conn.is_halted());
    assert!(conn.response_body().is_none());
}

#[test]
fn routine_runs_exactly_once_on_success() {
    let calls = Rc::new(Cell::new(0usize));
    let seen = calls.clone();
    let conn = render(new_conn(), move |buf: Vec<u8>| {
        seen.set(seen.get() + 1);
        Ok(buf)
    })
    .expect("rendering should succeed");
    assert_eq!(calls.get(), 1);
    assert_eq!(body_bytes(&conn), Vec::<u8>::new());
}

#[test]
fn routine_runs_exactly_once_on_failure() {
    let calls = Rc::new(Cell::new(0usize));
    let seen = calls.clone();
    let err = render(new_conn(), move |_buf: Vec<u8>| -> Result<Vec<u8>, Error> {
        seen.set(seen.get() + 1);
        Err(Error::new(ErrorKind::Other, "boom"))
    })
    .expect_err("rendering should fail");
    assert_eq!(calls.get(), 1);
    drop(err);
}

#[test]
fn render_try_failure_halts_with_500_and_diagnostic() {
    let outcome = render_try(new_conn(), |_buf: Vec<u8>| -> Result<Vec<u8>, Error> {
        Err(Error::new(ErrorKind::Other, "template exploded"))
    });
    match outcome {
        RenderTry::Rendered(_) => panic!("a failing routine must not yield a rendered conn"),
        RenderTry::Halted(conn, diagnostic) => {
            assert_eq!(conn.status().expect("a status should be set"), 500u16);
            assert!(conn.is_halted());
            assert!(conn.response_body().is_none());
            assert!(diagnostic.message.contains("template exploded"));
            assert_eq!(diagnostic.cause.kind(), ErrorKind::Other);
        }
    }
}

#[test]
fn render_try_success_yields_rendered_conn() {
    let outcome = render_try(new_conn(), |mut buf: Vec<u8>| {
        buf.extend_from_slice(b"ok");
        Ok(buf)
    });
    match outcome {
        RenderTry::Rendered(conn) => {
            assert_eq!(body_bytes(&conn), b"ok".to_vec());
            assert_eq!(conn.status().expect("a status should be set"), 200u16);
            assert!(!conn.is_halted());
        }
        RenderTry::Halted(..) => panic!("a succeeding routine must not halt the conn"),
    }
}

#[test]
fn render_html_try_success_scenario() {
    let outcome = render_html_try(new_conn(), |mut buf: Vec<u8>| {
        buf.extend_from_slice(b"<h1>hello world</h1>");
        Ok(buf)
    });
    match outcome {
        RenderTry::Rendered(conn) => {
            assert_eq!(conn.status().expect("a status should be set"), 200u16);
            assert_eq!(body_bytes(&conn), b"<h1>hello world</h1>".to_vec());
            assert_eq!(content_type(&conn).as_deref(), Some("text/html; charset=utf-8"));
        }
        RenderTry::Halted(..) => panic!("a succeeding routine must not halt the conn"),
    }
}

#[test]
fn render_html_try_failure_halts_and_keeps_content_type() {
    let outcome = render_html_try(new_conn(), |_buf: Vec<u8>| -> Result<Vec<u8>, Error> {
        Err(Error::new(ErrorKind::Other, "boom"))
    });
    match outcome {
        RenderTry::Rendered(_) => panic!("a failing routine must not yield a rendered conn"),
        RenderTry::Halted(conn, diagnostic) => {
            assert_eq!(conn.status().expect("a status should be set"), 500u16);
            assert!(conn.is_halted());
            assert_eq!(content_type(&conn).as_deref(), Some("text/html; charset=utf-8"));
            assert!(diagnostic.message.contains("boom"));
        }
    }
}

#[test]
fn size_estimate_does_not_change_the_body() {
    let conn = render_with_size_estimate(
        new_conn(),
        |mut buf: Vec<u8>| {
            buf.extend_from_slice(b"ten bytes!");
            Ok(buf)
        },
        4096,
    )
    .expect("rendering should succeed");
    assert_eq!(body_bytes(&conn), b"ten bytes!".to_vec());
    assert_eq!(body_bytes(&conn).len(), 10);
    assert_eq!(conn.status().expect("a status should be set"), 200u16);
}

#[test]
fn conn_ext_render_binds_body() {
    let conn = new_conn().render(|mut buf: Vec<u8>| {
        buf.extend_from_slice(b"via the extension trait");
        Ok(buf)
    });
    assert_eq!(body_bytes(&conn), b"via the extension trait".to_vec());
    assert_eq!(conn.status().expect("a status should be set"), 200u16);
    assert!(!conn.is_halted());
}

#[test]
fn conn_ext_render_with_size_estimate_binds_body() {
    let conn = new_conn().render_with_size_estimate(
        |mut buf: Vec<u8>| {
            buf.extend_from_slice(b"sized");
            Ok(buf)
        },
        4096,
    );
    assert_eq!(body_bytes(&conn), b"sized".to_vec());
    assert_eq!(conn.status().expect("a status should be set"), 200u16);
}

#[test]
fn conn_ext_render_html_sets_content_type() {
    let conn = new_conn().render_html(|mut buf: Vec<u8>| {
        buf.extend_from_slice(b"<h1>hello world</h1>");
        Ok(buf)
    });
    assert_eq!(content_type(&conn).as_deref(), Some("text/html; charset=utf-8"));
    assert_eq!(body_bytes(&conn), b"<h1>hello world</h1>".to_vec());
    assert_eq!(conn.status().expect("a status should be set"), 200u16);
}

#[test]
fn conn_ext_render_failure_becomes_halted_500() {
    let conn = new_conn().render(|_buf: Vec<u8>| -> Result<Vec<u8>, Error> {
        Err(Error::new(ErrorKind::Other, "boom"))
    });
    assert_eq!(conn.status().expect("a status should be set"), 500u16);
    assert!(conn.is_halted());
    assert!(conn.response_body().is_none());
}

#[test]
fn conn_ext_render_html_failure_halts_with_content_type() {
    let conn = new_conn().render_html(|_buf: Vec<u8>| -> Result<Vec<u8>, Error> {
        Err(Error::new(ErrorKind::Other, "boom"))
    });
    assert_eq!(conn.status().expect("a status should be set"), 500u16);
    assert!(conn.is_halted());
    assert_eq!(content_type(&conn).as_deref(), Some("text/html; charset=utf-8"));
}
