//! Messages, decimal rendering, and the error translator on its own.

use proj_lite::error::ProjError;
use proj_lite::sys::{
    PJconsts, Reply, Request, PJ_CONTEXT, PJ_COORD, PJ_DIRECTION_PJ_FWD, PJ_DIRECTION_PJ_IDENT,
    PJ_DIRECTION_PJ_INV, PJ_XYZT, POSITIVE_INFINITY, ZERO,
};
use proj_lite::text::{find_nul, push_decimal, push_digits};
use proj_lite::translate::{context_error_message, proj_error_message, Explaining};

fn decimal(n: i32) -> String {
    let mut out = String::new();
    push_decimal(&mut out, n);
    out
}

fn digits(n: u64) -> String {
    let mut out = String::new();
    push_digits(&mut out, n);
    out
}

#[test]
fn every_failure_has_its_line() {
    let none: ProjError = ProjError::ContextCreation;
    assert_eq!(none.message(), "failed to create PROJ context");
    assert_eq!(
        ProjError::<String>::InvalidInput(3).message(),
        "input string contains an embedded NUL byte"
    );
    assert_eq!(
        ProjError::Creation("no such system".to_string()).message(),
        "failed to create PROJ object: no such system"
    );
    assert_eq!(
        ProjError::Normalization("axes".to_string()).message(),
        "failed to normalize CRS transform: axes"
    );
    assert_eq!(
        ProjError::Transform("outside".to_string()).message(),
        "PROJ transform failed: outside"
    );
    assert_eq!(
        ProjError::<String>::UnsupportedDimensions(0).message(),
        "unsupported coordinate dimensions: 0"
    );
    assert_eq!(
        ProjError::<String>::UnsupportedDimensions(usize::MAX).message(),
        format!("unsupported coordinate dimensions: {}", usize::MAX)
    );
    assert_eq!(ProjError::Creation(String::new()).message(), "failed to create PROJ object: ");
}

#[test]
fn decimal_matches_the_standard_rendering() {
    for n in [0, 1, 9, 10, 11, 99, 100, 1027, 2049, i32::MAX, -1, -9, -10, -1027, i32::MIN] {
        assert_eq!(decimal(n), n.to_string());
    }
    for n in [0u64, 7, 10, 12345678901234567890, u64::MAX] {
        assert_eq!(digits(n), n.to_string());
    }
}

#[test]
fn decimal_is_appended() {
    let mut out = "errno=".to_string();
    push_decimal(&mut out, -42);
    assert_eq!(out, "errno=-42");
}

#[test]
fn first_nul_is_found_by_byte_position() {
    assert_eq!(find_nul(""), None);
    assert_eq!(find_nul("EPSG:4326"), None);
    assert_eq!(find_nul("\0"), Some(0));
    assert_eq!(find_nul("ab\0cd\0"), Some(2));
    assert_eq!(find_nul("é€\0"), Some(5));
}

#[test]
fn code_zero_is_unknown_and_asks_nothing() {
    let task = proj_error_message(0);

    assert!(task.request().is_none());
    assert_eq!(task.message(), Some("unknown error".to_string()));
}

#[test]
fn code_is_translated_by_the_engine() {
    let task = proj_error_message(2049);
    match task.request() {
        Some(Request::ErrnoString { err }) => assert_eq!(err, 2049),
        other => panic!("expected a request for the message, got {other:?}"),
    }
    let task = task.resume(Reply::Text(Some("Point outside of projection domain".to_string())));

    assert!(task.request().is_none());
    assert_eq!(task.message(), Some("Point outside of projection domain".to_string()));
}

#[test]
fn code_without_message_is_rendered() {
    let positive = proj_error_message(1027).resume(Reply::Text(None));
    let negative = proj_error_message(-5).resume(Reply::Text(None));
    let least = proj_error_message(i32::MIN).resume(Reply::Text(None));

    assert_eq!(positive.message(), Some("PROJ errno=1027".to_string()));
    assert_eq!(negative.message(), Some("PROJ errno=-5".to_string()));
    assert_eq!(least.message(), Some("PROJ errno=-2147483648".to_string()));
}

#[test]
fn unfinished_translation_has_no_message() {
    assert_eq!(proj_error_message(3).message(), None);
    assert_eq!(context_error_message(PJ_CONTEXT { addr: 8 }).message(), None);
}

#[test]
fn context_is_asked_for_its_code_first() {
    let ctx = PJ_CONTEXT { addr: 0x80 };
    let task = context_error_message(ctx);
    match task.request() {
        Some(Request::ContextErrno { ctx: asked }) => assert_eq!(asked, ctx),
        other => panic!("expected a request for the code, got {other:?}"),
    }
    let task = task.resume(Reply::Code(1027));
    match task.request() {
        Some(Request::ContextErrnoString { ctx: asked, err }) => {
            assert_eq!(asked, ctx);
            assert_eq!(err, 1027);
        }
        other => panic!("expected a request for the context's message, got {other:?}"),
    }
    let task = task.resume(Reply::Text(Some("from the context".to_string())));

    assert_eq!(task.message(), Some("from the context".to_string()));
}

#[test]
fn context_with_code_zero_is_unknown() {
    let task = context_error_message(PJ_CONTEXT { addr: 0x80 }).resume(Reply::Code(0));

    assert!(task.request().is_none());
    assert_eq!(task.message(), Some("unknown error".to_string()));
}

#[test]
fn context_without_message_asks_the_engine() {
    let task = context_error_message(PJ_CONTEXT { addr: 0x80 })
        .resume(Reply::Code(7))
        .resume(Reply::Text(None));
    assert!(matches!(task.request(), Some(Request::ErrnoString { err: 7 })));
    assert!(matches!(task, Explaining::Text { err: 7 }));
    let task = task.resume(Reply::Text(None));

    assert_eq!(task.message(), Some("PROJ errno=7".to_string()));
}

#[test]
fn translation_ignores_a_reply_of_the_wrong_kind() {
    let task = proj_error_message(7).resume(Reply::Code(9)).resume(Reply::Done);

    assert!(matches!(task.request(), Some(Request::ErrnoString { err: 7 })));
}

#[test]
fn coordinate_has_four_slots_under_every_reading() {
    let coord = PJ_COORD::from_xyzt(PJ_XYZT { x: 1, y: 2, z: 3, t: 4 });

    assert_eq!(coord.v, [1, 2, 3, 4]);
    assert_eq!((coord.xy().x, coord.xy().y), (1, 2));
    assert_eq!(coord.xyzt(), PJ_XYZT { x: 1, y: 2, z: 3, t: 4 });
    let lpzt = coord.lpzt();
    assert_eq!((lpzt.lam, lpzt.phi, lpzt.z, lpzt.t), (1, 2, 3, 4));
}

#[test]
fn constants_are_the_engine_s() {
    assert_eq!(PJ_DIRECTION_PJ_FWD, 1);
    assert_eq!(PJ_DIRECTION_PJ_IDENT, 0);
    assert_eq!(PJ_DIRECTION_PJ_INV, -1);
    assert_eq!(f64::from_bits(ZERO), 0.0);
    assert!(f64::from_bits(ZERO).is_sign_positive());
    assert_eq!(f64::from_bits(POSITIVE_INFINITY), f64::INFINITY);
}

#[test]
fn null_handles_are_told_apart() {
    assert!(PJ_CONTEXT { addr: 0 }.is_null());
    assert!(!PJ_CONTEXT { addr: 1 }.is_null());
    assert!(PJconsts { addr: 0 }.is_null());
    assert!(!PJconsts { addr: usize::MAX }.is_null());
}
