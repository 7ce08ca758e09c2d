//! Whole calls across the host boundary, raw and structured, and the
//! last-error channel, run against an engine that stands in for the native
//! one.

use proj_lite::boundary::{
    decode, transform2_known_crs, transform2_known_crs_raw, Call, Phase, RawCall, RawOutcome,
    STATUS_CONSTRUCTION_FAILED, STATUS_INVALID_POINTER, STATUS_INVALID_TEXT, STATUS_OK,
    STATUS_TRANSFORM_FAILED,
};
use proj_lite::channel::{
    clear_last_error, last_error_message_len, last_error_message_ptr, set_last_error, LastError,
    LAST_ERROR_CAPACITY,
};
use proj_lite::sys::{PJconsts, Reply, Request, PJ_CONTEXT, PJ_COORD};

/// US survey feet to metres.
const FEET_TO_METRES: f64 = 1200.0 / 3937.0;

/// An engine that knows one pair of coordinate reference systems and fails
/// to transform what is not finite.
struct Engine {
    log: Vec<String>,
    next_addr: usize,
    contexts: Vec<usize>,
    objects: Vec<usize>,
    context_errno: i32,
    object_errno: i32,
}

impl Engine {
    fn new() -> Engine {
        Engine {
            log: Vec::new(),
            next_addr: 0x4000,
            contexts: Vec::new(),
            objects: Vec::new(),
            context_errno: 0,
            object_errno: 0,
        }
    }

    fn fresh(&mut self) -> usize {
        self.next_addr += 8;
        self.next_addr
    }

    fn perform(&mut self, request: Request) -> Reply {
        match request {
            Request::ContextCreate => {
                self.log.push("context_create".to_string());
                let addr = self.fresh();
                self.contexts.push(addr);
                Reply::Context(PJ_CONTEXT { addr })
            }
            Request::ContextDestroy { ctx } => {
                self.log.push("context_destroy".to_string());
                assert!(self.objects.is_empty(), "context destroyed before its transform object");
                let at = self.contexts.iter().position(|addr| *addr == ctx.addr);
                self.contexts.remove(at.expect("destruction of a dead context"));
                Reply::Done
            }
            Request::ContextErrno { .. } => {
                self.log.push("context_errno".to_string());
                Reply::Code(self.context_errno)
            }
            Request::ContextErrnoString { .. } => {
                self.log.push("context_errno_string".to_string());
                Reply::Text(Some("Invalid value for an argument".to_string()))
            }
            Request::Create { .. } => panic!("a call builds from a pair"),
            Request::CreateCrsToCrs { ctx, source_crs, target_crs } => {
                self.log.push(format!("create_crs_to_crs {source_crs} {target_crs}"));
                assert!(self.contexts.contains(&ctx.addr));
                if source_crs == "EPSG:2230" && target_crs == "EPSG:26946" {
                    let addr = self.fresh();
                    self.objects.push(addr);
                    Reply::Object(PJconsts { addr })
                } else {
                    self.context_errno = 1027;
                    Reply::Object(PJconsts { addr: 0 })
                }
            }
            Request::NormalizeForVisualization { obj, .. } => {
                self.log.push("normalize_for_visualization".to_string());
                assert!(self.objects.contains(&obj.addr));
                let addr = self.fresh();
                self.objects.push(addr);
                Reply::Object(PJconsts { addr })
            }
            Request::Destroy { obj } => {
                self.log.push("destroy".to_string());
                let at = self.objects.iter().position(|addr| *addr == obj.addr);
                self.objects.remove(at.expect("destruction of a dead transform object"));
                Reply::Done
            }
            Request::ErrnoReset { obj } => {
                self.log.push("errno_reset".to_string());
                assert!(self.objects.contains(&obj.addr));
                self.object_errno = 0;
                Reply::Done
            }
            Request::Errno { obj } => {
                self.log.push("errno".to_string());
                assert!(self.objects.contains(&obj.addr));
                Reply::Code(self.object_errno)
            }
            Request::ErrnoString { .. } => {
                self.log.push("errno_string".to_string());
                Reply::Text(Some("Point outside of projection domain".to_string()))
            }
            Request::Trans { obj, coord, .. } => {
                self.log.push("trans".to_string());
                assert!(self.objects.contains(&obj.addr));
                let [x, y, z, t] = coord.v.map(f64::from_bits);
                if !x.is_finite() || !y.is_finite() {
                    self.object_errno = 2049;
                }
                let out = [x * FEET_TO_METRES, y * FEET_TO_METRES, z, t];
                Reply::Coord(PJ_COORD { v: out.map(f64::to_bits) })
            }
        }
    }

    fn is_clean(&self) -> bool {
        self.contexts.is_empty() && self.objects.is_empty()
    }
}

fn run_raw(engine: &mut Engine, mut call: RawCall, channel: &mut LastError) -> RawOutcome {
    while let Some(request) = call.request() {
        call = call.resume(engine.perform(request));
    }
    call.finish(channel).expect("a raw call that asks for nothing is finished")
}

fn run(engine: &mut Engine, mut call: Call) -> Result<Vec<f64>, String> {
    while let Some(request) = call.request() {
        call = call.resume(engine.perform(request));
    }
    call.finish()
        .expect("a call that asks for nothing is finished")
        .map(|values| values.into_iter().map(f64::from_bits).collect())
}

fn message(channel: &LastError) -> String {
    let len = last_error_message_len(channel);
    String::from_utf8(last_error_message_ptr(channel)[..len].to_vec()).unwrap()
}

const X: f64 = 4_760_096.421_921;
const Y: f64 = 3_744_293.729_449;

#[test]
fn null_output_pointer_returns_status_1() {
    let mut engine = Engine::new();
    let mut channel = LastError::new();
    clear_last_error(&mut channel);
    let call = transform2_known_crs_raw(
        Some(b"EPSG:2230"),
        9,
        Some(b"EPSG:26946"),
        10,
        X.to_bits(),
        Y.to_bits(),
        true,
    );
    assert!(call.request().is_none());
    let end = run_raw(&mut engine, call, &mut channel);

    assert_eq!(end.status, 1);
    assert_eq!(end.status, STATUS_INVALID_POINTER);
    assert_eq!(end.out, None);
    assert!(engine.log.is_empty());
    assert_eq!(message(&channel), "invalid pointer argument");
}

#[test]
fn null_input_pointer_with_length_returns_status_1() {
    let mut engine = Engine::new();
    let mut channel = LastError::new();
    let from = transform2_known_crs_raw(None, 9, Some(b"EPSG:26946"), 10, 0, 0, false);
    let to = transform2_known_crs_raw(Some(b"EPSG:2230"), 9, None, 1, 0, 0, false);

    assert_eq!(run_raw(&mut engine, from, &mut channel).status, 1);
    assert_eq!(message(&channel), "invalid pointer argument");
    assert_eq!(run_raw(&mut engine, to, &mut channel).status, 1);
    assert!(engine.log.is_empty());
}

#[test]
fn null_input_pointer_with_zero_length_is_the_empty_text() {
    let mut engine = Engine::new();
    let mut channel = LastError::new();
    let call = transform2_known_crs_raw(None, 0, None, 0, 0, 0, false);
    let end = run_raw(&mut engine, call, &mut channel);

    assert_eq!(end.status, STATUS_CONSTRUCTION_FAILED);
    assert_eq!(engine.log[1], "create_crs_to_crs  ");
}

#[test]
fn non_text_source_returns_status_2() {
    let mut engine = Engine::new();
    let mut channel = LastError::new();
    let call = transform2_known_crs_raw(
        Some(&[0xff, 0xfe, 0x41]),
        3,
        Some(b"EPSG:26946"),
        10,
        X.to_bits(),
        Y.to_bits(),
        false,
    );
    let end = run_raw(&mut engine, call, &mut channel);

    assert_eq!(end.status, 2);
    assert_eq!(end.status, STATUS_INVALID_TEXT);
    assert_eq!(end.out, None);
    assert!(last_error_message_len(&channel) > 0);
    assert_eq!(message(&channel), "from_crs is not valid UTF-8");
    assert!(engine.log.is_empty());
}

#[test]
fn non_text_target_returns_status_2() {
    let mut engine = Engine::new();
    let mut channel = LastError::new();
    let call = transform2_known_crs_raw(
        Some(b"EPSG:2230"),
        9,
        Some(&[0xc3]),
        1,
        X.to_bits(),
        Y.to_bits(),
        false,
    );
    let end = run_raw(&mut engine, call, &mut channel);

    assert_eq!(end.status, 2);
    assert_eq!(message(&channel), "to_crs is not valid UTF-8");
}

#[test]
fn source_is_judged_before_target() {
    let mut engine = Engine::new();
    let mut channel = LastError::new();
    let call = transform2_known_crs_raw(Some(&[0x80]), 1, Some(&[0x80]), 1, 0, 0, false);
    run_raw(&mut engine, call, &mut channel);

    assert_eq!(message(&channel), "from_crs is not valid UTF-8");
}

#[test]
fn pointers_are_judged_before_text() {
    let mut engine = Engine::new();
    let mut channel = LastError::new();
    let call = transform2_known_crs_raw(Some(&[0x80]), 1, Some(&[0x80]), 1, 0, 0, true);

    assert_eq!(run_raw(&mut engine, call, &mut channel).status, 1);
}

#[test]
fn overlong_and_surrogate_bytes_are_no_text() {
    assert_eq!(decode(Some(&[0xc0, 0x80])), None);
    assert_eq!(decode(Some(&[0xed, 0xa0, 0x80])), None);
    assert_eq!(decode(Some(&[0xf4, 0x90, 0x80, 0x80])), None);
    assert_eq!(decode(Some(&[0xe2, 0x82])), None);
}

#[test]
fn bytes_are_read_as_utf8() {
    assert_eq!(decode(Some("EPSG:4326".as_bytes())), Some("EPSG:4326".to_string()));
    assert_eq!(decode(Some(&[0xc3, 0xa9, 0xe2, 0x82, 0xac])), Some("é€".to_string()));
    assert_eq!(decode(Some(&[])), Some(String::new()));
    assert_eq!(decode(None), Some(String::new()));
}

#[test]
fn unknown_crs_returns_status_3() {
    let mut engine = Engine::new();
    let mut channel = LastError::new();
    let call = transform2_known_crs_raw(
        Some(b"EPSG:0"),
        6,
        Some(b"EPSG:26946"),
        10,
        X.to_bits(),
        Y.to_bits(),
        false,
    );
    let end = run_raw(&mut engine, call, &mut channel);

    assert_eq!(end.status, 3);
    assert_eq!(end.out, None);
    assert_eq!(message(&channel), "failed to create PROJ object: Invalid value for an argument");
    assert!(engine.is_clean());
}

#[test]
fn embedded_nul_returns_status_3() {
    let mut engine = Engine::new();
    let mut channel = LastError::new();
    let call = transform2_known_crs_raw(Some(b"EPSG\0"), 5, Some(b"EPSG:26946"), 10, 0, 0, false);
    let end = run_raw(&mut engine, call, &mut channel);

    assert_eq!(end.status, 3);
    assert_eq!(message(&channel), "input string contains an embedded NUL byte");
    assert_eq!(engine.log, vec!["context_create", "context_destroy"]);
}

#[test]
fn failed_transformation_returns_status_4_and_releases_the_handle() {
    let mut engine = Engine::new();
    let mut channel = LastError::new();
    let call = transform2_known_crs_raw(
        Some(b"EPSG:2230"),
        9,
        Some(b"EPSG:26946"),
        10,
        f64::NAN.to_bits(),
        Y.to_bits(),
        false,
    );
    let end = run_raw(&mut engine, call, &mut channel);

    assert_eq!(end.status, 4);
    assert_eq!(end.status, STATUS_TRANSFORM_FAILED);
    assert_eq!(end.out, None);
    assert_eq!(message(&channel), "PROJ transform failed: Point outside of projection domain");
    assert_eq!(
        engine.log,
        vec![
            "context_create",
            "create_crs_to_crs EPSG:2230 EPSG:26946",
            "normalize_for_visualization",
            "destroy",
            "errno_reset",
            "trans",
            "errno",
            "errno_string",
            "destroy",
            "context_destroy",
        ]
    );
    assert!(engine.is_clean());
}

#[test]
fn success_returns_status_0_and_clears_the_channel() {
    let mut engine = Engine::new();
    let mut channel = LastError::new();
    set_last_error(&mut channel, "left over from an earlier call");
    let call = transform2_known_crs_raw(
        Some(b"EPSG:2230"),
        9,
        Some(b"EPSG:26946"),
        10,
        X.to_bits(),
        Y.to_bits(),
        false,
    );
    let end = run_raw(&mut engine, call, &mut channel);

    assert_eq!(end.status, 0);
    assert_eq!(end.status, STATUS_OK);
    let (x, y) = end.out.expect("two values to write");
    assert!((f64::from_bits(x) - 1_450_880.29).abs() < 1e-2);
    assert!((f64::from_bits(y) - 1_141_263.01).abs() < 1e-2);
    assert_eq!(last_error_message_len(&channel), 0);
    assert_eq!(
        engine.log,
        vec![
            "context_create",
            "create_crs_to_crs EPSG:2230 EPSG:26946",
            "normalize_for_visualization",
            "destroy",
            "errno_reset",
            "trans",
            "errno",
            "destroy",
            "context_destroy",
        ]
    );
    assert!(engine.is_clean());
}

#[test]
fn unfinished_raw_call_ends_in_nothing() {
    let mut channel = LastError::new();
    set_last_error(&mut channel, "kept");
    let call = transform2_known_crs_raw(Some(b"a"), 1, Some(b"b"), 1, 0, 0, false);

    assert!(call.finish(&mut channel).is_none());
    assert_eq!(message(&channel), "kept");
}

#[test]
fn structured_call_returns_two_values() {
    let mut engine = Engine::new();
    let out = run(&mut engine, transform2_known_crs("EPSG:2230", "EPSG:26946", X.to_bits(), Y.to_bits()))
        .expect("transform point");

    assert_eq!(out.len(), 2);
    assert!((out[0] - 1_450_880.29).abs() < 1e-2);
    assert!((out[1] - 1_141_263.01).abs() < 1e-2);
    assert!(engine.is_clean());
}

#[test]
fn structured_call_returns_the_message_of_a_failure() {
    let mut engine = Engine::new();
    let unknown = run(&mut engine, transform2_known_crs("EPSG:0", "EPSG:26946", 0, 0));
    let outside = run(
        &mut engine,
        transform2_known_crs("EPSG:2230", "EPSG:26946", f64::INFINITY.to_bits(), 0),
    );

    assert_eq!(
        unknown.unwrap_err(),
        "failed to create PROJ object: Invalid value for an argument"
    );
    assert_eq!(
        outside.unwrap_err(),
        "PROJ transform failed: Point outside of projection domain"
    );
    assert!(engine.is_clean());
}

#[test]
fn call_outcome_tells_where_it_failed() {
    let mut engine = Engine::new();
    let mut call = transform2_known_crs("EPSG:0", "EPSG:26946", 0, 0);
    while let Some(request) = call.request() {
        call = call.resume(engine.perform(request));
    }
    let failure = call.outcome().unwrap().unwrap_err();

    assert!(matches!(failure.phase, Phase::Construction));
    assert_eq!(failure.phase.status(), 3);
    assert_eq!(Phase::Transformation.status(), 4);
}

#[test]
fn new_channel_is_empty_and_zeroed() {
    let channel = LastError::new();

    assert_eq!(last_error_message_len(&channel), 0);
    assert_eq!(last_error_message_ptr(&channel), &[0u8; 1024]);
    assert_eq!(LAST_ERROR_CAPACITY, 1024);
}

#[test]
fn long_message_is_cut_at_capacity() {
    let mut channel = LastError::new();
    let long: String = "abcdefghij".repeat(200);
    set_last_error(&mut channel, &long);

    assert_eq!(last_error_message_len(&channel), 1024);
    assert_eq!(&last_error_message_ptr(&channel)[..], &long.as_bytes()[..1024]);

    let exact: String = "x".repeat(1024);
    set_last_error(&mut channel, &exact);
    assert_eq!(last_error_message_len(&channel), 1024);
    assert_eq!(message(&channel), exact);
}

#[test]
fn short_message_leaves_the_rest_of_the_buffer() {
    let mut channel = LastError::new();
    set_last_error(&mut channel, "a long message");
    set_last_error(&mut channel, "short");

    assert_eq!(last_error_message_len(&channel), 5);
    assert_eq!(message(&channel), "short");
    assert_eq!(&last_error_message_ptr(&channel)[..14], b"shortg message");
}

#[test]
fn clearing_keeps_the_bytes_and_drops_the_length() {
    let mut channel = LastError::new();
    set_last_error(&mut channel, "gone");
    clear_last_error(&mut channel);

    assert_eq!(last_error_message_len(&channel), 0);
    assert_eq!(&last_error_message_ptr(&channel)[..4], b"gone");
    set_last_error(&mut channel, "");
    assert_eq!(last_error_message_len(&channel), 0);
}
