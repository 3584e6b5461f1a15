use reqwest_builder::{decode_typed, settle_text, RequestError};
use serde_json::Value;

fn as_value(b: &String) -> Option<Value> {
    serde_json::from_str::<Value>(b).ok()
}

fn as_number(b: &String) -> Option<u64> {
    serde_json::from_str::<u64>(b).ok()
}

#[test]
fn expected_status_decodes_success() {
    let r = decode_typed(
        Some(200),
        200,
        String::from("{\"id\":7,\"name\":\"x\"}"),
        as_value,
        as_value,
    );
    match r {
        Ok(Ok(v)) => {
            assert_eq!(v["id"], 7);
            assert_eq!(v["name"], "x");
        }
        _ => panic!("expected a success value"),
    }
}

#[test]
fn other_status_decodes_failure() {
    let r = decode_typed(
        Some(200),
        404,
        String::from("{\"message\":\"not found\"}"),
        as_value,
        as_value,
    );
    match r {
        Ok(Err((code, v))) => {
            assert_eq!(code, 404);
            assert_eq!(v["message"], "not found");
        }
        _ => panic!("expected a failure answer"),
    }
}

#[test]
fn expected_status_with_bad_body_is_unparsable() {
    let r = decode_typed(Some(200), 200, String::from("not json"), as_value, |_: &String| {
        Some(String::from("would have parsed"))
    });
    match r {
        Err(RequestError::Unparsable { statuscode, body }) => {
            assert_eq!(statuscode, 200);
            assert_eq!(body, "not json");
        }
        _ => panic!("expected an unparsable body"),
    }
}

#[test]
fn expected_status_does_not_fall_back_to_error_type() {
    // The body decodes as the error type but not as the success type.
    let r = decode_typed(Some(201), 201, String::from("{\"message\":\"x\"}"), as_number, as_value);
    match r {
        Err(RequestError::Unparsable { statuscode, body }) => {
            assert_eq!(statuscode, 201);
            assert_eq!(body, "{\"message\":\"x\"}");
        }
        _ => panic!("expected an unparsable body"),
    }
}

#[test]
fn other_status_with_bad_body_is_unparsable() {
    // The body decodes as the success type but not as the error type.
    let r = decode_typed(Some(200), 500, String::from("17"), as_number, |b: &String| {
        serde_json::from_str::<Vec<u8>>(b).ok()
    });
    match r {
        Err(RequestError::Unparsable { statuscode, body }) => {
            assert_eq!(statuscode, 500);
            assert_eq!(body, "17");
        }
        _ => panic!("expected an unparsable body"),
    }
}

#[test]
fn unset_expectation_always_reads_error() {
    for code in [200u16, 201, 204, 404, 500] {
        let r = decode_typed(
            None,
            code,
            String::from("42"),
            |_: &String| -> Option<u64> { panic!("the success type must not be tried") },
            as_number,
        );
        match r {
            Ok(Err((c, v))) => {
                assert_eq!(c, code);
                assert_eq!(v, 42);
            }
            _ => panic!("expected a failure answer"),
        }
    }
}

#[test]
fn mismatched_status_never_tries_success_type() {
    let r = decode_typed(
        Some(200),
        202,
        String::from("5"),
        |_: &String| -> Option<u64> { panic!("the success type must not be tried") },
        as_number,
    );
    assert!(matches!(r, Ok(Err((202, 5)))));
}

#[test]
fn matching_status_never_tries_error_type() {
    let r = decode_typed(
        Some(200),
        200,
        String::from("5"),
        as_number,
        |_: &String| -> Option<u64> { panic!("the error type must not be tried") },
    );
    assert!(matches!(r, Ok(Ok(5))));
}

#[test]
fn text_with_expected_status_is_success() {
    let r = settle_text(Some(200), 200, String::from("hello"));
    assert_eq!(r, Ok(String::from("hello")));
}

#[test]
fn text_with_other_status_is_failure() {
    let r = settle_text(Some(200), 404, String::from("missing"));
    assert_eq!(r, Err((404, String::from("missing"))));
}

#[test]
fn text_without_expectation_is_failure() {
    let r = settle_text(None, 200, String::from("ok"));
    assert_eq!(r, Err((200, String::from("ok"))));
}
