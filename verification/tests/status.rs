use webview2_callback::status::{Failure, StatusCode};

const E_FAIL: i32 = -2147467259;
const E_ABORT: i32 = -2147467260;
const S_FALSE: i32 = 1;

fn failure(code: i32) -> Failure {
    match Failure::new(code) {
        Some(failure) => failure,
        None => panic!("{} is no failure code", code),
    }
}

#[test]
fn success_codes_decode_to_ok() {
    assert_eq!(StatusCode(0).ok(), Ok(()));
    assert_eq!(StatusCode(S_FALSE).ok(), Ok(()));
    assert_eq!(StatusCode(i32::MAX).ok(), Ok(()));
}

#[test]
fn failure_codes_decode_to_the_failure_with_that_code() {
    let codes: [i32; 4] = [-1, E_FAIL, E_ABORT, i32::MIN];
    for code in codes {
        match StatusCode(code).ok() {
            Ok(()) => panic!("{} decoded to success", code),
            Err(failure) => assert_eq!(failure.code(), code),
        }
    }
}

#[test]
fn decoding_tells_failures_apart() {
    assert_eq!(StatusCode(E_FAIL).ok(), Err(failure(E_FAIL)));
    assert_ne!(StatusCode(E_FAIL).ok(), Err(failure(E_ABORT)));
    assert_ne!(StatusCode(E_FAIL).ok(), Ok(()));
}

#[test]
fn only_failure_codes_make_a_failure() {
    assert!(Failure::new(0).is_none());
    assert!(Failure::new(S_FALSE).is_none());
    assert!(Failure::new(i32::MAX).is_none());
    assert_eq!(Failure::new(-1).map(|f| f.code()), Some(-1));
    assert_eq!(Failure::new(i32::MIN).map(|f| f.code()), Some(i32::MIN));
    assert_eq!(Failure::new(E_FAIL).map(|f| f.code()), Some(E_FAIL));
}

#[test]
fn success_encodes_to_zero() {
    assert_eq!(StatusCode::from_result(Ok(())), StatusCode(0));
    assert_eq!(StatusCode::success(), StatusCode(0));
}

#[test]
fn failure_encodes_to_its_code() {
    let codes: [i32; 4] = [-1, E_FAIL, E_ABORT, i32::MIN];
    for code in codes {
        assert_eq!(StatusCode::from_result(Err(failure(code))), StatusCode(code));
    }
}

#[test]
fn failure_code_survives_decoding_and_encoding() {
    let codes: [i32; 4] = [-1, E_FAIL, E_ABORT, i32::MIN];
    for code in codes {
        assert_eq!(StatusCode::from_result(StatusCode(code).ok()), StatusCode(code));
    }
}

#[test]
fn success_code_comes_back_as_zero() {
    let codes: [i32; 4] = [0, S_FALSE, 0x535F4F4B, i32::MAX];
    for code in codes {
        assert_eq!(StatusCode::from_result(StatusCode(code).ok()), StatusCode(0));
    }
}

#[test]
fn decoding_is_idempotent_through_encoding() {
    let codes: [i32; 9] = [i32::MIN, E_ABORT, E_FAIL, -2, -1, 0, S_FALSE, 0x535F4F4B, i32::MAX];
    for code in codes {
        let once = StatusCode(code).ok();
        let again = StatusCode::from_result(once).ok();
        assert_eq!(again, once);
    }
}

#[test]
fn encoding_is_the_inverse_of_decoding_on_results() {
    let results: [Result<(), Failure>; 4] =
        [Ok(()), Err(failure(-1)), Err(failure(E_FAIL)), Err(failure(i32::MIN))];
    for result in results {
        assert_eq!(StatusCode::from_result(result).ok(), result);
    }
}
