use proto_conformance::message::ResponseResult;
use proto_conformance::roundtrip::{
    check_encoded_len, mismatch, unparsed_original, unparsed_roundtrip,
};

#[test]
fn unparsed_original_carries_the_detail() {
    assert_eq!(
        unparsed_original("buffer underflow"),
        ResponseResult::ParseError(String::from("failed to parse TestAllTypes: buffer underflow"))
    );
    assert_eq!(
        unparsed_original(""),
        ResponseResult::ParseError(String::from("failed to parse TestAllTypes: "))
    );
}

#[test]
fn unparsed_roundtrip_carries_the_detail() {
    assert_eq!(
        unparsed_roundtrip("invalid tag"),
        ResponseResult::ParseError(String::from(
            "failed to parse roundtrip TestAllTypes: invalid tag"
        ))
    );
}

#[test]
fn equal_lengths_pass() {
    assert_eq!(check_encoded_len(0, 0), None);
    assert_eq!(check_encoded_len(17, 17), None);
    assert_eq!(check_encoded_len(usize::MAX, usize::MAX), None);
}

#[test]
fn unequal_lengths_are_a_runtime_error_naming_both() {
    assert_eq!(
        check_encoded_len(5, 3),
        Some(ResponseResult::RuntimeError(String::from(
            "encoded length does not match actual; encoded_len: 5, buf len: 3"
        )))
    );
    assert_eq!(
        check_encoded_len(0, 1200),
        Some(ResponseResult::RuntimeError(String::from(
            "encoded length does not match actual; encoded_len: 0, buf len: 1200"
        )))
    );
    assert_eq!(
        check_encoded_len(1001, 1000),
        Some(ResponseResult::RuntimeError(format!(
            "encoded length does not match actual; encoded_len: {}, buf len: {}",
            1001, 1000
        )))
    );
}

#[test]
fn mismatch_shows_both_messages() {
    assert_eq!(
        mismatch("TestAllTypes { a: 1 }", "TestAllTypes { a: 2 }"),
        ResponseResult::RuntimeError(String::from(
            "roundtrip value does not match original;\n\t original: TestAllTypes { a: 1 }\n\troundtrip: TestAllTypes { a: 2 }"
        ))
    );
    assert_eq!(
        mismatch("x", "y"),
        ResponseResult::RuntimeError(format!(
            "roundtrip value does not match original;\n\t original: {}\n\troundtrip: {}",
            "x", "y"
        ))
    );
}
