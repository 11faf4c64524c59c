use adamantite::PipelineError;
use adamantite::verify;

const DATA: &[u8] = b"hello world\n";

#[test]
fn correct_digest_passes_at_4_bytes() {
    assert_eq!(verify("d39dba75", DATA), Ok(()));
}

#[test]
fn correct_digest_passes_at_8_bytes() {
    assert_eq!(verify("b7aa1f683e6b26b0", DATA), Ok(()));
}

#[test]
fn correct_digest_passes_at_32_bytes() {
    assert_eq!(
        verify("c71b05fd1d1c7bf7e928ff18e58db5193e9316416cc26ba9cc9094da80d7011e", DATA),
        Ok(())
    );
}

#[test]
fn correct_digest_passes_at_full_length() {
    let expected = "fec91c70284c72d0d4e3684788a90de9338a5b2f47f01fedbe203cafd68708718ae5672d10eca804a8121904047d40d1d6cf11e7a76419357a9469af41f22d01";
    assert_eq!(verify(expected, DATA), Ok(()));
}

#[test]
fn upper_case_digest_decodes_to_the_same_bytes() {
    assert_eq!(verify("D39DBA75", DATA), Ok(()));
}

#[test]
fn empty_buffer_has_a_digest_too() {
    assert_eq!(verify("1271cf25", b""), Ok(()));
}

#[test]
fn one_byte_digest_is_supported() {
    assert_eq!(verify("6b", b"abc"), Ok(()));
}

#[test]
fn mismatch_reports_expected_and_actual() {
    assert_eq!(
        verify("00000000", DATA),
        Err(PipelineError::ChecksumMismatch {
            expected: "00000000".to_string(),
            actual: "d39dba75".to_string(),
        })
    );
}

#[test]
fn non_hex_digest_is_rejected() {
    assert_eq!(verify("zz", DATA), Err(PipelineError::InvalidDigestEncoding));
}

#[test]
fn odd_length_digest_is_rejected() {
    assert_eq!(verify("d39", DATA), Err(PipelineError::InvalidDigestEncoding));
}

#[test]
fn verification_is_idempotent() {
    let first = verify("d39dba75", DATA);
    let second = verify("d39dba75", DATA);
    assert_eq!(first, second);
    let first_bad = verify("00000000", DATA);
    let second_bad = verify("00000000", DATA);
    assert_eq!(first_bad, second_bad);
}

#[test]
fn mismatch_message_names_both_digests() {
    let err = verify("00000000", DATA).unwrap_err();
    assert_eq!(
        err.message(),
        "!!! failed blake2b checksum (expected 00000000, got d39dba75) !!!"
    );
}

#[test]
fn single_byte_change_fails_verification() {
    let mut data = DATA.to_vec();
    data[0] ^= 0x01;
    assert_eq!(
        verify("d39dba75", &data),
        Err(PipelineError::ChecksumMismatch {
            expected: "d39dba75".to_string(),
            actual: "5d56a7d4".to_string(),
        })
    );
}
