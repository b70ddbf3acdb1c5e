use dawn_host::integrity::{IntegrityCheck, IntegrityError, check_digest, parse_digest};

// SHA-256("abc") = ba7816bf8f01cfea414140de5dae2223b00361a396177a9cb410ff61f20015ad
const ABC_DIGEST: &str = "ba7816bf8f01cfea414140de5dae2223b00361a396177a9cb410ff61f20015ad";

// SHA-256("") = e3b0c44298fc1c149afbf4c8996fb92427ae41e4649b934ca495991b7852b855
const EMPTY_DIGEST: &str = "e3b0c44298fc1c149afbf4c8996fb92427ae41e4649b934ca495991b7852b855";

#[test]
fn streamed_digest_matches_published_digest() {
    let mut check = IntegrityCheck::begin();
    check.feed(b"a");
    check.feed(b"bc");
    let text = format!("{}  project-dawn-server\n", ABC_DIGEST);
    assert_eq!(check.conclude(text.as_bytes()), Ok(()));
}

#[test]
fn digest_of_empty_stream() {
    let check = IntegrityCheck::begin();
    assert_eq!(check.conclude(EMPTY_DIGEST.as_bytes()), Ok(()));
}

#[test]
fn differing_content_is_a_mismatch() {
    let mut check = IntegrityCheck::begin();
    check.feed(b"abd");
    let text = format!("{}\n", ABC_DIGEST);
    assert_eq!(
        check.conclude(text.as_bytes()),
        Err(IntegrityError::DigestMismatch)
    );
}

#[test]
fn empty_stream_against_abc_digest_is_a_mismatch() {
    let check = IntegrityCheck::begin();
    assert_eq!(
        check.conclude(ABC_DIGEST.as_bytes()),
        Err(IntegrityError::DigestMismatch)
    );
}

#[test]
fn trailing_tokens_are_ignored() {
    let with_name = format!("{}  some-file.bin extra tokens", ABC_DIGEST);
    let bare = ABC_DIGEST.to_string();
    assert_eq!(
        parse_digest(with_name.as_bytes()),
        parse_digest(bare.as_bytes())
    );
}

#[test]
fn parse_digest_decodes_first_token() {
    let r = parse_digest(b"  deadBEEF  project-dawn-server\n").unwrap();
    assert_eq!(r, vec![0xde, 0xad, 0xbe, 0xef]);
}

#[test]
fn empty_digest_file_is_malformed() {
    assert_eq!(parse_digest(b""), Err(IntegrityError::DigestMalformed));
    assert_eq!(parse_digest(b" \t\n"), Err(IntegrityError::DigestMalformed));
}

#[test]
fn non_hex_digest_is_malformed() {
    assert_eq!(parse_digest(b"zz"), Err(IntegrityError::DigestMalformed));
    assert_eq!(
        parse_digest(b"abc"),
        Err(IntegrityError::DigestMalformed),
        "odd-length hex must be rejected"
    );
}

#[test]
fn check_digest_compares_byte_for_byte() {
    assert_eq!(check_digest(&[0xde, 0xad], b"dead"), Ok(()));
    assert_eq!(
        check_digest(&[0xde, 0xad], b"beef"),
        Err(IntegrityError::DigestMismatch)
    );
    assert_eq!(
        check_digest(&[0xde, 0xad], b"not-hex"),
        Err(IntegrityError::DigestMalformed)
    );
}

#[test]
fn failure_reasons_are_distinct() {
    let msgs = [
        IntegrityError::ExecutableMissing.describe(),
        IntegrityError::DigestFileMissing.describe(),
        IntegrityError::DigestMalformed.describe(),
        IntegrityError::DigestMismatch.describe(),
    ];
    assert_eq!(msgs[0], "sidecar executable not found");
    assert_eq!(msgs[1], "sidecar checksum not found");
    assert_eq!(msgs[2], "invalid checksum format");
    assert_eq!(msgs[3], "sidecar checksum mismatch");
    for i in 0..msgs.len() {
        for j in 0..i {
            assert_ne!(msgs[i], msgs[j]);
        }
    }
}
