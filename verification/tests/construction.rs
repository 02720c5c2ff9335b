use nonce_hmac::hash::Blake2b;
use nonce_hmac::HMAC;

/// The construction written out over the hash function itself.
fn nested(nonce: &[u8], size: usize, key: &[u8], data: &[u8]) -> Vec<u8> {
    let mut inner_input = vec![0x36u8; 64];
    let mut outer_input = vec![0x5cu8; 64];
    for (i, byte) in key.iter().enumerate() {
        inner_input[i] ^= byte;
        outer_input[i] ^= byte;
    }
    inner_input.extend_from_slice(data);
    let inner = blake2_rfc::blake2b::blake2b(64, nonce, &inner_input);
    outer_input.extend_from_slice(inner.as_bytes());
    blake2_rfc::blake2b::blake2b(size, nonce, &outer_input)
        .as_bytes()
        .to_vec()
}

#[test]
fn plain_tag_is_the_nested_hash() {
    let tag = HMAC::<Blake2b>::new().result(b"secret key", b"some data");
    assert_eq!(tag, nested(&[], 64, b"secret key", b"some data"));
    assert_eq!(tag.len(), 64);
}

#[test]
fn empty_key_and_data() {
    let tag = HMAC::<Blake2b>::new().result(&[], &[]);
    assert_eq!(tag, nested(&[], 64, &[], &[]));
}

#[test]
fn nonce_binds_both_passes() {
    let mut mac = HMAC::<Blake2b>::new();
    mac.with_nonce(b"nonce");
    let tag = mac.result(b"k", b"d");
    assert_eq!(tag, nested(b"nonce", 64, b"k", b"d"));
}

#[test]
fn size_reaches_the_outer_pass_only() {
    let mut mac = HMAC::<Blake2b>::new();
    mac.with_size(24);
    let tag = mac.result(b"k", b"d");
    assert_eq!(tag, nested(&[], 24, b"k", b"d"));
    assert_eq!(tag.len(), 24);
}

#[test]
fn size_and_nonce_in_either_order() {
    let mut first = HMAC::<Blake2b>::new();
    first.with_size(16).with_nonce(&[1; 8]);
    let mut second = HMAC::<Blake2b>::new();
    second.with_nonce(&[1; 8]).with_size(16);
    let expected = nested(&[1; 8], 16, &[5; 16], b"payload");
    assert_eq!(first.result(&[5; 16], b"payload"), expected);
    assert_eq!(second.result(&[5; 16], b"payload"), expected);
}

#[test]
fn last_configuration_wins() {
    let mut mac = HMAC::<Blake2b>::new();
    mac.with_nonce(b"first").with_size(10);
    mac.with_nonce(b"second").with_size(48);
    assert_eq!(
        mac.result(b"k", b"d"),
        nested(b"second", 48, b"k", b"d")
    );
}

#[test]
fn empty_nonce_is_no_nonce() {
    let mut mac = HMAC::<Blake2b>::new();
    mac.with_nonce(&[]);
    assert_eq!(
        mac.result(b"k", b"d"),
        HMAC::<Blake2b>::new().result(b"k", b"d")
    );
}

#[test]
fn nonce_can_be_taken_back() {
    let mut mac = HMAC::<Blake2b>::new();
    mac.with_nonce(b"nonce").with_nonce(&[]);
    assert_eq!(mac.result(b"k", b"d"), nested(&[], 64, b"k", b"d"));
}

#[test]
fn longest_nonce_is_taken() {
    let mut mac = HMAC::<Blake2b>::new();
    mac.with_nonce(&[0xab; 64]);
    assert_eq!(
        mac.result(b"k", b"d"),
        nested(&[0xab; 64], 64, b"k", b"d")
    );
}

#[test]
fn every_size_is_respected() {
    for len in 1..=64usize {
        let mut mac = HMAC::<Blake2b>::new();
        mac.with_size(len);
        let tag = mac.result(&[7; 32], b"message");
        assert_eq!(tag.len(), len);
        assert_eq!(tag, nested(&[], len, &[7; 32], b"message"));
    }
}

#[test]
fn same_call_same_tag() {
    let mut mac = HMAC::<Blake2b>::new();
    mac.with_nonce(b"n").with_size(32);
    let once = mac.result(b"key", b"data");
    let twice = mac.result(b"key", b"data");
    assert_eq!(once, twice);
}

#[test]
fn same_configuration_same_tag() {
    let mut a = HMAC::<Blake2b>::new();
    a.with_nonce(b"n").with_size(32);
    let mut b = HMAC::<Blake2b>::new();
    b.with_size(32).with_nonce(b"n");
    assert_eq!(a.result(b"key", b"data"), b.result(b"key", b"data"));
}

#[test]
fn default_is_new() {
    let by_default: HMAC<Blake2b> = Default::default();
    assert_eq!(
        by_default.result(b"key", b"data"),
        HMAC::<Blake2b>::new().result(b"key", b"data")
    );
}

#[test]
fn clone_keeps_the_configuration() {
    let mut mac = HMAC::<Blake2b>::new();
    mac.with_nonce(b"n").with_size(20);
    let copy = mac.clone();
    assert_eq!(copy.result(b"key", b"data"), mac.result(b"key", b"data"));
}

#[test]
fn distinct_nonces_distinct_tags() {
    let mut one = HMAC::<Blake2b>::new();
    one.with_nonce(&[1; 8]);
    let mut two = HMAC::<Blake2b>::new();
    two.with_nonce(&[2; 8]);
    let plain = HMAC::<Blake2b>::new();
    let a = one.result(&[5; 16], b"data");
    let b = two.result(&[5; 16], b"data");
    let c = plain.result(&[5; 16], b"data");
    assert_ne!(a, b);
    assert_ne!(a, c);
    assert_ne!(b, c);
}

#[test]
fn distinct_keys_and_data_distinct_tags() {
    let mac = HMAC::<Blake2b>::new();
    let base = mac.result(b"key", b"data");
    assert_ne!(base, mac.result(b"kez", b"data"));
    assert_ne!(base, mac.result(b"key", b"datb"));
    assert_ne!(base, mac.result(b"keyd", b"ata"));
}

#[test]
fn long_data() {
    let data = vec![0x42u8; 10_000];
    let tag = HMAC::<Blake2b>::new().result(b"key", &data);
    assert_eq!(tag, nested(&[], 64, b"key", &data));
}
