use iso_hasher::digest::DigestEngine;
use iso_hasher::hex::to_lower_hex;

fn fingerprint_in_chunks(data: &[u8], size: usize) -> String {
    let mut engine = DigestEngine::new();
    for chunk in data.chunks(size) {
        engine = engine.update(chunk);
    }
    engine.fingerprint()
}

fn sample(len: usize) -> Vec<u8> {
    (0..len).map(|i| (i * 31 + 7) as u8).collect()
}

#[test]
fn hex_renders_two_lower_case_digits_per_byte() {
    assert_eq!(to_lower_hex(&[0x00, 0x0f, 0xa5, 0xff, 0x10]), "000fa5ff10");
}

#[test]
fn hex_of_no_bytes_is_empty() {
    assert_eq!(to_lower_hex(&[]), "");
}

#[test]
fn fingerprint_of_empty_stream() {
    assert_eq!(DigestEngine::new().fingerprint(), "d41d8cd98f00b204e9800998ecf8427e");
}

#[test]
fn fingerprint_of_abc() {
    let fp = DigestEngine::new().update(b"abc").fingerprint();
    assert_eq!(fp, "900150983cd24fb0d6963f7d28e17f72");
}

#[test]
fn fingerprint_of_sentence_in_pieces() {
    let fp = DigestEngine::new()
        .update(b"The quick brown ")
        .update(b"")
        .update(b"fox jumps over the lazy dog")
        .fingerprint();
    assert_eq!(fp, "9e107d9d372bb6826bd81d3542a419d6");
}

#[test]
fn fingerprint_has_thirty_two_lower_case_hex_digits() {
    let fp = fingerprint_in_chunks(&sample(777), 50);
    assert_eq!(fp.len(), 32);
    assert!(fp.chars().all(|c| c.is_ascii_digit() || ('a'..='f').contains(&c)));
}

#[test]
fn chunk_size_does_not_change_fingerprint() {
    let data = sample(5000);
    let whole = fingerprint_in_chunks(&data, data.len());
    for size in [1usize, 3, 63, 64, 65, 128, 1000, 4096] {
        assert_eq!(fingerprint_in_chunks(&data, size), whole);
    }
}

#[test]
fn same_bytes_give_same_fingerprint_each_time() {
    let data = sample(3000);
    let first = fingerprint_in_chunks(&data, 512);
    let second = fingerprint_in_chunks(&data.clone(), 512);
    assert_eq!(first, second);
}

#[test]
fn different_bytes_give_different_fingerprints() {
    let a = sample(100);
    let mut b = a.clone();
    b[50] ^= 1;
    assert_ne!(fingerprint_in_chunks(&a, 10), fingerprint_in_chunks(&b, 10));
}
