use iso_hasher::classify::{classify, known_issue, KNOWN_ISSUE_COUNT};

#[test]
fn known_test_fingerprint_is_classified() {
    assert!(classify("23d6baef06bd65989585096915da20f2"));
}

#[test]
fn every_known_fingerprint_is_classified() {
    for i in 0..KNOWN_ISSUE_COUNT {
        assert!(classify(known_issue(i)));
    }
    assert!(classify("27a5668769a54cd3515af47b8d9982f3"));
    assert!(classify("5805fa9f1407aedc8804d0472346fc5f"));
    assert!(classify("9bb3e275e77bb1a160276f2330f93931"));
}

#[test]
fn all_zero_fingerprint_is_not_classified() {
    assert!(!classify("00000000000000000000000000000000"));
}

#[test]
fn unknown_fingerprint_is_not_classified() {
    assert!(!classify("deadbeefdeadbeefdeadbeefdeadbeef"));
}

#[test]
fn near_matches_are_not_classified() {
    assert!(!classify("23D6BAEF06BD65989585096915DA20F2"));
    assert!(!classify("23d6baef06bd65989585096915da20f"));
    assert!(!classify("23d6baef06bd65989585096915da20f20"));
    assert!(!classify("23d6baef06bd65989585096915da20f3"));
    assert!(!classify(""));
}
