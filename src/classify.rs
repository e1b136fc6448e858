//! The known-issue classifier: exact membership in a fixed set of fingerprints.
use vstd::prelude::*;
use vstd::string::StringSliceAdditionalSpecFns;
use vstd::utf8::encode_utf8_decode_utf8;

verus! {

/// How many fingerprints are known to cause desynchronisation.
pub const KNOWN_ISSUE_COUNT: usize = 4;

/// The fingerprints of game images known to cause desynchronisation.
pub open spec fn known_issues() -> Seq<Seq<char>> {
    seq![
        "23d6baef06bd65989585096915da20f2"@,
        "27a5668769a54cd3515af47b8d9982f3"@,
        "5805fa9f1407aedc8804d0472346fc5f"@,
        "9bb3e275e77bb1a160276f2330f93931"@,
    ]
}

/// Whether `fp` is, character for character, one of the known fingerprints.
pub open spec fn is_known_issue(fp: Seq<char>) -> bool {
    known_issues().contains(fp)
}

/// The known fingerprint at position `i`.
pub fn known_issue(i: usize) -> (r: &'static str)
    requires
        i < KNOWN_ISSUE_COUNT,
    ensures
        r@ == known_issues()[i as int],
{
    match i {
        0 => "23d6baef06bd65989585096915da20f2",
        1 => "27a5668769a54cd3515af47b8d9982f3",
        2 => "5805fa9f1407aedc8804d0472346fc5f",
        _ => "9bb3e275e77bb1a160276f2330f93931",
    }
}

/// Exact equality of two strings, compared byte by byte.
fn same_text(a: &str, b: &str) -> (r: bool)
    ensures
        r == (a@ == b@),
{
    let x = a.as_bytes();
    let y = b.as_bytes();
    proof {
        encode_utf8_decode_utf8(a@);
        encode_utf8_decode_utf8(b@);
    }
    if x.len() != y.len() {
        return false;
    }
    let mut i: usize = 0;
    while i < x.len()
        invariant
            x@ == a.spec_bytes(),
            y@ == b.spec_bytes(),
            x@.len() == y@.len(),
            i <= x@.len(),
            forall|j: int| 0 <= j < i ==> x@[j] == y@[j],
        decreases x@.len() - i,
    {
        if x[i] != y[i] {
            return false;
        }
        i = i + 1;
    }
    assert(x@ =~= y@);
    true
}

/// Whether `fp` is one of the fingerprints known to cause desynchronisation.
pub fn classify(fp: &str) -> (r: bool)
    ensures
        r == is_known_issue(fp@),
{
    let mut i: usize = 0;
    while i < KNOWN_ISSUE_COUNT
        invariant
            i <= KNOWN_ISSUE_COUNT,
            forall|j: int| 0 <= j < i ==> known_issues()[j] != fp@,
        decreases KNOWN_ISSUE_COUNT - i,
    {
        if same_text(known_issue(i), fp) {
            assert(known_issues()[i as int] == fp@);
            return true;
        }
        i = i + 1;
    }
    assert(!known_issues().contains(fp@));
    false
}

} // verus!
