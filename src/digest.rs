//! The digest engine: an MD5 fingerprint of a byte stream fed in chunks.
use vstd::prelude::*;
use chksum::hash::md5::Update as Md5State;
use crate::hex::{lower_hex, to_lower_hex};

verus! {

#[verifier::external_type_specification]
#[verifier::external_body]
pub struct ExMd5State(chksum::hash::md5::Update);

/// The bytes that an MD5 state has absorbed since it was created.
pub uninterp spec fn md5_input(h: Md5State) -> Seq<u8>;

/// The 16 MD5 digest bytes of `data`.
pub uninterp spec fn md5_of(data: Seq<u8>) -> Seq<u8>;

/// The most bytes that one stream may carry: the state counts them in bits
/// within a `u64`.
pub const MAX_STREAM_LEN: u64 = 0x1fff_ffff_ffff_ffff;

/// Relies on chksum::hash::md5::new: a fresh state that has absorbed nothing.
#[verifier::external_body]
fn md5_new() -> (r: Md5State)
    ensures
        md5_input(r) == Seq::<u8>::empty(),
{
    chksum::hash::md5::new()
}

/// Relies on chksum::hash::md5::Update::update: the state absorbs `chunk` after
/// what it already holds.
#[verifier::external_body]
fn md5_update(h: Md5State, chunk: &[u8]) -> (r: Md5State)
    ensures
        md5_input(r) == md5_input(h) + chunk@,
{
    h.update(chunk)
}

/// Relies on chksum::hash::md5::Update::digest: the 16 digest bytes of what the
/// state absorbed. Its bit count must fit in a `u64`.
#[verifier::external_body]
fn md5_digest(h: &Md5State) -> (r: [u8; 16])
    requires
        md5_input(*h).len() <= MAX_STREAM_LEN,
    ensures
        r@ == md5_of(md5_input(*h)),
{
    h.digest().into()
}

/// The fingerprint of a byte stream: its MD5 digest as 32 lower-case hex digits.
pub open spec fn fingerprint_of(data: Seq<u8>) -> Seq<char> {
    lower_hex(md5_of(data))
}

/// Hashes a stream of bytes handed over in chunks of any size.
pub struct DigestEngine {
    state: Md5State,
}

impl View for DigestEngine {
    type V = Seq<u8>;

    /// The bytes fed so far, in order.
    closed spec fn view(&self) -> Seq<u8> {
        md5_input(self.state)
    }
}

impl DigestEngine {
    /// An engine that has been fed nothing.
    pub fn new() -> (r: Self)
        ensures
            r@ == Seq::<u8>::empty(),
    {
        DigestEngine { state: md5_new() }
    }

    /// Feeds the next chunk of the stream.
    pub fn update(self, chunk: &[u8]) -> (r: Self)
        ensures
            r@ == self@ + chunk@,
    {
        DigestEngine { state: md5_update(self.state, chunk) }
    }

    /// The fingerprint of every byte fed so far.
    pub fn fingerprint(&self) -> (r: String)
        requires
            self@.len() <= MAX_STREAM_LEN,
        ensures
            r@ == fingerprint_of(self@),
            r@.len() == 32,
    {
        let bytes = md5_digest(&self.state);
        to_lower_hex(&bytes)
    }
}

/// Feeding two chunks one after the other leaves an engine holding what
/// feeding their concatenation at once does; so however a stream is split into
/// chunks, the same bytes give the same fingerprint.
pub proof fn lemma_chunking_irrelevant(fed: Seq<u8>, a: Seq<u8>, b: Seq<u8>)
    ensures
        (fed + a) + b == fed + (a + b),
        fingerprint_of((fed + a) + b) == fingerprint_of(fed + (a + b)),
{
    assert((fed + a) + b =~= fed + (a + b));
}

} // verus!
