//! The verification task: from the outcome of hashing to signals and a
//! publication.
use vstd::prelude::*;
use crate::classify::{classify, is_known_issue};
use crate::slot::{after_publish, publish_succeeds, ResultSlot, SlotError};

verus! {

/// Why the game image could not be hashed.
#[derive(Debug, Clone, Copy, PartialEq, Eq, Structural)]
pub enum IoFailure {
    /// The file could not be opened.
    Open,
    /// Reading the file failed part way.
    Read,
}

/// Why a verification task did not publish.
#[derive(Debug, PartialEq, Eq, Structural)]
pub enum TaskError {
    /// Hashing failed; nothing was classified, signalled or published.
    Io(IoFailure),
    /// The slot already held a fingerprint: a second task ran against it.
    AlreadyPublished,
}

/// A diagnostic raised by the task.
#[derive(Debug)]
pub enum Signal {
    /// The fingerprint of the image was computed.
    FingerprintComputed(String),
    /// The fingerprint is known to cause desynchronisation.
    DesyncWarning,
}

/// What a signal carries, as plain values.
pub enum SignalView {
    FingerprintComputed(Seq<char>),
    DesyncWarning,
}

impl View for Signal {
    type V = SignalView;

    open spec fn view(&self) -> SignalView {
        match self {
            Signal::FingerprintComputed(s) => SignalView::FingerprintComputed(s@),
            Signal::DesyncWarning => SignalView::DesyncWarning,
        }
    }
}

/// The views of a sequence of signals.
pub open spec fn signal_views(s: Seq<Signal>) -> Seq<SignalView> {
    s.map_values(|x: Signal| x@)
}

/// The signals raised for fingerprint `fp`, in order: the fingerprint itself,
/// then a warning if it is a known issue.
pub open spec fn signals_for(fp: Seq<char>) -> Seq<SignalView> {
    if is_known_issue(fp) {
        seq![SignalView::FingerprintComputed(fp), SignalView::DesyncWarning]
    } else {
        seq![SignalView::FingerprintComputed(fp)]
    }
}

/// Finishes a verification task once hashing is over: on a fingerprint, raises
/// its signals into `signals`, then publishes it into `slot`. On a hashing
/// failure nothing is raised or published.
pub fn run(
    hashed: Result<String, IoFailure>,
    slot: &mut ResultSlot,
    signals: &mut Vec<Signal>,
) -> (r: Result<(), TaskError>)
    ensures
        match hashed {
            Err(e) => {
                &&& r == Err::<(), TaskError>(TaskError::Io(e))
                &&& final(slot)@ == old(slot)@
                &&& final(signals)@ == old(signals)@
            },
            Ok(fp) => {
                &&& signal_views(final(signals)@) == signal_views(old(signals)@) + signals_for(fp@)
                &&& final(slot)@ == after_publish(old(slot)@, fp@)
                &&& (r is Ok <==> publish_succeeds(old(slot)@))
                &&& (r is Err ==> r == Err::<(), TaskError>(TaskError::AlreadyPublished))
            },
        },
{
    let fp = match hashed {
        Err(e) => {
            return Err(TaskError::Io(e));
        },
        Ok(fp) => fp,
    };
    let ghost before = signal_views(signals@);
    let known = classify(fp.as_str());
    signals.push(Signal::FingerprintComputed(fp.clone()));
    if known {
        signals.push(Signal::DesyncWarning);
    }
    assert(signal_views(signals@) =~= before + signals_for(fp@));
    match slot.publish(fp) {
        Ok(()) => Ok(()),
        Err(SlotError::AlreadyPublished) => Err(TaskError::AlreadyPublished),
    }
}

/// For a known-bad fingerprint and an empty slot, a task raises the
/// fingerprint signal once and the warning once, the fingerprint first, and its
/// publication succeeds and leaves the slot holding that fingerprint.
pub proof fn lemma_known_issue_end_to_end(fp: Seq<char>)
    requires
        is_known_issue(fp),
    ensures
        signals_for(fp) == seq![SignalView::FingerprintComputed(fp), SignalView::DesyncWarning],
        publish_succeeds(None),
        after_publish(None, fp) == Some(fp),
{
}

} // verus!
