//! The result slot: a write-once, read-many cell for a fingerprint.
use vstd::prelude::*;

verus! {

/// Why a publication into a slot was refused.
#[derive(Debug, PartialEq, Eq, Structural)]
pub enum SlotError {
    /// The slot already holds a fingerprint; it is never overwritten.
    AlreadyPublished,
}

/// Whether a publication into a slot in state `v` succeeds.
pub open spec fn publish_succeeds(v: Option<Seq<char>>) -> bool {
    v is None
}

/// The state of a slot in state `v` after `fp` is offered to it.
pub open spec fn after_publish(v: Option<Seq<char>>, fp: Seq<char>) -> Option<Seq<char>> {
    if publish_succeeds(v) {
        Some(fp)
    } else {
        v
    }
}

/// Holds no fingerprint until the first publication, then that one for good.
pub struct ResultSlot {
    value: Option<String>,
}

impl View for ResultSlot {
    type V = Option<Seq<char>>;

    closed spec fn view(&self) -> Option<Seq<char>> {
        match self.value {
            Some(s) => Some(s@),
            None => None,
        }
    }
}

impl ResultSlot {
    /// An empty slot.
    pub fn new() -> (r: Self)
        ensures
            r@ == None::<Seq<char>>,
    {
        ResultSlot { value: None }
    }

    /// The published fingerprint, or `None` while there is none.
    pub fn read(&self) -> (r: Option<String>)
        ensures
            r is None <==> self@ is None,
            r is Some ==> self@ == Some(r->0@),
    {
        match &self.value {
            Some(s) => Some(s.clone()),
            None => None,
        }
    }

    /// Whether a fingerprint has been published.
    pub fn is_published(&self) -> (r: bool)
        ensures
            r == (self@ is Some),
    {
        self.value.is_some()
    }

    /// Publishes `fp` if the slot is empty; an occupied slot refuses it and keeps
    /// what it holds.
    pub fn publish(&mut self, fp: String) -> (r: Result<(), SlotError>)
        ensures
            final(self)@ == after_publish(old(self)@, fp@),
            r is Ok <==> publish_succeeds(old(self)@),
            r is Err ==> r == Err::<(), SlotError>(SlotError::AlreadyPublished),
    {
        if self.value.is_some() {
            return Err(SlotError::AlreadyPublished);
        }
        self.value = Some(fp);
        Ok(())
    }
}

/// The state of a slot in state `v` after each of `fps` is offered to it, in order.
pub open spec fn after_publishing_all(v: Option<Seq<char>>, fps: Seq<Seq<char>>) -> Option<
    Seq<char>,
>
    decreases fps.len(),
{
    if fps.len() == 0 {
        v
    } else {
        after_publishing_all(after_publish(v, fps[0]), fps.drop_first())
    }
}

/// An occupied slot keeps its fingerprint whatever is offered to it later.
pub proof fn lemma_occupied_slot_keeps_value(fp: Seq<char>, later: Seq<Seq<char>>)
    ensures
        after_publishing_all(Some(fp), later) == Some(fp),
    decreases later.len(),
{
    if later.len() > 0 {
        lemma_occupied_slot_keeps_value(fp, later.drop_first());
    }
}

/// A slot is empty until written; the first publication into it succeeds and
/// fixes its value; each later publication is refused, and after any number of
/// them the slot still holds the first fingerprint, so every read sees it.
pub proof fn lemma_write_once(first: Seq<char>, later: Seq<Seq<char>>)
    ensures
        publish_succeeds(None),
        after_publish(None, first) == Some(first),
        !publish_succeeds(Some(first)),
        after_publishing_all(None, seq![first] + later) == Some(first),
{
    let all = seq![first] + later;
    assert(all[0] == first);
    assert(all.drop_first() =~= later);
    lemma_occupied_slot_keeps_value(first, later);
}

} // verus!
