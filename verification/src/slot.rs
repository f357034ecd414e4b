//! A one-place mailbox between a capture callback and the capturer.
use vstd::prelude::*;

verus! {

/// Holds at most one item: the one that was put in last and not yet taken.
pub struct Slot<T> {
    item: Option<T>,
}

impl<T> View for Slot<T> {
    type V = Option<T>;

    closed spec fn view(&self) -> Option<T> {
        self.item
    }
}

impl<T> Slot<T> {
    /// An empty slot.
    pub fn new() -> (slot: Self)
        ensures
            slot@ is None,
    {
        Slot { item: None }
    }

    /// Puts `item` in, dropping whatever was still waiting.
    pub fn put(&mut self, item: T)
        ensures
            final(self)@ == SlotUse::Put(item).applied_to(old(self)@),
    {
        self.item = Some(item);
    }

    /// Takes the waiting item out, if there is one.
    pub fn take(&mut self) -> (item: Option<T>)
        ensures
            item == old(self)@,
            final(self)@ == SlotUse::<T>::Take.applied_to(old(self)@),
    {
        self.item.take()
    }
}

/// One use of a slot.
pub enum SlotUse<T> {
    Put(T),
    Take,
}

impl<T> SlotUse<T> {
    /// What the slot holds after this use, if it held `before`.
    pub open spec fn applied_to(self, before: Option<T>) -> Option<T> {
        match self {
            SlotUse::Put(item) => Some(item),
            SlotUse::Take => None,
        }
    }
}

/// What a new slot holds after the given uses, first to last.
pub open spec fn held_after<T>(uses: Seq<SlotUse<T>>) -> Option<T>
    decreases uses.len(),
{
    if uses.len() == 0 {
        None
    } else {
        uses.last().applied_to(held_after(uses.drop_last()))
    }
}

/// A slot only ever offers the most recent item, and offers it once: whatever
/// its history, a take finds `item` exactly if the use just before it put
/// `item` in.
pub proof fn law_latest_item_once<T>(uses: Seq<SlotUse<T>>, item: T)
    ensures
        held_after(uses) == Some(item) <==> uses.len() > 0 && uses.last() == SlotUse::Put(item),
        held_after(uses) is None <==> uses.len() == 0 || uses.last() is Take,
{
}

} // verus!
