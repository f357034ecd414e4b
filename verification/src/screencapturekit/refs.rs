//! Reference counting: what the capturer does to Objective-C objects and to the
//! shared frame slot, and a ledger of the references that it still owns.
use vstd::multiset::Multiset;
use vstd::prelude::*;

use super::ffi::CMTime;
use super::Handle;

verus! {

/// The settings of an `SCStreamConfiguration`.
#[derive(Clone, Copy, Debug, PartialEq, Eq, Structural)]
pub struct StreamConfig {
    pub width: isize,
    pub height: isize,
    pub pixel_format: u32,
    pub queue_depth: isize,
    /// A `BOOL`: 0 or 1.
    pub shows_cursor: i8,
    pub minimum_frame_interval: CMTime,
}

/// Something to do at once, without a reply.
#[derive(Clone, Copy, Debug, PartialEq, Eq, Structural)]
pub enum Effect {
    /// Send `retain` to the object.
    Retain(Handle),
    /// Send `release` to the object.
    Release(Handle),
    /// Give the delegate's reference to the frame slot back.
    ReclaimSlot(Handle),
    /// Fill in the stream configuration object.
    Configure { config: Handle, settings: StreamConfig },
}

/// One counted reference.
pub enum Reference {
    /// To the Objective-C object at this address.
    Object(Handle),
    /// To the frame slot at this address.
    FrameSlot(Handle),
}

/// The reference that goes with an object pointer: none for nil.
pub open spec fn object_ref(object: Handle) -> Multiset<Reference> {
    if object == 0 {
        Multiset::empty()
    } else {
        Multiset::singleton(Reference::Object(object))
    }
}

/// The reference that goes with a frame slot pointer.
pub open spec fn slot_ref(slot: Handle) -> Multiset<Reference> {
    if slot == 0 {
        Multiset::empty()
    } else {
        Multiset::singleton(Reference::FrameSlot(slot))
    }
}

impl Effect {
    /// The references that this effect takes.
    pub open spec fn taken(self) -> Multiset<Reference> {
        match self {
            Effect::Retain(object) => object_ref(object),
            _ => Multiset::empty(),
        }
    }

    /// The references that this effect gives up.
    pub open spec fn given_up(self) -> Multiset<Reference> {
        match self {
            Effect::Release(object) => object_ref(object),
            Effect::ReclaimSlot(slot) => slot_ref(slot),
            _ => Multiset::empty(),
        }
    }
}

/// The references still owned after `effects`, first to last, by someone who
/// owned `owned` before.
pub open spec fn owned_after(effects: Seq<Effect>, owned: Multiset<Reference>) -> Multiset<
    Reference,
>
    decreases effects.len(),
{
    if effects.len() == 0 {
        owned
    } else {
        owned_after(
            effects.drop_first(),
            owned.sub(effects.first().given_up()).add(effects.first().taken()),
        )
    }
}

/// No effect gives up a reference that is not owned at that point.
pub open spec fn only_gives_up_owned(effects: Seq<Effect>, owned: Multiset<Reference>) -> bool
    decreases effects.len(),
{
    effects.len() > 0 ==> {
        &&& effects.first().given_up().subset_of(owned)
        &&& only_gives_up_owned(
            effects.drop_first(),
            owned.sub(effects.first().given_up()).add(effects.first().taken()),
        )
    }
}

} // verus!
