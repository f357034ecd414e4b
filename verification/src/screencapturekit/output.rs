//! The delegate object that receives the frames of a stream.
use vstd::prelude::*;

use super::Handle;

verus! {

/// The name of the delegate class.
pub const CLASS_NAME: &'static str = "RentaMacSCKOutput";

/// The name of its superclass.
pub const SUPERCLASS_NAME: &'static str = "NSObject";

/// The name of the field that holds the address of the frame slot.
pub const SLOT_FIELD: &'static str = "rentamac_slot";

/// The selector of the method that is called for each frame.
pub const FRAME_SELECTOR: &'static str = "stream:didOutputSampleBuffer:ofType:";

/// The protocol of an object that takes the frames of a stream.
pub const OUTPUT_PROTOCOL: &'static str = "SCStreamOutput";

/// The protocol of an object that follows what becomes of a stream.
pub const DELEGATE_PROTOCOL: &'static str = "SCStreamDelegate";

/// One step in making a delegate object.
#[derive(Clone, Copy, Debug, PartialEq, Eq)]
pub enum ObjectStep {
    /// Declare a class.
    DeclareClass { name: &'static str, superclass: &'static str },
    /// Add a field that holds an address.
    AddSlotField { name: &'static str },
    /// Add the method that takes a frame.
    AddFrameMethod { selector: &'static str },
    /// Adopt a protocol.
    AdoptProtocol { name: &'static str },
    /// Register the declared class with the runtime.
    RegisterClass,
    /// Allocate an object of the class.
    Allocate,
    /// Send `init` to it.
    Initialise,
    /// Store this address in this field of it.
    StoreSlot { field: &'static str, slot: Handle },
}

/// Which of the protocols of a delegate the runtime knows.
#[derive(Clone, Copy, Debug, PartialEq, Eq, Structural)]
pub struct Protocols {
    pub output: bool,
    pub delegate: bool,
}

impl Protocols {
    /// Making the class: it adopts each protocol that is known.
    pub open spec fn class_steps(self) -> Seq<ObjectStep> {
        seq![
            ObjectStep::DeclareClass { name: CLASS_NAME, superclass: SUPERCLASS_NAME },
            ObjectStep::AddSlotField { name: SLOT_FIELD },
            ObjectStep::AddFrameMethod { selector: FRAME_SELECTOR },
        ] + (if self.output {
            seq![ObjectStep::AdoptProtocol { name: OUTPUT_PROTOCOL }]
        } else {
            seq![]
        }) + (if self.delegate {
            seq![ObjectStep::AdoptProtocol { name: DELEGATE_PROTOCOL }]
        } else {
            seq![]
        }) + seq![ObjectStep::RegisterClass]
    }
}

/// Making an object of the registered class.
pub open spec fn instance_steps(slot: Handle) -> Seq<ObjectStep> {
    seq![
        ObjectStep::Allocate,
        ObjectStep::Initialise,
        ObjectStep::StoreSlot { field: SLOT_FIELD, slot },
    ]
}

/// The delegate class of this process.
pub struct OutputClass {
    registered: bool,
}

impl View for OutputClass {
    type V = bool;

    /// Whether the class has been registered.
    closed spec fn view(&self) -> bool {
        self.registered
    }
}

/// The steps for one more object that is to hold `slot`: the class first, unless
/// it is `registered` already.
pub open spec fn object_steps(registered: bool, protocols: Protocols, slot: Handle) -> Seq<
    ObjectStep,
> {
    if registered {
        instance_steps(slot)
    } else {
        protocols.class_steps() + instance_steps(slot)
    }
}

impl OutputClass {
    /// A class that is still to be registered.
    pub fn new() -> (class: Self)
        ensures
            !class@,
    {
        OutputClass { registered: false }
    }

    /// The steps that make a delegate object for the frame slot at `slot`.
    pub fn create_output_object(&mut self, protocols: Protocols, slot: Handle) -> (steps: Vec<
        ObjectStep,
    >)
        ensures
            steps@ == object_steps(old(self)@, protocols, slot),
            final(self)@,
    {
        let mut steps: Vec<ObjectStep> = Vec::new();
        if !self.registered {
            steps.push(
                ObjectStep::DeclareClass { name: CLASS_NAME, superclass: SUPERCLASS_NAME },
            );
            steps.push(ObjectStep::AddSlotField { name: SLOT_FIELD });
            steps.push(ObjectStep::AddFrameMethod { selector: FRAME_SELECTOR });
            if protocols.output {
                steps.push(ObjectStep::AdoptProtocol { name: OUTPUT_PROTOCOL });
            }
            if protocols.delegate {
                steps.push(ObjectStep::AdoptProtocol { name: DELEGATE_PROTOCOL });
            }
            steps.push(ObjectStep::RegisterClass);
            self.registered = true;
            assert(steps@ =~= protocols.class_steps());
        }
        steps.push(ObjectStep::Allocate);
        steps.push(ObjectStep::Initialise);
        steps.push(ObjectStep::StoreSlot { field: SLOT_FIELD, slot });
        assert(steps@ =~= object_steps(old(self)@, protocols, slot));
        steps
    }
}

/// The steps that make one object after another, for each of `wanted`.
pub open spec fn steps_for_all(registered: bool, wanted: Seq<(Protocols, Handle)>) -> Seq<
    ObjectStep,
>
    decreases wanted.len(),
{
    if wanted.len() == 0 {
        seq![]
    } else {
        object_steps(registered, wanted.first().0, wanted.first().1) + steps_for_all(
            true,
            wanted.drop_first(),
        )
    }
}

/// However many objects are made, the class is declared exactly once, in the very
/// first step, and registered exactly once, in the last step before the first
/// object is allocated.
pub proof fn law_class_is_registered_once(wanted: Seq<(Protocols, Handle)>, i: int)
    requires
        0 <= i < steps_for_all(false, wanted).len(),
    ensures
        ({
            let steps = steps_for_all(false, wanted);
            let class_len = wanted[0].0.class_steps().len();
            &&& steps[i] is DeclareClass <==> i == 0
            &&& steps[i] is RegisterClass <==> i == class_len - 1
            &&& class_len < steps.len() && steps[class_len as int] is Allocate
        }),
{
    let class_steps = wanted[0].0.class_steps();
    let first = object_steps(false, wanted[0].0, wanted[0].1);
    let later = steps_for_all(true, wanted.drop_first());
    let steps = steps_for_all(false, wanted);
    assert(steps == first + later);
    assert(first[class_steps.len() as int] is Allocate);
    lemma_registered_class_stays(wanted.drop_first());
    if i < class_steps.len() {
        assert(steps[i] == class_steps[i]);
    } else if i < first.len() {
        assert(steps[i] == instance_steps(wanted[0].1)[i - class_steps.len()]);
    } else {
        assert(steps[i] == later[i - first.len()]);
    }
}

/// Once the class is registered no step touches it again.
proof fn lemma_registered_class_stays(wanted: Seq<(Protocols, Handle)>)
    ensures
        forall|i: int|
            0 <= i < steps_for_all(true, wanted).len() ==> {
                let step = #[trigger] steps_for_all(true, wanted)[i];
                step is Allocate || step is Initialise || step is StoreSlot
            },
    decreases wanted.len(),
{
    if wanted.len() > 0 {
        let head = instance_steps(wanted.first().1);
        let tail = steps_for_all(true, wanted.drop_first());
        lemma_registered_class_stays(wanted.drop_first());
        assert forall|i: int| 0 <= i < (head + tail).len() implies {
            let step = #[trigger] (head + tail)[i];
            step is Allocate || step is Initialise || step is StoreSlot
        } by {
            if i >= head.len() {
                assert((head + tail)[i] == tail[i - head.len()]);
            }
        }
    }
}

/// What a delegate class is made of: an object of the system's root class with one
/// field, for the slot, and one method, for frames, under the names that the runtime
/// and the callback know them by; it adopts each of the two protocols exactly if the
/// runtime knows it, and is registered last.
pub proof fn law_class_is_made_for_its_callback(protocols: Protocols)
    ensures
        ({
            let steps = protocols.class_steps();
            let output: int = if protocols.output {
                1
            } else {
                0
            };
            let delegate: int = if protocols.delegate {
                1
            } else {
                0
            };
            &&& steps.len() == 4 + output + delegate
            &&& steps[0] matches ObjectStep::DeclareClass { name, superclass }
            &&& name@ == "RentaMacSCKOutput"@
            &&& superclass@ == "NSObject"@
            &&& steps[1] matches ObjectStep::AddSlotField { name: field }
            &&& field@ == "rentamac_slot"@
            &&& steps[2] matches ObjectStep::AddFrameMethod { selector }
            &&& selector@ == "stream:didOutputSampleBuffer:ofType:"@
            &&& protocols.output ==> (steps[3] matches ObjectStep::AdoptProtocol { name: p } && p@
                == "SCStreamOutput"@)
            &&& protocols.delegate ==> (steps[3 + output] matches ObjectStep::AdoptProtocol {
                name: p,
            } && p@ == "SCStreamDelegate"@)
            &&& steps.last() is RegisterClass
        }),
{
}

/// An object of the class is allocated, initialised and given its slot, in this order,
/// and nothing else is done to it; the slot goes into the field that the callback
/// reads. Before the first object, and only then, the class is made.
pub proof fn law_object_is_given_its_slot(registered: bool, protocols: Protocols, slot: Handle)
    ensures
        ({
            let steps = object_steps(registered, protocols, slot);
            let class_len: int = if registered {
                0
            } else {
                protocols.class_steps().len() as int
            };
            &&& steps.len() == class_len + 3
            &&& steps.take(class_len) == (if registered {
                seq![]
            } else {
                protocols.class_steps()
            })
            &&& steps[class_len] is Allocate
            &&& steps[class_len + 1] is Initialise
            &&& steps[class_len + 2] matches ObjectStep::StoreSlot { field, slot: stored }
            &&& field@ == "rentamac_slot"@
            &&& stored == slot
        }),
{
}

} // verus!
