use vstd::prelude::*;
use crate::reader::ClassDescriptor;

verus! {

/// The foreign classes whose singleton instance the snapshot needs.
#[derive(Debug, Clone, Copy, PartialEq, Eq, Structural)]
pub enum ClassId {
    ClientState,
    PlayerManager,
    MeetingScreen,
}

/// The statics block's offset within every class of the foreign runtime.
pub const STATICS_OFFSET: u32 = 0x5C;

/// The instance pointer's offset within a statics block.
pub const INSTANCE_OFFSET: u32 = 0x00;

/// The offsets of one build of the foreign binary, per class.
pub open spec fn descriptor_spec(id: ClassId) -> ClassDescriptor {
    let class_offset: u32 = match id {
        ClassId::ClientState => 0x028E98F4,
        ClassId::PlayerManager => 0x0290551C,
        ClassId::MeetingScreen => 0x028E25A8,
    };
    ClassDescriptor { class_offset, statics_offset: STATICS_OFFSET, instance_offset: INSTANCE_OFFSET }
}

/// Looks up where the instance of class `id` is found.
pub fn descriptor(id: ClassId) -> (r: ClassDescriptor)
    ensures
        r == descriptor_spec(id),
{
    let class_offset: u32 = match id {
        ClassId::ClientState => 0x028E98F4,
        ClassId::PlayerManager => 0x0290551C,
        ClassId::MeetingScreen => 0x028E25A8,
    };
    ClassDescriptor { class_offset, statics_offset: STATICS_OFFSET, instance_offset: INSTANCE_OFFSET }
}

} // verus!
