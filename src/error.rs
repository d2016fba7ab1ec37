use vstd::prelude::*;

verus! {

/// The logical field or pointer hop that a foreign read was for.
#[derive(Debug, Clone, Copy, PartialEq, Eq, Structural)]
pub enum Field {
    ClassPointer,
    StaticsPointer,
    InstancePointer,
    InternalState,
    TaskOverview,
    MeetingState,
    ListBacking,
    ListCount,
    ListItems,
    ListElement,
    PlayerRecord,
    StringLength,
    StringPayload,
}

/// Every way an introspection of the foreign process can fail.
#[derive(Debug, Clone, Copy, PartialEq, Eq, Structural)]
pub enum Error {
    /// Opening the foreign process for reading failed with this OS code.
    OpenProcessError(u32),
    /// Enumerating the foreign process's modules failed with this OS code.
    EnumModuleError(u32),
    /// No loaded module carries the scripting runtime's name.
    MissingGaError,
    /// A foreign read returned fewer bytes than it asked for.
    ReadError { code: u32, copied: usize, field: Field, address: u32, wanted: u64 },
    /// A foreign enum-like field held a value outside its known set.
    InvalidDiscriminant(Field, u32),
    /// A foreign string's UTF-16 payload was not well formed.
    TextDecodeError,
    /// A foreign list reported an implausible element count.
    ListCountInvalid(u32),
}

} // verus!
