//! Properties that hold of every foreign memory image.

use vstd::prelude::*;
use crate::error::{Error, Field};
use crate::memory::{available, overflow_error, read_u32_spec, window_overflows, Region, PARTIAL_COPY};
use crate::reader::{
    is_high_surrogate, is_low_surrogate, list_spec, record_spec, resolve_spec, string_spec,
    units_of, utf16_well_formed, ClassDescriptor, ListOffsets, RecordLayout, MAX_LIST_LEN,
};
use crate::game::{internal_state_of, meeting_spec, meeting_state_of, MeetingState, MEETING_STATE_OFFSET};

verus! {

/// `e` is a read failure reported for `f`.
pub open spec fn is_read_error_for(e: Error, f: Field) -> bool {
    match e {
        Error::ReadError { field, .. } => field == f,
        _ => false,
    }
}

/// The unit at `i` is a surrogate without its partner.
pub open spec fn unpaired_at(s: Seq<u16>, i: int) -> bool {
    ||| is_low_surrogate(s[i]) && (i == 0 || !is_high_surrogate(s[i - 1]))
    ||| is_high_surrogate(s[i]) && (i + 1 == s.len() || !is_low_surrogate(s[i + 1]))
}

/// When every hop of a chain reads, resolution yields the pointer stored in
/// the statics block; when a hop cannot be read, or its four bytes do not lie
/// wholly inside the 32-bit address space, resolution fails with a read error
/// that names that hop.
pub proof fn law_resolve_chain(m: Seq<Region>, base: u32, d: ClassDescriptor, class: u32, statics: u32, instance: u32)
    ensures
        window_overflows(base, d.class_offset, 4) ==> resolve_spec(m, base, d) == Err::<u32, Error>(overflow_error(base, 4, Field::ClassPointer)),
        read_u32_spec(m, base, d.class_offset, Field::ClassPointer) is Err ==> (resolve_spec(m, base, d) matches Err(e)
            && is_read_error_for(e, Field::ClassPointer)),
        read_u32_spec(m, base, d.class_offset, Field::ClassPointer) == Ok::<u32, Error>(class) ==> {
            &&& window_overflows(class, d.statics_offset, 4) ==> resolve_spec(m, base, d) == Err::<u32, Error>(overflow_error(class, 4, Field::StaticsPointer))
            &&& read_u32_spec(m, class, d.statics_offset, Field::StaticsPointer) is Err ==> (resolve_spec(m, base, d) matches Err(e)
                && is_read_error_for(e, Field::StaticsPointer))
            &&& read_u32_spec(m, class, d.statics_offset, Field::StaticsPointer) == Ok::<u32, Error>(statics) ==> {
                &&& window_overflows(statics, d.instance_offset, 4) ==> resolve_spec(m, base, d) == Err::<u32, Error>(overflow_error(statics, 4, Field::InstancePointer))
                &&& read_u32_spec(m, statics, d.instance_offset, Field::InstancePointer) == Ok::<u32, Error>(instance)
                    ==> resolve_spec(m, base, d) == Ok::<u32, Error>(instance)
                &&& read_u32_spec(m, statics, d.instance_offset, Field::InstancePointer) is Err ==> (resolve_spec(m, base, d) matches Err(e)
                    && is_read_error_for(e, Field::InstancePointer))
            }
        },
{
}

/// A record whose window holds fewer bytes than its size fails with a read
/// error that reports how many bytes could be copied; one whose window does
/// not lie wholly inside the address space fails having copied none.
pub proof fn law_short_record(m: Seq<Region>, addr: u32, l: RecordLayout, f: Field)
    ensures
        window_overflows(addr, l.header_skip, l.size as nat) ==> record_spec(m, addr, l, f) == Err::<Seq<u8>, Error>(overflow_error(addr, l.size as nat, f)),
        !window_overflows(addr, l.header_skip, l.size as nat) && available(m, addr + l.header_skip, l.size as nat).len() < l.size
            ==> record_spec(m, addr, l, f) == Err::<Seq<u8>, Error>(Error::ReadError {
            code: PARTIAL_COPY,
            copied: available(m, addr + l.header_skip, l.size as nat).len() as usize,
            field: f,
            address: (addr + l.header_skip) as u32,
            wanted: l.size as u64,
        }),
{
}

/// A zero-length string is empty whatever follows it; a truncated payload, or
/// one past the end of the address space, is a read failure; an unpaired
/// surrogate is a decode failure.
pub proof fn law_string_edges(m: Seq<Region>, addr: u32, n: u32)
    requires
        read_u32_spec(m, addr, 8, Field::StringLength) == Ok::<u32, Error>(n),
    ensures
        n == 0 ==> string_spec(m, addr) == Ok::<Seq<u32>, Error>(Seq::empty()),
        n > 0 && (window_overflows(addr, 12, 2 * n as nat) || available(m, addr + 12, 2 * n as nat).len() < 2 * n) ==> (string_spec(m, addr) matches Err(e)
            && is_read_error_for(e, Field::StringPayload)),
        n > 0 && !window_overflows(addr, 12, 2 * n as nat) && available(m, addr + 12, 2 * n as nat).len() == 2 * n
            && (exists|i: int| 0 <= i < n && #[trigger] unpaired_at(units_of(available(m, addr + 12, 2 * n as nat)), i))
            ==> string_spec(m, addr) == Err::<Seq<u32>, Error>(Error::TextDecodeError),
{
    let b = available(m, addr + 12, 2 * n as nat);
    if n > 0 && !window_overflows(addr, 12, 2 * n as nat) && b.len() == 2 * n {
        if exists|i: int| 0 <= i < n && #[trigger] unpaired_at(units_of(b), i) {
            let i = choose|i: int| 0 <= i < n && #[trigger] unpaired_at(units_of(b), i);
            lemma_unpaired_not_well_formed(units_of(b), i);
        }
    }
}

/// A sequence with an unpaired surrogate is not well-formed UTF-16.
pub proof fn lemma_unpaired_not_well_formed(s: Seq<u16>, i: int)
    requires
        0 <= i < s.len(),
        unpaired_at(s, i),
    ensures
        !utf16_well_formed(s),
    decreases s.len(),
{
    if is_low_surrogate(s[0]) {
    } else if is_high_surrogate(s[0]) {
        if s.len() >= 2 && is_low_surrogate(s[1]) {
            let t = s.subrange(2, s.len() as int);
            if i >= 2 {
                assert(unpaired_at(t, i - 2));
                lemma_unpaired_not_well_formed(t, i - 2);
            }
        }
    } else {
        let t = s.subrange(1, s.len() as int);
        assert(i >= 1);
        assert(unpaired_at(t, i - 1));
        lemma_unpaired_not_well_formed(t, i - 1);
    }
}

/// A list that reports no elements is empty without reading its item array;
/// one that reports more than the bound fails before reading any element.
pub proof fn law_list_count(m: Seq<Region>, c: u32, o: ListOffsets, backing: u32, n: u32)
    requires
        read_u32_spec(m, c, o.backing_offset, Field::ListBacking) == Ok::<u32, Error>(backing),
        read_u32_spec(m, backing, o.count_offset, Field::ListCount) == Ok::<u32, Error>(n),
    ensures
        n == 0 ==> list_spec(m, c, o) == Ok::<Seq<u32>, Error>(Seq::empty()),
        n > MAX_LIST_LEN ==> list_spec(m, c, o) == Err::<Seq<u32>, Error>(Error::ListCountInvalid(n)),
{
}

/// A discriminant outside the known phases always decodes to an
/// `InvalidDiscriminant` failure that carries the value.
pub proof fn law_unknown_discriminants(v: u32)
    ensures
        v > 3 ==> internal_state_of(v) == Err::<crate::game::InternalState, Error>(Error::InvalidDiscriminant(Field::InternalState, v)),
        v > 4 ==> meeting_state_of(v) == Err::<crate::game::MeetingState, Error>(Error::InvalidDiscriminant(Field::MeetingState, v)),
{
}

/// A meeting screen that exists and holds a phase outside the five known
/// ones fails with `InvalidDiscriminant`; where none exists the phase is
/// `Proceeding`, without any read.
pub proof fn law_meeting_phase(m: Seq<Region>, ms: u32, v: u32)
    ensures
        ms == 0 ==> meeting_spec(m, ms) == Ok::<MeetingState, Error>(MeetingState::Proceeding),
        ms != 0 && read_u32_spec(m, ms, MEETING_STATE_OFFSET, Field::MeetingState) == Ok::<u32, Error>(v) && v > 4
            ==> meeting_spec(m, ms) == Err::<MeetingState, Error>(Error::InvalidDiscriminant(Field::MeetingState, v)),
{
}

} // verus!
