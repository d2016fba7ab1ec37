use vstd::prelude::*;
use crate::error::{Error, Field};
use crate::memory::{overflow_error, overflows, read_spec, read_u32_spec, MemoryImage, INVALID_ADDRESS};

verus! {

/// Where a class's live singleton instance is found: the class pointer
/// relative to the module base, the statics block relative to the class, and
/// the instance pointer relative to the statics block.
#[derive(Debug, Clone, Copy, PartialEq, Eq, Structural)]
pub struct ClassDescriptor {
    pub class_offset: u32,
    pub statics_offset: u32,
    pub instance_offset: u32,
}

/// A fixed-layout foreign record: `size` bytes of fields after a runtime
/// header of `header_skip` bytes.
#[derive(Debug, Clone, Copy, PartialEq, Eq, Structural)]
pub struct RecordLayout {
    pub header_skip: u32,
    pub size: usize,
}

/// Where a foreign list keeps its backing array, its count, its item array
/// and the array's first element.
#[derive(Debug, Clone, Copy, PartialEq, Eq, Structural)]
pub struct ListOffsets {
    pub backing_offset: u32,
    pub count_offset: u32,
    pub items_offset: u32,
    pub data_offset: u32,
}

/// The largest element count a foreign list is believed to report.
pub const MAX_LIST_LEN: u32 = 1024;

/// The three pointer hops from the module base to a class's instance.
pub open spec fn resolve_spec(m: Seq<crate::memory::Region>, base: u32, d: ClassDescriptor) -> Result<u32, Error> {
    match read_u32_spec(m, base, d.class_offset, Field::ClassPointer) {
        Err(e) => Err(e),
        Ok(class) => match read_u32_spec(m, class, d.statics_offset, Field::StaticsPointer) {
            Err(e) => Err(e),
            Ok(statics) => read_u32_spec(m, statics, d.instance_offset, Field::InstancePointer),
        },
    }
}

/// A record's bytes: exactly `l.size` of them after its header.
pub open spec fn record_spec(m: Seq<crate::memory::Region>, addr: u32, l: RecordLayout, field: Field) -> Result<Seq<u8>, Error> {
    read_spec(m, addr, l.header_skip, l.size as nat, field)
}

/// The first `n` element pointers of an array whose element 0 is at `first`.
pub open spec fn elements_spec(m: Seq<crate::memory::Region>, first: u32, n: nat) -> Result<Seq<u32>, Error>
    decreases n,
{
    if n == 0 {
        Ok(Seq::empty())
    } else {
        match elements_spec(m, first, (n - 1) as nat) {
            Err(e) => Err(e),
            Ok(s) => match read_u32_spec(m, first, (4 * (n - 1)) as u32, Field::ListElement) {
                Err(e) => Err(e),
                Ok(v) => Ok(s.push(v)),
            },
        }
    }
}

/// The element pointers of the foreign list at `c`, in index order.
pub open spec fn list_spec(m: Seq<crate::memory::Region>, c: u32, o: ListOffsets) -> Result<Seq<u32>, Error> {
    match read_u32_spec(m, c, o.backing_offset, Field::ListBacking) {
        Err(e) => Err(e),
        Ok(backing) => match read_u32_spec(m, backing, o.count_offset, Field::ListCount) {
            Err(e) => Err(e),
            Ok(n) => if n > MAX_LIST_LEN {
                Err(Error::ListCountInvalid(n))
            } else if n == 0 {
                Ok(Seq::empty())
            } else {
                match read_u32_spec(m, backing, o.items_offset, Field::ListItems) {
                    Err(e) => Err(e),
                    Ok(items) => if overflows(items, o.data_offset) {
                        Err(overflow_error(items, 4, Field::ListElement))
                    } else {
                        elements_spec(m, (items + o.data_offset) as u32, n as nat)
                    },
                }
            },
        },
    }
}

/// A high (leading) surrogate code unit.
pub open spec fn is_high_surrogate(u: u16) -> bool {
    0xD800 <= u <= 0xDBFF
}

/// A low (trailing) surrogate code unit.
pub open spec fn is_low_surrogate(u: u16) -> bool {
    0xDC00 <= u <= 0xDFFF
}

/// Every surrogate in `s` stands in a high-low pair.
pub open spec fn utf16_well_formed(s: Seq<u16>) -> bool
    decreases s.len(),
{
    if s.len() == 0 {
        true
    } else if is_low_surrogate(s[0]) {
        false
    } else if is_high_surrogate(s[0]) {
        s.len() >= 2 && is_low_surrogate(s[1]) && utf16_well_formed(s.subrange(2, s.len() as int))
    } else {
        utf16_well_formed(s.subrange(1, s.len() as int))
    }
}

/// The code points that UTF-16 code units decode to: a high surrogate
/// followed by a low one makes one code point above 0xFFFF, and any other unit
/// stands for itself.
pub open spec fn utf16_code_points(s: Seq<u16>) -> Seq<u32>
    decreases s.len(),
{
    if s.len() == 0 {
        Seq::empty()
    } else if s.len() >= 2 && is_high_surrogate(s[0]) && is_low_surrogate(s[1]) {
        seq![(0x10000 + (s[0] - 0xD800) * 0x400 + (s[1] - 0xDC00)) as u32]
            + utf16_code_points(s.subrange(2, s.len() as int))
    } else {
        seq![s[0] as u32] + utf16_code_points(s.subrange(1, s.len() as int))
    }
}

/// The code points of a text.
pub open spec fn code_points(t: Seq<char>) -> Seq<u32> {
    t.map_values(|c: char| c as u32)
}

/// Bytes taken pairwise as little-endian code units.
pub open spec fn units_of(b: Seq<u8>) -> Seq<u16> {
    Seq::new(b.len() / 2, |i: int| (b[2 * i] + 256 * b[2 * i + 1]) as u16)
}

/// A foreign string object: a code-unit count at +0x08, the UTF-16 payload at +0x0C.
pub open spec fn string_spec(m: Seq<crate::memory::Region>, addr: u32) -> Result<Seq<u32>, Error> {
    match read_u32_spec(m, addr, 8, Field::StringLength) {
        Err(e) => Err(e),
        Ok(n) => if n == 0 {
            Ok(Seq::empty())
        } else {
            match read_spec(m, addr, 12, 2 * n as nat, Field::StringPayload) {
                Err(e) => Err(e),
                Ok(b) => if utf16_well_formed(units_of(b)) {
                    Ok(utf16_code_points(units_of(b)))
                } else {
                    Err(Error::TextDecodeError)
                },
            }
        },
    }
}

/// Relies on std's `String::from_utf16`: it fails exactly where a surrogate is
/// unpaired, and otherwise decodes each pair and each other unit to one char.
#[verifier::external_body]
fn string_from_utf16(units: &Vec<u16>) -> (r: Option<String>)
    ensures
        r is Some <==> utf16_well_formed(units@),
        r matches Some(s) ==> code_points(s@) == utf16_code_points(units@),
{
    String::from_utf16(units.as_slice()).ok()
}

/// Follows the three pointer hops of `d` from `module_base` to the live
/// instance; a zero instance is a result, not a failure.
pub fn resolve_instance(mem: &MemoryImage, module_base: u32, d: &ClassDescriptor) -> (r: Result<u32, Error>)
    ensures
        r == resolve_spec(mem.regions@, module_base, *d),
{
    let class = mem.read_u32(module_base, d.class_offset, Field::ClassPointer)?;
    let statics = mem.read_u32(class, d.statics_offset, Field::StaticsPointer)?;
    mem.read_u32(statics, d.instance_offset, Field::InstancePointer)
}

/// Reads the `layout.size` bytes of the record at `addr`, after its header.
pub fn read_fixed_record(mem: &MemoryImage, addr: u32, layout: &RecordLayout, field: Field) -> (r: Result<Vec<u8>, Error>)
    ensures
        match r {
            Ok(b) => record_spec(mem.regions@, addr, *layout, field) == Ok::<Seq<u8>, Error>(b@),
            Err(e) => record_spec(mem.regions@, addr, *layout, field) == Err::<Seq<u8>, Error>(e),
        },
{
    mem.read_exact(addr, layout.header_skip, layout.size as u64, field)
}

/// Reads the first `n` element pointers of the array whose element 0 is at `first`.
fn read_elements(mem: &MemoryImage, first: u32, n: u32) -> (r: Result<Vec<u32>, Error>)
    requires
        n <= MAX_LIST_LEN,
    ensures
        match r {
            Ok(v) => elements_spec(mem.regions@, first, n as nat) == Ok::<Seq<u32>, Error>(v@),
            Err(e) => elements_spec(mem.regions@, first, n as nat) == Err::<Seq<u32>, Error>(e),
        },
{
    let mut out: Vec<u32> = Vec::new();
    let mut i: u32 = 0;
    while i < n
        invariant
            i <= n <= MAX_LIST_LEN,
            elements_spec(mem.regions@, first, i as nat) == Ok::<Seq<u32>, Error>(out@),
        decreases n - i,
    {
        let v = mem.read_u32(first, 4 * i, Field::ListElement);
        match v {
            Err(e) => {
                proof {
                    lemma_elements_stop(mem.regions@, first, (i + 1) as nat, n as nat);
                }
                return Err(e);
            },
            Ok(v) => {
                out.push(v);
                i = i + 1;
            },
        }
    }
    Ok(out)
}

/// Once a prefix of the element reads fails, every longer one fails alike.
proof fn lemma_elements_stop(m: Seq<crate::memory::Region>, first: u32, k: nat, n: nat)
    requires
        k <= n,
        elements_spec(m, first, k) is Err,
    ensures
        elements_spec(m, first, n) == elements_spec(m, first, k),
    decreases n - k,
{
    if k < n {
        lemma_elements_stop(m, first, k, (n - 1) as nat);
    }
}

/// Reads the element pointers of the foreign list at `container`, in index
/// order; an implausible count fails before any element is read.
pub fn read_address_list(mem: &MemoryImage, container: u32, offsets: &ListOffsets) -> (r: Result<Vec<u32>, Error>)
    ensures
        match r {
            Ok(v) => list_spec(mem.regions@, container, *offsets) == Ok::<Seq<u32>, Error>(v@),
            Err(e) => list_spec(mem.regions@, container, *offsets) == Err::<Seq<u32>, Error>(e),
        },
{
    let backing = mem.read_u32(container, offsets.backing_offset, Field::ListBacking)?;
    let n = mem.read_u32(backing, offsets.count_offset, Field::ListCount)?;
    if n > MAX_LIST_LEN {
        return Err(Error::ListCountInvalid(n));
    }
    if n == 0 {
        return Ok(Vec::new());
    }
    let items = mem.read_u32(backing, offsets.items_offset, Field::ListItems)?;
    match items.checked_add(offsets.data_offset) {
        Some(first) => read_elements(mem, first, n),
        None => Err(Error::ReadError { code: INVALID_ADDRESS, copied: 0, field: Field::ListElement, address: items, wanted: 4 }),
    }
}

/// Reads and decodes the foreign string object at `addr`; a zero length
/// gives the empty string without reading any payload.
pub fn read_string(mem: &MemoryImage, addr: u32) -> (r: Result<String, Error>)
    ensures
        match r {
            Ok(s) => string_spec(mem.regions@, addr) == Ok::<Seq<u32>, Error>(code_points(s@)),
            Err(e) => string_spec(mem.regions@, addr) == Err::<Seq<u32>, Error>(e),
        },
{
    let n = mem.read_u32(addr, 8, Field::StringLength)?;
    if n == 0 {
        let empty = String::new();
        proof {
            assert(code_points(empty@) =~= Seq::<u32>::empty());
        }
        return Ok(empty);
    }
    let b = mem.read_exact(addr, 12, (n as u64) * 2, Field::StringPayload)?;
    let blen: usize = b.len();
    let mut units: Vec<u16> = Vec::new();
    let mut i: usize = 0;
    while i < n as usize
        invariant
            i <= n,
            blen == b@.len(),
            b@.len() == 2 * n,
            units@.len() == i,
            forall|j: int| 0 <= j < i ==> units@[j] == #[trigger] units_of(b@)[j],
        decreases n - i,
    {
        let u: u16 = b[2 * i] as u16 + (b[2 * i + 1] as u16) * 256;
        units.push(u);
        i = i + 1;
    }
    proof {
        assert(units@ =~= units_of(b@));
    }
    match string_from_utf16(&units) {
        Some(s) => Ok(s),
        None => Err(Error::TextDecodeError),
    }
}

} // verus!
