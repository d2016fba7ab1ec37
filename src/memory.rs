use vstd::prelude::*;
use crate::error::{Error, Field};

verus! {

/// The OS code reported for a read that could not copy every byte it asked for.
pub const PARTIAL_COPY: u32 = 299;

/// The OS code reported for an address past the end of the 32-bit address space.
pub const INVALID_ADDRESS: u32 = 487;

/// A run of foreign bytes starting at a foreign address.
pub struct Region {
    pub base: u32,
    pub bytes: Vec<u8>,
}

/// What is known of a foreign process's memory: the regions read so far.
/// Where regions overlap, the one added last serves a read.
pub struct MemoryImage {
    pub regions: Vec<Region>,
}

/// Region `r` holds the byte at address `a`.
pub open spec fn holds(r: Region, a: int) -> bool {
    r.base <= a < r.base + r.bytes@.len()
}

/// Region `i` is the one that serves a read at `a`: the last region holding `a`.
pub open spec fn serves(rs: Seq<Region>, i: int, a: int) -> bool {
    &&& 0 <= i < rs.len()
    &&& holds(rs[i], a)
    &&& forall|j: int| i < j < rs.len() ==> !holds(#[trigger] rs[j], a)
}

/// The bytes that a read of `len` bytes at `a` copies: those of the serving
/// region from `a` on, up to `len` of them or to the region's end.
pub open spec fn available(rs: Seq<Region>, a: int, len: nat) -> Seq<u8> {
    if exists|i: int| serves(rs, i, a) {
        let i = choose|i: int| serves(rs, i, a);
        let start = a - rs[i].base;
        let end = if start + len <= rs[i].bytes@.len() { start + len } else { rs[i].bytes@.len() as int };
        rs[i].bytes@.subrange(start, end)
    } else {
        Seq::empty()
    }
}

/// `base + off` lies past the end of the 32-bit address space.
pub open spec fn overflows(base: u32, off: u32) -> bool {
    base + off > u32::MAX
}

/// A window of `len` bytes at `base + off` does not lie wholly inside the
/// 32-bit address space: its start or its end lies past it.
pub open spec fn window_overflows(base: u32, off: u32, len: nat) -> bool {
    overflows(base, off) || base + off + len > 0x1_0000_0000
}

/// The failure of a read of `len` bytes at an address that overflows past `base`.
pub open spec fn overflow_error(base: u32, len: nat, field: Field) -> Error {
    Error::ReadError { code: INVALID_ADDRESS, copied: 0, field, address: base, wanted: len as u64 }
}

/// A read of exactly `len` bytes at `base + off`, for `field`; a window that
/// does not lie wholly inside the address space fails without reading.
pub open spec fn read_spec(m: Seq<Region>, base: u32, off: u32, len: nat, field: Field) -> Result<Seq<u8>, Error> {
    if window_overflows(base, off, len) {
        Err(overflow_error(base, len, field))
    } else {
        exact_spec(m, (base + off) as u32, len, field)
    }
}

/// A read of exactly `len` bytes at `addr`, for `field`.
pub open spec fn exact_spec(m: Seq<Region>, addr: u32, len: nat, field: Field) -> Result<Seq<u8>, Error> {
    let got = available(m, addr as int, len);
    if got.len() as u64 == len {
        Ok(got)
    } else {
        Err(Error::ReadError {
            code: PARTIAL_COPY,
            copied: got.len() as usize,
            field,
            address: addr,
            wanted: len as u64,
        })
    }
}

/// The little-endian integer held by four bytes.
pub open spec fn le_u32(b: Seq<u8>) -> u32 {
    (b[0] + 256 * b[1] + 65536 * b[2] + 16777216 * b[3]) as u32
}

/// A read of a 4-byte integer (or 32-bit pointer) at `base + off`, for `field`.
pub open spec fn read_u32_spec(m: Seq<Region>, base: u32, off: u32, field: Field) -> Result<u32, Error> {
    match read_spec(m, base, off, 4, field) {
        Ok(b) => Ok(le_u32(b)),
        Err(e) => Err(e),
    }
}

proof fn lemma_serves_unique(rs: Seq<Region>, i: int, k: int, a: int)
    requires
        serves(rs, i, a),
        serves(rs, k, a),
    ensures
        i == k,
{
    if i < k {
        assert(!holds(rs[k], a));
    } else if k < i {
        assert(!holds(rs[i], a));
    }
}

/// The four bytes `b[start..start + 4]` as a little-endian integer.
pub fn decode_u32(b: &Vec<u8>, start: usize) -> (r: u32)
    requires
        start + 4 <= b@.len(),
        start + 4 <= usize::MAX,
    ensures
        r == le_u32(b@.subrange(start as int, start + 4)),
{
    let b0: u32 = b[start] as u32;
    let b1: u32 = b[start + 1] as u32;
    let b2: u32 = b[start + 2] as u32;
    let b3: u32 = b[start + 3] as u32;
    b0 + b1 * 256 + b2 * 65536 + b3 * 16777216
}

impl MemoryImage {
    /// An image that holds no foreign bytes yet.
    pub fn new() -> (r: MemoryImage)
        ensures
            r.regions@.len() == 0,
    {
        MemoryImage { regions: Vec::new() }
    }

    /// Records `bytes` as the foreign memory from `base` on; it serves reads
    /// ahead of every region added before it.
    pub fn add_region(&mut self, base: u32, bytes: Vec<u8>)
        ensures
            final(self).regions@ == old(self).regions@.push(Region { base, bytes }),
    {
        self.regions.push(Region { base, bytes });
    }

    /// Copies up to `len` bytes at `addr`: fewer where the serving region ends
    /// first, none where no region holds `addr`.
    pub fn read(&self, addr: u32, len: u64) -> (r: Vec<u8>)
        ensures
            r@ == available(self.regions@, addr as int, len as nat),
    {
        let mut i: usize = self.regions.len();
        while i > 0
            invariant
                i <= self.regions@.len(),
                forall|j: int| i <= j < self.regions@.len() ==> !holds(#[trigger] self.regions@[j], addr as int),
            decreases i,
        {
            i = i - 1;
            let r = &self.regions[i];
            if r.base <= addr && ((addr - r.base) as usize) < r.bytes.len() {
                proof {
                    assert(serves(self.regions@, i as int, addr as int));
                    assert forall|k: int| serves(self.regions@, k, addr as int) implies k == i by {
                        lemma_serves_unique(self.regions@, i as int, k, addr as int);
                    }
                }
                let start: usize = (addr - r.base) as usize;
                let end: usize = if len <= (r.bytes.len() - start) as u64 { start + len as usize } else { r.bytes.len() };
                let mut out: Vec<u8> = Vec::new();
                let mut p: usize = start;
                while p < end
                    invariant
                        start <= p <= end <= r.bytes@.len(),
                        out@ == r.bytes@.subrange(start as int, p as int),
                    decreases end - p,
                {
                    out.push(r.bytes[p]);
                    p = p + 1;
                    assert(out@ =~= r.bytes@.subrange(start as int, p as int));
                }
                proof {
                    let k = choose|k: int| serves(self.regions@, k, addr as int);
                    assert(serves(self.regions@, k, addr as int));
                    assert(k == i);
                }
                return out;
            }
        }
        proof {
            assert(!exists|k: int| serves(self.regions@, k, addr as int));
        }
        Vec::new()
    }

    /// Reads exactly `len` bytes at `base + off`, or fails naming `field`:
    /// with the number of bytes that could be copied, or without reading
    /// where the window does not lie wholly inside the address space.
    pub fn read_exact(&self, base: u32, off: u32, len: u64, field: Field) -> (r: Result<Vec<u8>, Error>)
        ensures
            match r {
                Ok(b) => read_spec(self.regions@, base, off, len as nat, field) == Ok::<Seq<u8>, Error>(b@),
                Err(e) => read_spec(self.regions@, base, off, len as nat, field) == Err::<Seq<u8>, Error>(e),
            },
    {
        let addr = match base.checked_add(off) {
            Some(a) => a,
            None => {
                return Err(Error::ReadError { code: INVALID_ADDRESS, copied: 0, field, address: base, wanted: len });
            },
        };
        if len > 0x1_0000_0000u64 - addr as u64 {
            return Err(Error::ReadError { code: INVALID_ADDRESS, copied: 0, field, address: base, wanted: len });
        }
        let got = self.read(addr, len);
        if got.len() as u64 == len {
            Ok(got)
        } else {
            Err(Error::ReadError { code: PARTIAL_COPY, copied: got.len(), field, address: addr, wanted: len })
        }
    }

    /// Reads a 4-byte integer (or 32-bit pointer) at `base + off`.
    pub fn read_u32(&self, base: u32, off: u32, field: Field) -> (r: Result<u32, Error>)
        ensures
            r == read_u32_spec(self.regions@, base, off, field),
    {
        let b = self.read_exact(base, off, 4, field)?;
        proof {
            assert(b@.subrange(0, 4) =~= b@);
        }
        Ok(decode_u32(&b, 0))
    }
}

} // verus!
