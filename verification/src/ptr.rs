//! The position-tracking cursor over an externally supplied byte region, and
//! the two decode capabilities built on it: unconditional decode
//! ([`FromPtr`]) and fallible, transactional decode ([`TryFromPtr`]).
//!
//! The cursor owns no memory. The snapshot's bytes are handed to every read
//! as a plain slice by the caller, which manages the underlying view's
//! lifetime; the cursor itself is nothing but the current byte offset into
//! that region.

use vstd::prelude::*;

use crate::Error;

verus! {

broadcast use vstd::slice::group_slice_axioms;

/// The byte at offset `off` of the region.
pub open spec fn spec_u8_at(data: Seq<u8>, off: int) -> u8 {
    data[off]
}

/// The little-endian 32-bit integer stored at offset `off` of the region.
pub open spec fn spec_i32_at(data: Seq<u8>, off: int) -> i32 {
    vstd::bytes::spec_u32_from_le_bytes(data.subrange(off, off + 4)) as i32
}

/// The boolean stored at offset `off` of the region: any non-zero byte reads
/// as `true`.
pub open spec fn spec_bool_at(data: Seq<u8>, off: int) -> bool {
    data[off] != 0
}

/// The region handed to a read is a slice held in memory, so its length
/// fits in `usize`; offsets kept at or below it cannot overflow.
pub(crate) proof fn region_len_fits(data: &[u8])
    ensures
        data@.len() <= usize::MAX,
{
    assert(data@.len() == data.len());
}

/// A cursor into an externally supplied, read-only byte region: the current
/// byte offset from the region's base. Typed reads advance it by the width
/// of what they read.
#[derive(Clone, Copy, Debug, PartialEq, Eq, Structural)]
pub struct Ptr {
    pub offset: usize,
}

/// Unconditional decode: given enough well-formed bytes, a value of the
/// implementing type can always be read, and the read never fails.
///
/// `wire_len` is the exact number of bytes one value occupies on the wire
/// (padding included), and `is_decode_of` pins the decoded value down as a
/// function of the bytes it was read from.
pub trait FromPtr: Sized {
    /// The number of bytes one value of this type occupies on the wire.
    spec fn wire_len() -> nat;

    /// `self` is exactly the value encoded at offset `off` of `data`.
    spec fn is_decode_of(self, data: Seq<u8>, off: int) -> bool;

    /// Decode one value at the cursor's offset, advancing the cursor by
    /// `wire_len` bytes.
    fn from_ptr(p: &mut Ptr, data: &[u8]) -> (r: Self)
        requires
            old(p).offset + Self::wire_len() <= data@.len(),
        ensures
            final(p).offset == old(p).offset + Self::wire_len(),
            r.is_decode_of(data@, old(p).offset as int),
    ;
}

/// Fallible decode: the bytes may encode an unrecognized discriminant, in
/// which case the decode is rejected.
///
/// `decode_ok` says on which bytes the decode succeeds, and `decode_err`
/// which error is reported where it does not. Where the cursor is left on a
/// rejection is the implementation's affair: the raw discriminant decode
/// reads past the code before rejecting it, while a composite record
/// restores the position it entered with. Exact restoration whatever the
/// implementation did is [`Ptr::try_read`]'s contract, the transactional
/// wrapper through which these decodes are meant to run.
pub trait TryFromPtr: Sized {
    /// The number of bytes one value of this type occupies on the wire when
    /// the decode succeeds.
    spec fn wire_len() -> nat;

    /// Whether the bytes at offset `off` of `data` decode successfully.
    spec fn decode_ok(data: Seq<u8>, off: int) -> bool;

    /// The error reported when the bytes at offset `off` are rejected.
    spec fn decode_err(data: Seq<u8>, off: int) -> Error;

    /// `self` is exactly the value encoded at offset `off` of `data`.
    spec fn is_decode_of(self, data: Seq<u8>, off: int) -> bool;

    /// Decode one value at the cursor's offset. On success the cursor has
    /// advanced by exactly `wire_len` bytes; on failure the value is
    /// rejected with `decode_err`, and the cursor stands wherever the
    /// implementation's partial reads left it.
    fn try_from_ptr(p: &mut Ptr, data: &[u8]) -> (r: Result<Self, Error>)
        requires
            old(p).offset + Self::wire_len() <= data@.len(),
        ensures
            match r {
                Ok(v) => final(p).offset == old(p).offset + Self::wire_len()
                    && Self::decode_ok(data@, old(p).offset as int)
                    && v.is_decode_of(data@, old(p).offset as int),
                Err(e) => !Self::decode_ok(data@, old(p).offset as int)
                    && e == Self::decode_err(data@, old(p).offset as int),
            },
    ;
}

impl Ptr {
    /// A fresh cursor at the base of the region.
    pub fn new() -> (p: Self)
        ensures
            p.offset == 0,
    {
        Ptr { offset: 0 }
    }

    /// Absolute repositioning, used to jump to a table whose position a
    /// prior field described.
    pub fn set(&mut self, offset: usize)
        ensures
            final(self).offset == offset,
    {
        self.offset = offset;
    }

    /// Move the offset forward by `count` bytes without reading anything,
    /// used to skip the layout's documented padding.
    pub fn advance(&mut self, count: usize)
        requires
            old(self).offset + count <= usize::MAX,
        ensures
            final(self).offset == old(self).offset + count,
    {
        self.offset = self.offset + count;
    }

    /// Unconditional typed read: decode one `T` at the current offset and
    /// advance by its wire width.
    pub fn read<T: FromPtr>(&mut self, data: &[u8]) -> (r: T)
        requires
            old(self).offset + T::wire_len() <= data@.len(),
        ensures
            final(self).offset == old(self).offset + T::wire_len(),
            r.is_decode_of(data@, old(self).offset as int),
    {
        T::from_ptr(self, data)
    }

    /// Transactional typed read: run `T`'s fallible decode on a duplicate of
    /// this cursor and commit the duplicate's final position only if the
    /// whole decode succeeded. On failure this cursor is untouched, exactly,
    /// whatever partial reads the decode performed on the duplicate: this is
    /// the mechanism that keeps a rejected discriminant from leaving the
    /// cursor partially advanced.
    pub fn try_read<T: TryFromPtr>(&mut self, data: &[u8]) -> (r: Result<T, Error>)
        requires
            old(self).offset + T::wire_len() <= data@.len(),
        ensures
            match r {
                Ok(v) => final(self).offset == old(self).offset + T::wire_len()
                    && T::decode_ok(data@, old(self).offset as int)
                    && v.is_decode_of(data@, old(self).offset as int),
                Err(e) => *final(self) == *old(self)
                    && !T::decode_ok(data@, old(self).offset as int)
                    && e == T::decode_err(data@, old(self).offset as int),
            },
    {
        let mut probe = *self;
        match T::try_from_ptr(&mut probe, data) {
            Ok(v) => {
                *self = probe;
                Ok(v)
            },
            Err(e) => Err(e),
        }
    }

    /// Read `count` raw bytes as an owned buffer, advancing by `count`.
    /// Byte buffers cannot fail to decode; this is the unconditional read
    /// behind the layout's fixed-width string fields.
    pub fn read_bytes(&mut self, data: &[u8], count: usize) -> (r: Vec<u8>)
        requires
            old(self).offset + count <= data@.len(),
        ensures
            final(self).offset == old(self).offset + count,
            r@ == data@.subrange(old(self).offset as int, old(self).offset + count),
    {
        proof {
            region_len_fits(data);
        }
        let ghost start: int = self.offset as int;
        let end = self.offset + count;
        let mut out: Vec<u8> = Vec::new();
        while self.offset < end
            invariant
                0 <= start <= self.offset <= end,
                end == start + count,
                end <= data@.len(),
                out@ == data@.subrange(start, self.offset as int),
            decreases end - self.offset,
        {
            let ghost before: int = self.offset as int;
            let b = *vstd::slice::slice_index_get(data, self.offset);
            out.push(b);
            self.offset = self.offset + 1;
            proof {
                assert(out@ =~= data@.subrange(start, before + 1));
            }
        }
        out
    }
}

impl FromPtr for u8 {
    open spec fn wire_len() -> nat {
        1
    }

    open spec fn is_decode_of(self, data: Seq<u8>, off: int) -> bool {
        self == spec_u8_at(data, off)
    }

    fn from_ptr(p: &mut Ptr, data: &[u8]) -> (r: u8) {
        proof {
            region_len_fits(data);
        }
        let b = *vstd::slice::slice_index_get(data, p.offset);
        p.advance(1);
        b
    }
}

impl FromPtr for i32 {
    open spec fn wire_len() -> nat {
        4
    }

    open spec fn is_decode_of(self, data: Seq<u8>, off: int) -> bool {
        self == spec_i32_at(data, off)
    }

    fn from_ptr(p: &mut Ptr, data: &[u8]) -> (r: i32) {
        proof {
            region_len_fits(data);
        }
        let sub = vstd::slice::slice_subrange(data, p.offset, p.offset + 4);
        let v = vstd::bytes::u32_from_le_bytes(sub);
        p.advance(4);
        #[verifier::truncate] (v as i32)
    }
}

impl FromPtr for bool {
    open spec fn wire_len() -> nat {
        1
    }

    open spec fn is_decode_of(self, data: Seq<u8>, off: int) -> bool {
        self == spec_bool_at(data, off)
    }

    fn from_ptr(p: &mut Ptr, data: &[u8]) -> (r: bool) {
        proof {
            region_len_fits(data);
        }
        let b = *vstd::slice::slice_index_get(data, p.offset);
        p.advance(1);
        b != 0
    }
}

/// The sum of a sequence of read widths.
pub open spec fn sum_widths(ws: Seq<nat>) -> int
    decreases ws.len(),
{
    if ws.len() == 0 {
        0
    } else {
        ws[0] + sum_widths(ws.subrange(1, ws.len() as int))
    }
}

/// The offset a cursor stands at after unconditional reads of the given
/// widths in order, starting from `off`: each read moves it forward by
/// exactly its own width, as [`FromPtr::from_ptr`]'s ensures states,
/// whatever the bytes hold.
pub open spec fn offset_after_reads(off: int, ws: Seq<nat>) -> int
    decreases ws.len(),
{
    if ws.len() == 0 {
        off
    } else {
        offset_after_reads(off + ws[0], ws.subrange(1, ws.len() as int))
    }
}

/// Cursor advance law: any sequence of unconditional reads of widths
/// w1..wn starting at offset `off` leaves the cursor at `off + sum(wi)`,
/// regardless of the values read.
pub proof fn lemma_cursor_advance_sum(off: int, ws: Seq<nat>)
    ensures
        offset_after_reads(off, ws) == off + sum_widths(ws),
    decreases ws.len(),
{
    if ws.len() > 0 {
        lemma_cursor_advance_sum(off + ws[0], ws.subrange(1, ws.len() as int));
    }
}

} // verus!
