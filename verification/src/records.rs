//! The fixed-layout records of the producer's wire format.
//!
//! `SdkHeader` and `VarBuf` decode unconditionally: every byte pattern is a
//! value. `VarType` and `VarHeader` carry an enumerated discriminant that the
//! producer is not trusted to keep in range, so they decode fallibly and
//! transactionally. The documented padding skips mirror the producer's
//! published memory layout byte for byte.

use vstd::prelude::*;

use crate::Error;
use crate::ptr::{FromPtr, Ptr, TryFromPtr, region_len_fits, spec_bool_at, spec_i32_at};

verus! {

/// Number of rotating payload buffer slots in the header.
pub const MAX_BUFS: usize = 4;

/// Width of the fixed-size name and unit fields of a variable header.
pub const MAX_STRING: usize = 32;

/// Width of the fixed-size description field of a variable header.
pub const MAX_DESC: usize = 64;

/// Whether a raw variable type code names a known variant.
pub open spec fn var_code_ok(code: i32) -> bool {
    0 <= code <= 5
}

/// The variant named by an in-range variable type code.
pub open spec fn var_type_of(code: i32) -> VarType {
    if code == 0 {
        VarType::Char
    } else if code == 1 {
        VarType::Bool
    } else if code == 2 {
        VarType::Int32
    } else if code == 3 {
        VarType::BitField32
    } else if code == 4 {
        VarType::Float32
    } else {
        VarType::Float64
    }
}

/// The enumerated type of one telemetry variable's payload values. The raw
/// code on the wire is producer-controlled and may name none of these; such
/// a code is a decode failure, never a default.
#[derive(Debug, Clone, Copy, PartialEq, Eq, Structural)]
pub enum VarType {
    Char,
    Bool,
    Int32,
    BitField32,
    Float32,
    Float64,
}

impl VarType {
    /// The fixed byte width of one payload value of this type.
    pub open spec fn spec_byte_len(self) -> nat {
        match self {
            VarType::Char | VarType::Bool => 1,
            VarType::Int32 | VarType::BitField32 | VarType::Float32 => 4,
            VarType::Float64 => 8,
        }
    }

    /// The fixed byte width of one payload value of this type.
    pub fn byte_len(&self) -> (r: usize)
        ensures
            r == self.spec_byte_len(),
    {
        match self {
            VarType::Char | VarType::Bool => 1,
            VarType::Int32 | VarType::BitField32 | VarType::Float32 => 4,
            VarType::Float64 => 8,
        }
    }
}

impl TryFromPtr for VarType {
    open spec fn wire_len() -> nat {
        4
    }

    open spec fn decode_ok(data: Seq<u8>, off: int) -> bool {
        var_code_ok(spec_i32_at(data, off))
    }

    open spec fn decode_err(data: Seq<u8>, off: int) -> Error {
        Error::UnknownVarType(spec_i32_at(data, off))
    }

    open spec fn is_decode_of(self, data: Seq<u8>, off: int) -> bool {
        var_code_ok(spec_i32_at(data, off)) && self == var_type_of(spec_i32_at(data, off))
    }

    /// The raw discriminant decode: read the 4-byte code and map it. The
    /// cursor advances past the code whether or not it is known; rolling a
    /// rejection back is [`Ptr::try_read`]'s job, not this decode's.
    fn try_from_ptr(p: &mut Ptr, data: &[u8]) -> (r: Result<VarType, Error>)
        ensures
            r is Err ==> final(p).offset == old(p).offset + 4,
    {
        let code: i32 = p.read(data);
        if code == 0 {
            Ok(VarType::Char)
        } else if code == 1 {
            Ok(VarType::Bool)
        } else if code == 2 {
            Ok(VarType::Int32)
        } else if code == 3 {
            Ok(VarType::BitField32)
        } else if code == 4 {
            Ok(VarType::Float32)
        } else if code == 5 {
            Ok(VarType::Float64)
        } else {
            Err(Error::UnknownVarType(code))
        }
    }
}

/// One declared telemetry variable: its payload type, where its values lie
/// within a payload buffer, how many there are, and its fixed-width
/// name, description and unit strings.
#[derive(Debug, Clone)]
pub struct VarHeader {
    pub var_type: VarType,
    pub offset: i32,
    pub count: i32,
    pub count_as_time: bool,
    pub name: Vec<u8>,
    pub desc: Vec<u8>,
    pub unit: Vec<u8>,
}

impl VarHeader {
    /// The total byte width of this variable's payload:
    /// `var_type`'s width times `count`.
    pub fn byte_len(&self) -> (r: usize)
        requires
            0 <= self.count,
            self.var_type.spec_byte_len() * self.count <= usize::MAX,
        ensures
            r == self.var_type.spec_byte_len() * self.count,
    {
        self.var_type.byte_len() * (self.count as usize)
    }
}

impl TryFromPtr for VarHeader {
    open spec fn wire_len() -> nat {
        144
    }

    open spec fn decode_ok(data: Seq<u8>, off: int) -> bool {
        var_code_ok(spec_i32_at(data, off))
    }

    open spec fn decode_err(data: Seq<u8>, off: int) -> Error {
        Error::UnknownVarType(spec_i32_at(data, off))
    }

    open spec fn is_decode_of(self, data: Seq<u8>, off: int) -> bool {
        &&& var_code_ok(spec_i32_at(data, off))
        &&& self.var_type == var_type_of(spec_i32_at(data, off))
        &&& self.offset == spec_i32_at(data, off + 4)
        &&& self.count == spec_i32_at(data, off + 8)
        &&& self.count_as_time == spec_bool_at(data, off + 12)
        &&& self.name@ == data.subrange(off + 16, off + 48)
        &&& self.desc@ == data.subrange(off + 48, off + 112)
        &&& self.unit@ == data.subrange(off + 112, off + 144)
    }

    /// The composite record decode: a fallible type code, then the
    /// unconditional fields. If the type code is rejected the whole record
    /// is, and the cursor is restored to the position it had prior to
    /// entering this record.
    fn try_from_ptr(p: &mut Ptr, data: &[u8]) -> (r: Result<VarHeader, Error>)
        ensures
            r is Err ==> *final(p) == *old(p),
    {
        proof {
            region_len_fits(data);
        }
        let entry = p.offset;
        let var_type = match VarType::try_from_ptr(p, data) {
            Ok(t) => t,
            Err(e) => {
                p.set(entry);
                return Err(e);
            },
        };
        let offset: i32 = p.read(data);
        let count: i32 = p.read(data);
        let count_as_time: bool = p.read(data);
        p.advance(3);
        let name = p.read_bytes(data, MAX_STRING);
        let desc = p.read_bytes(data, MAX_DESC);
        let unit = p.read_bytes(data, MAX_STRING);
        Ok(VarHeader { var_type, offset, count, count_as_time, name, desc, unit })
    }
}

/// A committed transactional decode of a variable header advances the
/// cursor by exactly what the equivalent sequence of unconditional reads of
/// its fields would have: the type code, the offset, the count, the flag,
/// the three padding bytes, and the three fixed-width strings.
pub proof fn lemma_var_header_commit_width()
    ensures
        <VarHeader as TryFromPtr>::wire_len() == <VarType as TryFromPtr>::wire_len()
            + <i32 as FromPtr>::wire_len() + <i32 as FromPtr>::wire_len()
            + <bool as FromPtr>::wire_len() + 3 + MAX_STRING + MAX_DESC + MAX_STRING,
{
}

/// One rotating payload buffer slot: the revision counter the producer bumps
/// each time it republishes the slot, and where the slot's payload lies.
#[derive(Debug, Clone, Copy, PartialEq, Eq, Structural)]
pub struct VarBuf {
    pub tick_count: i32,
    pub buf_offset: i32,
}

impl FromPtr for VarBuf {
    open spec fn wire_len() -> nat {
        16
    }

    open spec fn is_decode_of(self, data: Seq<u8>, off: int) -> bool {
        &&& self.tick_count == spec_i32_at(data, off)
        &&& self.buf_offset == spec_i32_at(data, off + 4)
    }

    fn from_ptr(p: &mut Ptr, data: &[u8]) -> (r: VarBuf) {
        proof {
            region_len_fits(data);
        }
        let tick_count: i32 = p.read(data);
        let buf_offset: i32 = p.read(data);
        p.advance(8);
        VarBuf { tick_count, buf_offset }
    }
}

/// The fixed-size header at the base of every snapshot: format version,
/// status, session info position, the variable-header table's position and
/// length, and the rotating payload buffer slots.
#[derive(Debug, Clone)]
pub struct SdkHeader {
    pub version: i32,
    pub status: i32,
    pub tick_rate: i32,
    pub session_info_update: i32,
    pub session_info_len: i32,
    pub session_info_offset: i32,
    pub num_vars: i32,
    pub var_header_offset: i32,
    pub num_buf: i32,
    pub buf_len: i32,
    pub var_bufs: Vec<VarBuf>,
}

impl FromPtr for SdkHeader {
    open spec fn wire_len() -> nat {
        112
    }

    open spec fn is_decode_of(self, data: Seq<u8>, off: int) -> bool {
        &&& self.version == spec_i32_at(data, off)
        &&& self.status == spec_i32_at(data, off + 4)
        &&& self.tick_rate == spec_i32_at(data, off + 8)
        &&& self.session_info_update == spec_i32_at(data, off + 12)
        &&& self.session_info_len == spec_i32_at(data, off + 16)
        &&& self.session_info_offset == spec_i32_at(data, off + 20)
        &&& self.num_vars == spec_i32_at(data, off + 24)
        &&& self.var_header_offset == spec_i32_at(data, off + 28)
        &&& self.num_buf == spec_i32_at(data, off + 32)
        &&& self.buf_len == spec_i32_at(data, off + 36)
        &&& self.var_bufs@.len() == 4
        &&& forall|j: int|
            0 <= j < 4 ==> #[trigger] self.var_bufs@[j].is_decode_of(data, off + 48 + 16 * j)
    }

    fn from_ptr(p: &mut Ptr, data: &[u8]) -> (r: SdkHeader) {
        proof {
            region_len_fits(data);
        }
        let version: i32 = p.read(data);
        let status: i32 = p.read(data);
        let tick_rate: i32 = p.read(data);
        let session_info_update: i32 = p.read(data);
        let session_info_len: i32 = p.read(data);
        let session_info_offset: i32 = p.read(data);
        let num_vars: i32 = p.read(data);
        let var_header_offset: i32 = p.read(data);
        let num_buf: i32 = p.read(data);
        let buf_len: i32 = p.read(data);
        p.advance(8);
        let mut var_bufs: Vec<VarBuf> = Vec::new();
        let b0: VarBuf = p.read(data);
        var_bufs.push(b0);
        let b1: VarBuf = p.read(data);
        var_bufs.push(b1);
        let b2: VarBuf = p.read(data);
        var_bufs.push(b2);
        let b3: VarBuf = p.read(data);
        var_bufs.push(b3);
        SdkHeader {
            version,
            status,
            tick_rate,
            session_info_update,
            session_info_len,
            session_info_offset,
            num_vars,
            var_header_offset,
            num_buf,
            buf_len,
            var_bufs,
        }
    }
}

/// Decoding the fixed header advances the cursor by exactly the sum of its
/// unconditional reads: ten integers, eight padding bytes, and the four
/// rotating buffer slots.
pub proof fn lemma_sdk_header_width()
    ensures
        <SdkHeader as FromPtr>::wire_len() == 10 * <i32 as FromPtr>::wire_len() + 8 + (MAX_BUFS
            as nat) * <VarBuf as FromPtr>::wire_len(),
{
}

} // verus!
