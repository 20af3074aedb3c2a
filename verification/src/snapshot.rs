//! Decoding one signaled snapshot, and the per-iteration decisions of the
//! synchronization loop.
//!
//! The loop itself lives with the caller: it blocks on the producer's
//! signal, re-acquires a fresh read-only view of the shared region, and
//! hands the view's bytes here. [`decode_snapshot`] then runs the decoders
//! over the bytes: the fixed header, the variable-header table via the
//! transactional path (stopping at the first rejected entry), and the
//! freshness resolution over the rotating payload buffers.

use vstd::prelude::*;

use crate::Error;
use crate::ptr::{FromPtr, Ptr, TryFromPtr, region_len_fits, spec_i32_at};
use crate::records::{SdkHeader, VarBuf, VarHeader, var_code_ok};

verus! {

/// Everything one successfully decoded snapshot yields: the fixed header,
/// the variable-header table, and the payload offset of the freshest
/// rotating buffer slot, ready for the caller to reposition a cursor to.
#[derive(Debug, Clone)]
pub struct Snapshot {
    pub header: SdkHeader,
    pub var_headers: Vec<VarHeader>,
    pub payload_offset: i32,
}

/// `i` is the winning slot of the freshness resolution: no slot has a
/// larger revision, and every earlier slot has a strictly smaller one, so
/// ties break to the first maximum in source order.
pub open spec fn is_first_max(bufs: Seq<VarBuf>, i: int) -> bool {
    &&& 0 <= i < bufs.len()
    &&& forall|j: int| 0 <= j < bufs.len() ==> (#[trigger] bufs[j]).tick_count <= bufs[i].tick_count
    &&& forall|j: int| 0 <= j < i ==> (#[trigger] bufs[j]).tick_count < bufs[i].tick_count
}

/// The freshness resolution is deterministic: only one slot can be the
/// first maximum, whatever the revisions are.
pub proof fn lemma_first_max_unique(bufs: Seq<VarBuf>, i: int, j: int)
    requires
        is_first_max(bufs, i),
        is_first_max(bufs, j),
    ensures
        i == j,
{
    if i < j {
        assert(bufs[i].tick_count < bufs[j].tick_count);
        assert(bufs[j].tick_count <= bufs[i].tick_count);
    } else if j < i {
        assert(bufs[j].tick_count < bufs[i].tick_count);
        assert(bufs[i].tick_count <= bufs[j].tick_count);
    }
}

/// The freshness resolution reads nothing but the revision counters: two
/// buffer sequences with the same revisions slot for slot have the same
/// winner, whatever their payload offsets hold.
pub proof fn lemma_first_max_revisions_only(a: Seq<VarBuf>, b: Seq<VarBuf>, i: int)
    requires
        a.len() == b.len(),
        forall|j: int| 0 <= j < a.len() ==> (#[trigger] a[j]).tick_count == b[j].tick_count,
        is_first_max(a, i),
    ensures
        is_first_max(b, i),
{
    assert forall|j: int| 0 <= j < b.len() implies (#[trigger] b[j]).tick_count
        <= b[i].tick_count by {
        assert(a[j].tick_count <= a[i].tick_count);
    }
    assert forall|j: int| 0 <= j < i implies (#[trigger] b[j]).tick_count < b[i].tick_count by {
        assert(a[j].tick_count < a[i].tick_count);
    }
}

/// Buffer freshness resolver: the slot with the maximum revision wins, ties
/// broken by first-encountered in source order.
pub fn freshest_index(bufs: &Vec<VarBuf>) -> (r: usize)
    requires
        bufs@.len() > 0,
    ensures
        is_first_max(bufs@, r as int),
{
    let mut best: usize = 0;
    let mut i: usize = 1;
    while i < bufs.len()
        invariant
            0 <= best < i <= bufs@.len(),
            forall|j: int| 0 <= j < i ==> (#[trigger] bufs@[j]).tick_count <= bufs@[best as int].tick_count,
            forall|j: int| 0 <= j < best ==> (#[trigger] bufs@[j]).tick_count < bufs@[best as int].tick_count,
        decreases bufs@.len() - i,
    {
        if bufs[i].tick_count > bufs[best].tick_count {
            best = i;
        }
        i = i + 1;
    }
    best
}

/// The variable count declared by the header bytes.
pub open spec fn spec_num_vars(data: Seq<u8>) -> i32 {
    spec_i32_at(data, 24)
}

/// The variable-header table position declared by the header bytes.
pub open spec fn spec_var_header_offset(data: Seq<u8>) -> i32 {
    spec_i32_at(data, 28)
}

/// The raw type code of entry `j` of a variable-header table based at
/// `base`.
pub open spec fn table_entry_code(data: Seq<u8>, base: int, j: int) -> i32 {
    spec_i32_at(data, base + 144 * j)
}

/// The first `k` entries of the table all carry known type codes.
pub open spec fn table_ok_upto(data: Seq<u8>, base: int, k: int) -> bool {
    forall|j: int| 0 <= j < k ==> var_code_ok(#[trigger] table_entry_code(data, base, j))
}

/// The whole declared variable-header table decodes.
pub open spec fn table_all_ok(data: Seq<u8>) -> bool {
    table_ok_upto(data, spec_var_header_offset(data) as int, spec_num_vars(data) as int)
}

/// Entry `k` is the first of the table that is rejected: everything before
/// it decodes, and its own type code is unknown.
pub open spec fn first_bad_entry(data: Seq<u8>, k: int) -> bool {
    &&& 0 <= k < spec_num_vars(data)
    &&& table_ok_upto(data, spec_var_header_offset(data) as int, k)
    &&& !var_code_ok(table_entry_code(data, spec_var_header_offset(data) as int, k))
}

/// The table fails deterministically: only one entry can be the first
/// rejected one, so the unknown-discriminant error a snapshot reports is
/// pinned to a single table entry.
pub proof fn lemma_first_bad_entry_unique(data: Seq<u8>, k1: int, k2: int)
    requires
        first_bad_entry(data, k1),
        first_bad_entry(data, k2),
    ensures
        k1 == k2,
{
    if k1 < k2 {
        assert(var_code_ok(table_entry_code(data, spec_var_header_offset(data) as int, k1)));
    } else if k2 < k1 {
        assert(var_code_ok(table_entry_code(data, spec_var_header_offset(data) as int, k2)));
    }
}

/// The region is large enough for the fixed header and for the
/// variable-header table its own fields declare. The decoders perform no
/// bounds checks of their own (the producer owns the layout), so this is
/// what a caller owes [`decode_snapshot`]; [`check_snapshot_bounds`] decides
/// it at run time.
pub open spec fn snapshot_bounds_ok(data: Seq<u8>) -> bool {
    &&& data.len() >= 112
    &&& 0 <= spec_num_vars(data)
    &&& 0 <= spec_var_header_offset(data)
    &&& spec_var_header_offset(data) + 144 * spec_num_vars(data) <= data.len()
}

/// Decide [`snapshot_bounds_ok`] for a concrete region.
pub fn check_snapshot_bounds(data: &[u8]) -> (r: bool)
    ensures
        r == snapshot_bounds_ok(data@),
{
    if data.len() < 112 {
        return false;
    }
    let mut p = Ptr::new();
    p.set(24);
    let num_vars: i32 = p.read(data);
    let var_header_offset: i32 = p.read(data);
    if num_vars < 0 || var_header_offset < 0 {
        return false;
    }
    (var_header_offset as u64) + 144u64 * (num_vars as u64) <= data.len() as u64
}

/// Decode one snapshot: the fixed header at the region's base, then the
/// declared variable-header table via the transactional path, then the
/// freshness resolution over the rotating buffer slots.
///
/// On success every record is pinned to the bytes it was decoded from and
/// the payload offset is the freshest slot's. The table is decoded in
/// order and the first rejected entry fails the whole snapshot: the result
/// is exactly that entry's unknown-discriminant error, and no error other
/// than an unknown discriminant can come out of this layer.
pub fn decode_snapshot(data: &[u8]) -> (r: Result<Snapshot, Error>)
    requires
        snapshot_bounds_ok(data@),
    ensures
        match r {
            Ok(s) => ({
                &&& s.header.is_decode_of(data@, 0)
                &&& table_all_ok(data@)
                &&& s.var_headers@.len() == spec_num_vars(data@)
                &&& forall|j: int|
                    0 <= j < spec_num_vars(data@) ==> (#[trigger] s.var_headers@[j]).is_decode_of(
                        data@,
                        spec_var_header_offset(data@) + 144 * j,
                    )
                &&& exists|i: int|
                    #[trigger] is_first_max(s.header.var_bufs@, i) && s.payload_offset
                        == s.header.var_bufs@[i].buf_offset
            }),
            Err(e) => ({
                &&& !table_all_ok(data@)
                &&& exists|k: int|
                    #[trigger] first_bad_entry(data@, k) && e == Error::UnknownVarType(
                        table_entry_code(data@, spec_var_header_offset(data@) as int, k),
                    )
            }),
        },
{
    proof {
        region_len_fits(data);
    }
    let mut p = Ptr::new();
    let header: SdkHeader = p.read(data);
    let base = header.var_header_offset;
    let n = header.num_vars as usize;
    let ghost gbase: int = base as int;
    p.set(base as usize);
    let mut var_headers: Vec<VarHeader> = Vec::new();
    let mut i: usize = 0;
    while i < n
        invariant
            snapshot_bounds_ok(data@),
            data@.len() <= usize::MAX,
            gbase == spec_var_header_offset(data@) as int,
            n == spec_num_vars(data@),
            i <= n,
            p.offset == gbase + 144 * i,
            var_headers@.len() == i,
            table_ok_upto(data@, gbase, i as int),
            forall|j: int|
                0 <= j < i ==> (#[trigger] var_headers@[j]).is_decode_of(data@, gbase + 144 * j),
        decreases n - i,
    {
        match p.try_read::<VarHeader>(data) {
            Ok(h) => {
                var_headers.push(h);
            },
            Err(e) => {
                proof {
                    assert(first_bad_entry(data@, i as int));
                    assert(!table_all_ok(data@)) by {
                        if table_all_ok(data@) {
                            assert(var_code_ok(table_entry_code(data@, gbase, i as int)));
                        }
                    }
                }
                return Err(e);
            },
        }
        proof {
            assert(var_code_ok(table_entry_code(data@, gbase, i as int)));
        }
        i = i + 1;
    }
    let idx = freshest_index(&header.var_bufs);
    let payload_offset = header.var_bufs[idx].buf_offset;
    let snap = Snapshot { header, var_headers, payload_offset };
    proof {
        assert(is_first_max(snap.header.var_bufs@, idx as int));
    }
    Ok(snap)
}

/// The value a failed blocking wait on the producer's signal reports.
pub const WAIT_FAILED_CODE: u32 = 0xFFFF_FFFF;

/// The Waiting state's decision: a failed wait on the producer's signal is
/// fatal and surfaces the underlying OS error code; any other wait result
/// means a new snapshot is published and decoding may proceed.
pub fn check_wait(wait_result: u32, os_error: u32) -> (r: Result<(), Error>)
    ensures
        wait_result == WAIT_FAILED_CODE ==> r == Err::<(), Error>(Error::WaitFailed(os_error)),
        wait_result != WAIT_FAILED_CODE ==> r == Ok::<(), Error>(()),
{
    if wait_result == WAIT_FAILED_CODE {
        Err(Error::WaitFailed(os_error))
    } else {
        Ok(())
    }
}

} // verus!
