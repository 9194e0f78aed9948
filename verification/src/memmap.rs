use vstd::prelude::*;

verus! {

/// Little-endian value of four bytes.
pub open spec fn u32_le(s: Seq<u8>) -> int
    recommends
        s.len() == 4,
{
    s[0] + s[1] * 0x100 + s[2] * 0x10000 + s[3] * 0x1000000
}

/// Little-endian value of eight bytes.
pub open spec fn u64_le(s: Seq<u8>) -> int
    recommends
        s.len() == 8,
{
    s[0] + s[1] * 0x100 + s[2] * 0x10000 + s[3] * 0x1000000 + s[4] * 0x100000000 + s[5]
        * 0x10000000000 + s[6] * 0x1000000000000 + s[7] * 0x100000000000000
}

/// One memory descriptor, read from the snapshot: a contiguous range of
/// physical memory with its type and attributes. Fields are fixed; the
/// record's byte stride in the map is firmware-reported and may be larger.
#[derive(Clone, Copy, Debug, PartialEq, Eq, Structural)]
pub struct MemoryDescriptor {
    pub ty: u32,
    pub phys_start: u64,
    pub virt_start: u64,
    pub page_count: u64,
    pub attribute: u64,
}

/// Bytes a descriptor's fixed fields occupy at the start of each stride.
pub const DESCRIPTOR_BYTES: usize = 40;

/// How many whole descriptor records a map of `total` bytes holds when
/// walked by strides of `stride` bytes. The map's byte length need not be a
/// whole multiple of the stride: the walk stops at the last record that
/// still lies inside the map.
pub open spec fn descriptor_count(total: nat, stride: nat) -> nat {
    if stride == 0 {
        0
    } else {
        total / stride
    }
}

/// Walking by the reported stride never crosses the reported byte length:
/// every record index below the count leaves its whole record, stride
/// included, inside the map.
pub proof fn lemma_walk_in_bounds(total: nat, stride: nat, i: nat)
    requires
        i < descriptor_count(total, stride),
    ensures
        (i + 1) * stride <= total,
        i * stride + DESCRIPTOR_BYTES <= total || stride < DESCRIPTOR_BYTES,
{
    assert((i + 1) * stride <= total) by (nonlinear_arith)
        requires
            stride > 0,
            i < total / stride,
    ;
    assert(i * stride + stride == (i + 1) * stride) by (nonlinear_arith);
}

/// Map invariant for a constructed record: when the region covers the
/// snapshot and the stride covers a descriptor's fields, every record index
/// below the count can be read from the region by walking the stride — no
/// record crosses the snapshot's byte length.
pub proof fn lemma_snapshot_walkable(total: nat, stride: nat, region_len: nat, i: nat)
    requires
        stride >= DESCRIPTOR_BYTES,
        total <= region_len,
        i < descriptor_count(total, stride),
    ensures
        i * stride + DESCRIPTOR_BYTES <= region_len,
{
    lemma_walk_in_bounds(total, stride, i);
}

/// How many whole descriptor records the map holds.
pub fn count_descriptors(total: usize, stride: usize) -> (r: usize)
    ensures
        r == descriptor_count(total as nat, stride as nat),
{
    if stride == 0 {
        0
    } else {
        total / stride
    }
}

/// The byte offset of record `i`, stepped by the reported stride: the
/// restartable cursor of a map walk. Returns nothing once the record would
/// cross the map's byte length, so a walker driven by it stops by offset.
pub fn descriptor_offset(total: usize, stride: usize, i: usize) -> (r: Option<usize>)
    ensures
        i < descriptor_count(total as nat, stride as nat) ==> r == Some((i * stride) as usize),
        i >= descriptor_count(total as nat, stride as nat) ==> r is None,
{
    if stride == 0 {
        return None;
    }
    if i >= total / stride {
        proof {
            assert(i >= descriptor_count(total as nat, stride as nat));
        }
        return None;
    }
    proof {
        lemma_walk_in_bounds(total as nat, stride as nat, i as nat);
        assert(i * stride <= (i + 1) * stride) by (nonlinear_arith)
            requires
                stride >= 0,
        ;
    }
    Some(i * stride)
}

/// Reads the descriptor record starting at byte `offset` of the map: a
/// read-only view of one stride, reinterpreted as the fixed descriptor
/// fields, each little-endian.
pub fn read_descriptor(map: &Vec<u8>, offset: usize) -> (d: MemoryDescriptor)
    requires
        offset + DESCRIPTOR_BYTES <= map@.len(),
    ensures
        d.ty == u32_le(map@.subrange(offset as int, offset + 4)),
        d.phys_start == u64_le(map@.subrange(offset + 8, offset + 16)),
        d.virt_start == u64_le(map@.subrange(offset + 16, offset + 24)),
        d.page_count == u64_le(map@.subrange(offset + 24, offset + 32)),
        d.attribute == u64_le(map@.subrange(offset + 32, offset + 40)),
{
    // Reading the length fixes that it fits in usize, for the offset sums.
    let _map_len: usize = map.len();
    let ty = read_u32_le(map, offset);
    let phys_start = read_u64_le(map, offset + 8);
    let virt_start = read_u64_le(map, offset + 16);
    let page_count = read_u64_le(map, offset + 24);
    let attribute = read_u64_le(map, offset + 32);
    MemoryDescriptor { ty, phys_start, virt_start, page_count, attribute }
}

/// Little-endian read of four bytes at `offset`.
fn read_u32_le(map: &Vec<u8>, offset: usize) -> (r: u32)
    requires
        offset + 4 <= map@.len(),
    ensures
        r == u32_le(map@.subrange(offset as int, offset + 4)),
{
    let _map_len: usize = map.len();
    let b0 = map[offset] as u32;
    let b1 = map[offset + 1] as u32;
    let b2 = map[offset + 2] as u32;
    let b3 = map[offset + 3] as u32;
    let r = b0 + b1 * 0x100 + b2 * 0x10000 + b3 * 0x1000000;
    proof {
        let s = map@.subrange(offset as int, offset + 4);
        assert(s[0] == map@[offset as int] && s[1] == map@[offset + 1] && s[2] == map@[offset + 2]
            && s[3] == map@[offset + 3]);
    }
    r
}

/// Little-endian read of eight bytes at `offset`.
fn read_u64_le(map: &Vec<u8>, offset: usize) -> (r: u64)
    requires
        offset + 8 <= map@.len(),
    ensures
        r == u64_le(map@.subrange(offset as int, offset + 8)),
{
    let _map_len: usize = map.len();
    let b0 = map[offset] as u64;
    let b1 = map[offset + 1] as u64;
    let b2 = map[offset + 2] as u64;
    let b3 = map[offset + 3] as u64;
    let b4 = map[offset + 4] as u64;
    let b5 = map[offset + 5] as u64;
    let b6 = map[offset + 6] as u64;
    let b7 = map[offset + 7] as u64;
    let r = b0 + b1 * 0x100 + b2 * 0x10000 + b3 * 0x1000000 + b4 * 0x100000000 + b5
        * 0x10000000000 + b6 * 0x1000000000000 + b7 * 0x100000000000000;
    proof {
        let s = map@.subrange(offset as int, offset + 8);
        assert(s[0] == map@[offset as int] && s[1] == map@[offset + 1] && s[2] == map@[offset + 2]
            && s[3] == map@[offset + 3] && s[4] == map@[offset + 4] && s[5] == map@[offset + 5]
            && s[6] == map@[offset + 6] && s[7] == map@[offset + 7]);
    }
    r
}

} // verus!
