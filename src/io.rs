use vstd::prelude::*;

verus! {

/// System values read or written, one bit per 32-bit slot: `ab` covers
/// addresses below 0x80, `c` those from 0x2c0 to 0x300.
#[derive(Clone, Copy, PartialEq, Eq, Structural, Debug)]
pub struct SysValInfo {
    pub ab: u32,
    pub c: u16,
}

/// Input and output bookkeeping of a vertex, tessellation or geometry
/// shader: which attribute slots are read and written.
#[derive(Clone, Copy, Debug)]
pub struct VtgIoInfo {
    pub sysvals_in: SysValInfo,
    pub sysvals_in_d: u8,
    pub sysvals_out: SysValInfo,
    pub sysvals_out_d: u8,
    pub attr_in: [u32; 4],
    pub attr_out: [u32; 4],
    pub store_req_start: u8,
    pub store_req_end: u8,
    pub clip_enable: u8,
    pub cull_enable: u8,
}

/// Whether bit `i` of `x` is set.
pub open spec fn bit32(x: u32, i: int) -> bool {
    (x >> (i as u32)) & 1 == 1
}

/// Whether an attribute address falls in a range that has bookkeeping:
/// system values, generic attributes, the later system values or the
/// `d` range.
pub open spec fn io_addr_known(a: int) -> bool {
    (0 <= a < 0x280) || (0x2c0 <= a < 0x300) || (0x3a0 <= a < 0x3c0)
}

/// Whether the slot of address `a` is marked in the given bookkeeping.
pub open spec fn io_marked(sv: SysValInfo, d: u8, attr: [u32; 4], a: int) -> bool {
    if 0 <= a < 0x80 {
        bit32(sv.ab, a / 4)
    } else if 0x80 <= a < 0x280 {
        bit32(attr[((a - 0x80) / 4) / 32], ((a - 0x80) / 4) % 32)
    } else if 0x2c0 <= a < 0x300 {
        bit32(sv.c as u32, (a - 0x2c0) / 4)
    } else if 0x3a0 <= a < 0x3c0 {
        bit32(d as u32, (a - 0x3a0) / 4)
    } else {
        false
    }
}

impl VtgIoInfo {
    pub open spec fn spec_written(&self, a: int) -> bool {
        io_marked(self.sysvals_out, self.sysvals_out_d, self.attr_out, a)
    }

    pub open spec fn spec_read(&self, a: int) -> bool {
        io_marked(self.sysvals_in, self.sysvals_in_d, self.attr_in, a)
    }

    /// Whether the slot of output address `addr` was written.
    pub fn attr_written(&self, addr: u16) -> (r: bool)
        requires
            io_addr_known(addr as int),
        ensures
            r == self.spec_written(addr as int),
    {
        if addr < 0x080 {
            (self.sysvals_out.ab >> ((addr / 4) as u32)) & 1 == 1
        } else if addr < 0x280 {
            let idx = ((addr - 0x080) / 4) as usize;
            (self.attr_out[idx / 32] >> ((idx % 32) as u32)) & 1 == 1
        } else if addr < 0x300 {
            ((self.sysvals_out.c as u32) >> (((addr - 0x2c0) / 4) as u32)) & 1 == 1
        } else {
            ((self.sysvals_out_d as u32) >> (((addr - 0x3a0) / 4) as u32)) & 1 == 1
        }
    }

    /// Widens the store request range to the slots of `addrs`.
    pub fn mark_store_req(&mut self, addrs: std::ops::Range<u16>)
        requires
            addrs.start / 4 <= 255,
            1 <= addrs.end,
            (addrs.end - 1) / 4 <= 255,
        ensures
            final(self).store_req_start == if old(self).store_req_start <= addrs.start / 4 {
                old(self).store_req_start
            } else {
                (addrs.start / 4) as u8
            },
            final(self).store_req_end == if old(self).store_req_end >= (addrs.end - 1) / 4 {
                old(self).store_req_end
            } else {
                ((addrs.end - 1) / 4) as u8
            },
            final(self).attr_out == old(self).attr_out,
            final(self).attr_in == old(self).attr_in,
    {
        let s = (addrs.start / 4) as u8;
        let e = ((addrs.end - 1) / 4) as u8;
        if s < self.store_req_start {
            self.store_req_start = s;
        }
        if e > self.store_req_end {
            self.store_req_end = e;
        }
    }
}

/// Setting bit `k` of a word leaves every other bit as it was.
proof fn lemma_set_bit32(x: u32, k: u32, j: u32)
    by (bit_vector)
    requires
        k < 32,
        j < 32,
    ensures
        ((x | (1u32 << k)) >> j) & 1 == 1 <==> ((x >> j) & 1 == 1 || j == k),
{
}

proof fn lemma_set_bit16(x: u16, k: u16, j: u32)
    by (bit_vector)
    requires
        k < 16,
        j < 32,
    ensures
        ((((x | (1u16 << k)) as u16) as u32 >> j) & 1 == 1) <==> (((x as u32 >> j) & 1 == 1) || j == k),
{
}

proof fn lemma_set_bit8(x: u8, k: u8, j: u32)
    by (bit_vector)
    requires
        k < 8,
        j < 32,
    ensures
        ((((x | (1u8 << k)) as u8) as u32 >> j) & 1 == 1) <==> (((x as u32 >> j) & 1 == 1) || j == k),
{
}

/// The start of a marked range: the address rounded down to its slot.
pub open spec fn slot_start(a: int) -> int {
    a / 4 * 4
}

/// The bookkeeping with the slot of `addr` marked; `addr` is a slot start
/// outside the fixed-function colors.
fn mark_one(sv: SysValInfo, d: u8, attr: [u32; 4], addr: u32) -> (r: (SysValInfo, u8, [u32; 4]))
    requires
        addr % 4 == 0,
        !(0x280 <= addr < 0x2c0),
    ensures
        forall|a: int| io_addr_known(a) ==> #[trigger] io_marked(r.0, r.1, r.2, a) == (io_marked(sv, d, attr, a)
            || slot_start(a) == addr),
{
    let mut sv2 = sv;
    let mut d2 = d;
    let mut attr2 = attr;
    if addr < 0x080 {
        let k = addr / 4;
        sv2.ab = sv.ab | (1u32 << k);
        proof {
            assert forall|a: int| io_addr_known(a) implies #[trigger] io_marked(sv2, d2, attr2, a) == (io_marked(sv, d, attr, a)
                || slot_start(a) == addr) by {
                if 0 <= a < 0x80 {
                    lemma_set_bit32(sv.ab, k, (a / 4) as u32);
                }
            }
        }
    } else if addr < 0x280 {
        let idx = ((addr - 0x080) / 4) as usize;
        let w = idx / 32;
        let k = (idx % 32) as u32;
        attr2[w] = attr[w] | (1u32 << k);
        proof {
            assert forall|a: int| io_addr_known(a) implies #[trigger] io_marked(sv2, d2, attr2, a) == (io_marked(sv, d, attr, a)
                || slot_start(a) == addr) by {
                if 0x80 <= a < 0x280 {
                    let ia = (a - 0x80) / 4;
                    if ia / 32 == w {
                        lemma_set_bit32(attr[w as int], k, (ia % 32) as u32);
                    }
                }
            }
        }
    } else if 0x2c0 <= addr && addr < 0x300 {
        let k = ((addr - 0x2c0) / 4) as u16;
        sv2.c = sv.c | (1u16 << k);
        proof {
            assert forall|a: int| io_addr_known(a) implies #[trigger] io_marked(sv2, d2, attr2, a) == (io_marked(sv, d, attr, a)
                || slot_start(a) == addr) by {
                if 0x2c0 <= a < 0x300 {
                    lemma_set_bit16(sv.c, k, ((a - 0x2c0) / 4) as u32);
                }
            }
        }
    } else if 0x3a0 <= addr && addr < 0x3c0 {
        let k = ((addr - 0x3a0) / 4) as u8;
        d2 = d | (1u8 << k);
        proof {
            assert forall|a: int| io_addr_known(a) implies #[trigger] io_marked(sv2, d2, attr2, a) == (io_marked(sv, d, attr, a)
                || slot_start(a) == addr) by {
                if 0x3a0 <= a < 0x3c0 {
                    lemma_set_bit8(d, k, ((a - 0x3a0) / 4) as u32);
                }
            }
        }
    }
    (sv2, d2, attr2)
}

/// The bookkeeping with the slots of `start..end` marked, from the slot
/// of `start` on.
fn mark_range(sv: SysValInfo, d: u8, attr: [u32; 4], start: u16, end: u16) -> (r: (SysValInfo, u8, [u32; 4]))
    requires
        end <= 0x280 || slot_start(start as int) >= 0x2c0 || end as int <= slot_start(start as int),
    ensures
        forall|a: int| io_addr_known(a) ==> #[trigger] io_marked(r.0, r.1, r.2, a) == (io_marked(sv, d, attr, a)
            || (slot_start(start as int) <= slot_start(a) < end)),
{
    let mut cur = (sv, d, attr);
    let s0 = (start / 4 * 4) as u32;
    let mut addr = s0;
    while addr < end as u32
        invariant
            s0 == slot_start(start as int),
            s0 <= addr <= if s0 >= end { s0 as int } else { end as int + 3 },
            addr % 4 == 0,
            end <= 0x280 || s0 >= 0x2c0 || end as int <= s0,
            forall|a: int| io_addr_known(a) ==> #[trigger] io_marked(cur.0, cur.1, cur.2, a) == (io_marked(sv, d, attr, a)
                || (s0 <= slot_start(a) < addr)),
        decreases end as u32 + 4 - addr,
    {
        let prev = cur;
        cur = mark_one(prev.0, prev.1, prev.2, addr);
        proof {
            assert forall|a: int| io_addr_known(a) implies #[trigger] io_marked(cur.0, cur.1, cur.2, a) == (io_marked(sv, d, attr, a)
                || (s0 <= slot_start(a) < addr + 4)) by {
                assert(io_marked(cur.0, cur.1, cur.2, a) == (io_marked(prev.0, prev.1, prev.2, a) || slot_start(a) == addr));
                assert(slot_start(a) % 4 == 0);
            }
        }
        addr = addr + 4;
    }
    cur
}

impl VtgIoInfo {
    /// Marks the input slots of `addrs` as read.
    pub fn mark_attrs_read(&mut self, addrs: std::ops::Range<u16>)
        requires
            addrs.end <= 0x280 || slot_start(addrs.start as int) >= 0x2c0 || addrs.end as int <= slot_start(
                addrs.start as int,
            ),
        ensures
            forall|a: int| io_addr_known(a) ==> #[trigger] final(self).spec_read(a) == (old(self).spec_read(a)
                || (slot_start(addrs.start as int) <= slot_start(a) < addrs.end)),
            final(self).sysvals_out == old(self).sysvals_out,
            final(self).sysvals_out_d == old(self).sysvals_out_d,
            final(self).attr_out == old(self).attr_out,
    {
        let r = mark_range(self.sysvals_in, self.sysvals_in_d, self.attr_in, addrs.start, addrs.end);
        self.sysvals_in = r.0;
        self.sysvals_in_d = r.1;
        self.attr_in = r.2;
    }

    /// Marks the output slots of `addrs` as written.
    pub fn mark_attrs_written(&mut self, addrs: std::ops::Range<u16>)
        requires
            addrs.end <= 0x280 || slot_start(addrs.start as int) >= 0x2c0 || addrs.end as int <= slot_start(
                addrs.start as int,
            ),
        ensures
            forall|a: int| io_addr_known(a) ==> #[trigger] final(self).spec_written(a) == (old(self).spec_written(a)
                || (slot_start(addrs.start as int) <= slot_start(a) < addrs.end)),
            final(self).sysvals_in == old(self).sysvals_in,
            final(self).sysvals_in_d == old(self).sysvals_in_d,
            final(self).attr_in == old(self).attr_in,
    {
        let r = mark_range(self.sysvals_out, self.sysvals_out_d, self.attr_out, addrs.start, addrs.end);
        self.sysvals_out = r.0;
        self.sysvals_out_d = r.1;
        self.attr_out = r.2;
    }
}

} // verus!
