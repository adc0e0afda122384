//! An in-memory device implementing the attribute transport.
//!
//! [`MemTransport`] is a register-file model: every `(group, attribute)` pair
//! reads as zero until written.  It records every operation it is asked to
//! perform, in order, and can be armed to reject one chosen attribute, so a
//! harness can observe the exact operation sequence of a capture or restore
//! and drive its failure paths.

use vstd::prelude::*;

use crate::transport::{AttrError, GicTransport, KVM_DEV_ARM_VGIC_GRP_CTRL};

verus! {

/// One stored register value.
#[derive(Clone, Copy, Debug)]
pub struct RegCell {
    pub group: u32,
    pub attr: u64,
    pub val: u64,
}

/// The operation kinds a device can be asked to perform.
#[derive(Clone, Copy, Debug, PartialEq, Eq)]
pub enum OpKind {
    Get32,
    Set32,
    Get64,
    Set64,
    Ctrl,
}

/// One recorded operation.  For control operations `attr` is the control
/// attribute and `val` is zero; for reads `val` is zero.
#[derive(Clone, Copy, Debug)]
pub struct OpRecord {
    pub kind: OpKind,
    pub group: u32,
    pub attr: u64,
    pub val: u64,
}

/// The register file described by a store of cells: zero everywhere, with
/// later cells shadowing earlier ones.
pub open spec fn cells_map(s: Seq<RegCell>) -> Map<(u32, u64), u64>
    decreases s.len(),
{
    if s.len() == 0 {
        Map::new(|k: (u32, u64)| true, |k: (u32, u64)| 0u64)
    } else {
        cells_map(s.drop_last()).insert((s.last().group, s.last().attr), s.last().val)
    }
}

/// Every key is in the domain of the modeled register file.
pub proof fn lemma_cells_map_total(s: Seq<RegCell>, key: (u32, u64))
    ensures
        cells_map(s).contains_key(key),
    decreases s.len(),
{
    if s.len() > 0 {
        lemma_cells_map_total(s.drop_last(), key);
    }
}

/// The latest matching cell gives the value of its key.
proof fn lemma_cells_map_found(s: Seq<RegCell>, key: (u32, u64), i: int)
    requires
        0 <= i < s.len(),
        (s[i].group, s[i].attr) == key,
        forall|j: int| i < j < s.len() ==> (#[trigger] s[j].group, s[j].attr) != key,
    ensures
        cells_map(s)[key] == s[i].val,
    decreases s.len(),
{
    if i == s.len() - 1 {
    } else {
        lemma_cells_map_found(s.drop_last(), key, i);
    }
}

/// A key no cell matches reads as zero.
proof fn lemma_cells_map_missing(s: Seq<RegCell>, key: (u32, u64))
    requires
        forall|j: int| 0 <= j < s.len() ==> (#[trigger] s[j].group, s[j].attr) != key,
    ensures
        cells_map(s)[key] == 0,
    decreases s.len(),
{
    if s.len() > 0 {
        lemma_cells_map_missing(s.drop_last(), key);
    }
}

/// Truncating a masked 64-bit value and widening it back changes nothing.
proof fn lemma_mask_trunc(x: u64)
    ensures
        ((x & 0xffff_ffffu64) as u32) as u64 == x & 0xffff_ffffu64,
{
    assert(((x & 0xffff_ffffu64) as u32) as u64 == x & 0xffff_ffffu64) by (bit_vector);
}

/// An in-memory recording device.
pub struct MemTransport {
    pub cells: Vec<RegCell>,
    /// Every operation asked of this device, oldest first.
    pub log: Vec<OpRecord>,
    pub fail_group: u32,
    pub fail_attr: u64,
    pub fail_armed: bool,
}

impl MemTransport {
    /// A fresh device: every register reads as zero, nothing recorded, no
    /// failure armed.
    pub fn new() -> (r: MemTransport)
        ensures
            forall|k: (u32, u64)| r.regs().contains_key(k) && r.regs()[k] == 0,
            r.log@.len() == 0,
    {
        let r = MemTransport {
            cells: Vec::new(),
            log: Vec::new(),
            fail_group: 0,
            fail_attr: 0,
            fail_armed: false,
        };
        proof {
            assert forall|k: (u32, u64)| r.regs().contains_key(k) && r.regs()[k] == 0 by {
                lemma_cells_map_total(r.cells@, k);
            }
        }
        r
    }

    /// Seed one register without recording an operation.
    pub fn preset(&mut self, group: u32, attr: u64, val: u64)
        ensures
            final(self).regs() == old(self).regs().insert((group, attr), val),
            final(self).log@ == old(self).log@,
    {
        let ghost s0 = self.cells@;
        self.cells.push(RegCell { group, attr, val });
        proof {
            assert(self.cells@.drop_last() =~= s0);
        }
    }

    /// Arm the device to reject every access to `(group, attr)`; control
    /// operations carry the control group.
    pub fn arm_failure(&mut self, group: u32, attr: u64)
        ensures
            final(self).regs() == old(self).regs(),
            final(self).log@ == old(self).log@,
    {
        self.fail_group = group;
        self.fail_attr = attr;
        self.fail_armed = true;
    }

    /// Whether an armed failure hits `(group, attr)`.
    fn hits_failure(&self, group: u32, attr: u64) -> (r: bool)
        ensures
            r == (self.fail_armed && self.fail_group == group && self.fail_attr == attr),
    {
        self.fail_armed && self.fail_group == group && self.fail_attr == attr
    }

    /// Read the current value of one register.
    fn lookup(&self, group: u32, attr: u64) -> (r: u64)
        ensures
            r == self.regs()[(group, attr)],
    {
        let mut i: usize = self.cells.len();
        while i > 0
            invariant
                i <= self.cells@.len(),
                forall|j: int|
                    i <= j < self.cells@.len() ==> (#[trigger] self.cells@[j].group,
                    self.cells@[j].attr) != (group, attr),
            decreases i,
        {
            i = i - 1;
            let c = self.cells[i];
            if c.group == group && c.attr == attr {
                proof {
                    lemma_cells_map_found(self.cells@, (group, attr), i as int);
                }
                return c.val;
            }
        }
        proof {
            lemma_cells_map_missing(self.cells@, (group, attr));
        }
        0
    }
}

impl GicTransport for MemTransport {
    open spec fn regs(&self) -> Map<(u32, u64), u64> {
        cells_map(self.cells@)
    }

    fn get_u32(&mut self, group: u32, attr: u64) -> (r: Result<u32, AttrError>) {
        self.log.push(OpRecord { kind: OpKind::Get32, group, attr, val: 0 });
        if self.hits_failure(group, attr) {
            return Err(AttrError { code: 22 });
        }
        let v = self.lookup(group, attr);
        proof {
            lemma_cells_map_total(self.cells@, (group, attr));
            lemma_mask_trunc(v);
        }
        Ok((v & 0xffff_ffffu64) as u32)
    }

    fn set_u32(&mut self, group: u32, attr: u64, val: u32) -> (r: Result<(), AttrError>) {
        self.log.push(OpRecord { kind: OpKind::Set32, group, attr, val: val as u64 });
        if self.hits_failure(group, attr) {
            return Err(AttrError { code: 22 });
        }
        let ghost s0 = self.cells@;
        self.cells.push(RegCell { group, attr, val: val as u64 });
        proof {
            assert(self.cells@.drop_last() =~= s0);
        }
        Ok(())
    }

    fn get_u64(&mut self, group: u32, attr: u64) -> (r: Result<u64, AttrError>) {
        self.log.push(OpRecord { kind: OpKind::Get64, group, attr, val: 0 });
        if self.hits_failure(group, attr) {
            return Err(AttrError { code: 22 });
        }
        let v = self.lookup(group, attr);
        proof {
            lemma_cells_map_total(self.cells@, (group, attr));
        }
        Ok(v)
    }

    fn set_u64(&mut self, group: u32, attr: u64, val: u64) -> (r: Result<(), AttrError>) {
        self.log.push(OpRecord { kind: OpKind::Set64, group, attr, val });
        if self.hits_failure(group, attr) {
            return Err(AttrError { code: 22 });
        }
        let ghost s0 = self.cells@;
        self.cells.push(RegCell { group, attr, val });
        proof {
            assert(self.cells@.drop_last() =~= s0);
        }
        Ok(())
    }

    fn ctrl(&mut self, attr: u64) -> (r: Result<(), AttrError>) {
        self.log.push(OpRecord { kind: OpKind::Ctrl, group: KVM_DEV_ARM_VGIC_GRP_CTRL, attr, val: 0 });
        if self.hits_failure(KVM_DEV_ARM_VGIC_GRP_CTRL, attr) {
            return Err(AttrError { code: 22 });
        }
        Ok(())
    }
}

} // verus!
