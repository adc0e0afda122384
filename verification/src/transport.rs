//! Device-attribute transport.
//!
//! Every register of the virtual GIC is reached through a uniform
//! "get/set attribute" operation keyed by a `(group, attribute)` pair, plus a
//! handful of payload-less control operations, exactly as the kernel
//! virtualization ABI exposes them.  The [`GicTransport`] trait captures that
//! interface; its specification models the device as a map from
//! `(group, attribute)` to a 64-bit value.  Control operations act on guest
//! memory (table flushes), never on the attribute-addressable registers, so
//! they leave the model unchanged.
//!
//! The numeric group and attribute identifiers below are part of the wire
//! contract with the kernel virtualization ABI and must not change.

use vstd::prelude::*;

verus! {

/// Address-attribute group: where the register frames live in guest memory.
pub const KVM_DEV_ARM_VGIC_GRP_ADDR: u32 = 0;

/// Distributor register group; the attribute is the byte offset.
pub const KVM_DEV_ARM_VGIC_GRP_DIST_REGS: u32 = 1;

/// Control group for payload-less operations.
pub const KVM_DEV_ARM_VGIC_GRP_CTRL: u32 = 4;

/// Redistributor register group; the attribute carries the target
/// redistributor's affinity in its upper half and the byte offset below.
pub const KVM_DEV_ARM_VGIC_GRP_REDIST_REGS: u32 = 5;

/// CPU-interface system-register group.
pub const KVM_DEV_ARM_VGIC_GRP_CPU_SYSREGS: u32 = 6;

/// ITS register group.
pub const KVM_DEV_ARM_VGIC_GRP_ITS_REGS: u32 = 8;

/// Address-group attribute selecting the distributor base.
pub const KVM_VGIC_V3_ADDR_TYPE_DIST: u64 = 2;

/// Address-group attribute selecting the redistributor-region base.
pub const KVM_VGIC_V3_ADDR_TYPE_REDIST: u64 = 3;

/// Address-group attribute selecting the ITS MSI doorbell base.
pub const KVM_VGIC_ITS_ADDR_TYPE: u64 = 4;

/// Control operation: finish device initialization.
pub const KVM_DEV_ARM_VGIC_CTRL_INIT: u64 = 0;

/// Control operation: save the ITS command-queue and tables to guest memory.
pub const KVM_DEV_ARM_ITS_SAVE_TABLES: u64 = 1;

/// Control operation: restore the ITS command-queue and tables from guest
/// memory.
pub const KVM_DEV_ARM_ITS_RESTORE_TABLES: u64 = 2;

/// Control operation: flush redistributor pending tables to guest memory.
pub const KVM_DEV_ARM_VGIC_SAVE_PENDING_TABLES: u64 = 3;

/// Failure of a single attribute access, carrying the errno-style code the
/// virtualization layer reported.
#[derive(Clone, Copy, Debug, PartialEq, Eq, Structural)]
pub struct AttrError {
    pub code: i32,
}

/// Errors of the device-attribute transport layer.
#[derive(Clone, Copy, Debug, PartialEq, Eq)]
pub enum Error {
    /// The virtualization layer rejected a set-attribute operation.
    SetDeviceAttribute(AttrError),
    /// The virtualization layer rejected a get-attribute operation.
    GetDeviceAttribute(AttrError),
    /// The two-phase device setup protocol was driven out of order.
    InvalidSetupOrder,
}

/// One device handle of the virtualization layer.
///
/// The specification views the device as a total map `regs()` from
/// `(group, attribute)` to the 64-bit register value.  Accesses may always
/// fail (the layer may reject a group/attribute combination); nothing here
/// promises success.  What is promised: reads do not change the device,
/// successful writes update exactly the addressed register, failed writes
/// change nothing, and control operations never change the
/// attribute-addressable state.
pub trait GicTransport: Sized {
    /// The register file as the attribute interface exposes it.
    spec fn regs(&self) -> Map<(u32, u64), u64>;

    /// Read a 32-bit register.
    fn get_u32(&mut self, group: u32, attr: u64) -> (r: Result<u32, AttrError>)
        ensures
            final(self).regs() == old(self).regs(),
            r matches Ok(v) ==> old(self).regs().contains_key((group, attr)) && v as u64
                == old(self).regs()[(group, attr)] & 0xffff_ffffu64,
    ;

    /// Write a 32-bit register.
    fn set_u32(&mut self, group: u32, attr: u64, val: u32) -> (r: Result<(), AttrError>)
        ensures
            r is Ok ==> final(self).regs() == old(self).regs().insert(
                (group, attr),
                val as u64,
            ),
            r is Err ==> final(self).regs() == old(self).regs(),
    ;

    /// Read a 64-bit register.
    fn get_u64(&mut self, group: u32, attr: u64) -> (r: Result<u64, AttrError>)
        ensures
            final(self).regs() == old(self).regs(),
            r matches Ok(v) ==> old(self).regs().contains_key((group, attr)) && v == old(
                self,
            ).regs()[(group, attr)],
    ;

    /// Write a 64-bit register.
    fn set_u64(&mut self, group: u32, attr: u64, val: u64) -> (r: Result<(), AttrError>)
        ensures
            r is Ok ==> final(self).regs() == old(self).regs().insert((group, attr), val),
            r is Err ==> final(self).regs() == old(self).regs(),
    ;

    /// Issue a payload-less control operation (control group).
    fn ctrl(&mut self, attr: u64) -> (r: Result<(), AttrError>)
        ensures
            final(self).regs() == old(self).regs(),
    ;
}

/// The 32-bit values read at `attrs` within `group`.
pub open spec fn read32_seq(m: Map<(u32, u64), u64>, group: u32, attrs: Seq<u64>) -> Seq<u32> {
    Seq::new(attrs.len(), |i: int| (m[(group, attrs[i])] & 0xffff_ffffu64) as u32)
}

/// The register file after writing the first `n` of `vals` at `attrs` within
/// `group`, in order.
pub open spec fn write32_prefix(
    m: Map<(u32, u64), u64>,
    group: u32,
    attrs: Seq<u64>,
    vals: Seq<u32>,
    n: int,
) -> Map<(u32, u64), u64>
    decreases n,
{
    if n <= 0 {
        m
    } else {
        write32_prefix(m, group, attrs, vals, n - 1).insert(
            (group, attrs[n - 1]),
            vals[n - 1] as u64,
        )
    }
}

/// The register file after writing all of `vals` at `attrs` within `group`.
pub open spec fn write32_seq(
    m: Map<(u32, u64), u64>,
    group: u32,
    attrs: Seq<u64>,
    vals: Seq<u32>,
) -> Map<(u32, u64), u64> {
    write32_prefix(m, group, attrs, vals, attrs.len() as int)
}

/// A key written by none of the first `n` attributes is untouched.
pub proof fn lemma_write32_prefix_frame(
    m: Map<(u32, u64), u64>,
    group: u32,
    attrs: Seq<u64>,
    vals: Seq<u32>,
    n: int,
    key: (u32, u64),
)
    requires
        0 <= n <= attrs.len(),
        forall|j: int| 0 <= j < n ==> key != (group, #[trigger] attrs[j]),
    ensures
        write32_prefix(m, group, attrs, vals, n).contains_key(key) == m.contains_key(key),
        m.contains_key(key) ==> write32_prefix(m, group, attrs, vals, n)[key] == m[key],
    decreases n,
{
    if n > 0 {
        lemma_write32_prefix_frame(m, group, attrs, vals, n - 1, key);
    }
}

/// With pairwise-distinct attributes, the block write stores each value at
/// its own attribute.
pub proof fn lemma_write32_prefix_readback(
    m: Map<(u32, u64), u64>,
    group: u32,
    attrs: Seq<u64>,
    vals: Seq<u32>,
    n: int,
    j: int,
)
    requires
        0 <= j < n <= attrs.len(),
        n <= vals.len(),
        forall|p: int, q: int| 0 <= p < q < n ==> #[trigger] attrs[p] != #[trigger] attrs[q],
    ensures
        write32_prefix(m, group, attrs, vals, n).contains_key((group, attrs[j])),
        write32_prefix(m, group, attrs, vals, n)[(group, attrs[j])] == vals[j] as u64,
    decreases n,
{
    if j < n - 1 {
        lemma_write32_prefix_readback(m, group, attrs, vals, n - 1, j);
    }
}

/// Masking a 32-bit value widened to 64 bits gives the value back.
pub proof fn lemma_u32_mask(v: u32)
    ensures
        ((v as u64) & 0xffff_ffffu64) as u32 == v,
{
    assert(((v as u64) & 0xffff_ffffu64) as u32 == v) by (bit_vector);
}

/// Reading a block back after writing it returns exactly the written values,
/// provided the attributes are pairwise distinct.
pub proof fn lemma_read_after_write32(
    m: Map<(u32, u64), u64>,
    group: u32,
    attrs: Seq<u64>,
    vals: Seq<u32>,
)
    requires
        attrs.len() == vals.len(),
        forall|p: int, q: int|
            0 <= p < q < attrs.len() ==> #[trigger] attrs[p] != #[trigger] attrs[q],
    ensures
        read32_seq(write32_seq(m, group, attrs, vals), group, attrs) == vals,
        forall|j: int|
            0 <= j < attrs.len() ==> write32_seq(m, group, attrs, vals).contains_key(
                (group, #[trigger] attrs[j]),
            ),
{
    let mm = write32_seq(m, group, attrs, vals);
    assert forall|j: int| 0 <= j < attrs.len() implies mm.contains_key((group, #[trigger] attrs[j]))
        && read32_seq(mm, group, attrs)[j] == vals[j] by {
        lemma_write32_prefix_readback(m, group, attrs, vals, attrs.len() as int, j);
        lemma_u32_mask(vals[j]);
    }
    assert(read32_seq(mm, group, attrs) =~= vals);
}

/// Read an ordered block of 32-bit registers.
pub fn read_block_u32<T: GicTransport>(dev: &mut T, group: u32, attrs: &Vec<u64>) -> (r: Result<
    Vec<u32>,
    AttrError,
>)
    ensures
        final(dev).regs() == old(dev).regs(),
        r matches Ok(out) ==> out@ == read32_seq(old(dev).regs(), group, attrs@) && forall|j: int|
            0 <= j < attrs@.len() ==> old(dev).regs().contains_key((group, #[trigger] attrs@[j])),
{
    let ghost m0 = dev.regs();
    let mut out: Vec<u32> = Vec::new();
    let mut i: usize = 0;
    while i < attrs.len()
        invariant
            m0 == old(dev).regs(),
            dev.regs() == m0,
            i <= attrs@.len(),
            out@.len() == i,
            forall|j: int|
                0 <= j < i ==> out@[j] == (m0[(group, #[trigger] attrs@[j])]
                    & 0xffff_ffffu64) as u32,
            forall|j: int| 0 <= j < i ==> m0.contains_key((group, #[trigger] attrs@[j])),
        decreases attrs@.len() - i,
    {
        match dev.get_u32(group, attrs[i]) {
            Ok(v) => {
                proof {
                    lemma_u32_mask(v);
                }
                out.push(v);
            },
            Err(e) => {
                return Err(e);
            },
        }
        i = i + 1;
    }
    proof {
        assert(out@ =~= read32_seq(m0, group, attrs@));
    }
    Ok(out)
}

/// Write an ordered block of 32-bit registers.  The value list must be as
/// long as the attribute list; a mismatch is rejected without touching the
/// device.
pub fn write_block_u32<T: GicTransport>(
    dev: &mut T,
    group: u32,
    attrs: &Vec<u64>,
    vals: &Vec<u32>,
) -> (r: Result<(), AttrError>)
    ensures
        r is Ok ==> attrs@.len() == vals@.len() && final(dev).regs() == write32_seq(
            old(dev).regs(),
            group,
            attrs@,
            vals@,
        ),
{
    if attrs.len() != vals.len() {
        return Err(AttrError { code: 22 });
    }
    let ghost m0 = dev.regs();
    let mut i: usize = 0;
    while i < attrs.len()
        invariant
            i <= attrs@.len(),
            attrs@.len() == vals@.len(),
            dev.regs() == write32_prefix(m0, group, attrs@, vals@, i as int),
        decreases attrs@.len() - i,
    {
        match dev.set_u32(group, attrs[i], vals[i]) {
            Ok(()) => {},
            Err(e) => {
                return Err(e);
            },
        }
        i = i + 1;
    }
    Ok(())
}

/// Set a device attribute carrying a 64-bit value.
///
/// Relied on by the device variants for the address-group writes of the
/// two-phase setup protocol.
pub fn set_device_attribute<T: GicTransport>(dev: &mut T, group: u32, attr: u64, val: u64) -> (r:
    Result<(), Error>)
    ensures
        r is Ok ==> final(dev).regs() == old(dev).regs().insert((group, attr), val),
        r is Err ==> final(dev).regs() == old(dev).regs(),
        r matches Err(e) ==> e is SetDeviceAttribute,
{
    match dev.set_u64(group, attr, val) {
        Ok(()) => Ok(()),
        Err(e) => Err(Error::SetDeviceAttribute(e)),
    }
}

/// Get a device attribute carrying a 64-bit value.
pub fn get_device_attribute<T: GicTransport>(dev: &mut T, group: u32, attr: u64) -> (r: Result<
    u64,
    Error,
>)
    ensures
        final(dev).regs() == old(dev).regs(),
        r matches Ok(v) ==> old(dev).regs().contains_key((group, attr)) && v == old(
            dev,
        ).regs()[(group, attr)],
        r matches Err(e) ==> e is GetDeviceAttribute,
{
    match dev.get_u64(group, attr) {
        Ok(v) => Ok(v),
        Err(e) => Err(Error::GetDeviceAttribute(e)),
    }
}

/// Flush the redistributors' pending-interrupt tables into guest memory.
/// Must be issued before the redistributor registers are read for a capture;
/// the caller guarantees the VM is paused.
pub fn save_pending_tables<T: GicTransport>(gic: &mut T) -> (r: Result<(), Error>)
    ensures
        final(gic).regs() == old(gic).regs(),
        r matches Err(e) ==> e is SetDeviceAttribute,
{
    match gic.ctrl(KVM_DEV_ARM_VGIC_SAVE_PENDING_TABLES) {
        Ok(()) => Ok(()),
        Err(e) => Err(Error::SetDeviceAttribute(e)),
    }
}

/// Save the ITS command queue and translation tables into guest memory.
/// Must precede the ITS register reads of a capture.
pub fn save_its_tables<T: GicTransport>(gicv3_its: &mut T) -> (r: Result<(), Error>)
    ensures
        final(gicv3_its).regs() == old(gicv3_its).regs(),
        r matches Err(e) ==> e is SetDeviceAttribute,
{
    match gicv3_its.ctrl(KVM_DEV_ARM_ITS_SAVE_TABLES) {
        Ok(()) => Ok(()),
        Err(e) => Err(Error::SetDeviceAttribute(e)),
    }
}

/// Restore the ITS command queue and translation tables from guest memory.
/// Must follow the BASER/CBASER/CREADR/CWRITER writes of a restore and
/// precede the CTLR write.
pub fn restore_its_tables<T: GicTransport>(gicv3_its: &mut T) -> (r: Result<(), Error>)
    ensures
        final(gicv3_its).regs() == old(gicv3_its).regs(),
        r matches Err(e) ==> e is SetDeviceAttribute,
{
    match gicv3_its.ctrl(KVM_DEV_ARM_ITS_RESTORE_TABLES) {
        Ok(()) => Ok(()),
        Err(e) => Err(Error::SetDeviceAttribute(e)),
    }
}

/// Access one 64-bit register: write `*val` when `set`, else read into `val`.
pub fn gicv3_its_attr_access<T: GicTransport>(
    gicv3_its: &mut T,
    group: u32,
    attr: u32,
    val: &mut u64,
    set: bool,
) -> (r: Result<(), Error>)
    ensures
        set && r is Ok ==> final(gicv3_its).regs() == old(gicv3_its).regs().insert(
            (group, attr as u64),
            *old(val),
        ) && *final(val) == *old(val),
        !set ==> final(gicv3_its).regs() == old(gicv3_its).regs(),
        !set && r is Ok ==> old(gicv3_its).regs().contains_key((group, attr as u64)) && *final(val)
            == old(gicv3_its).regs()[(group, attr as u64)],
        r is Err ==> final(gicv3_its).regs() == old(gicv3_its).regs(),
        r matches Err(e) ==> if set {
            e is SetDeviceAttribute
        } else {
            e is GetDeviceAttribute
        },
{
    if set {
        match gicv3_its.set_u64(group, attr as u64, *val) {
            Ok(()) => Ok(()),
            Err(e) => Err(Error::SetDeviceAttribute(e)),
        }
    } else {
        match gicv3_its.get_u64(group, attr as u64) {
            Ok(v) => {
                *val = v;
                Ok(())
            },
            Err(e) => Err(Error::GetDeviceAttribute(e)),
        }
    }
}

/// Access one 64-bit register through the in/out reference convention of the
/// attribute ABI.
pub fn gic_v3_its_attr_access_64<T: GicTransport>(
    gic_v3_its: &mut T,
    group: u32,
    attr: u32,
    val: &mut u64,
    set: bool,
) -> (r: Result<(), Error>)
    ensures
        set && r is Ok ==> final(gic_v3_its).regs() == old(gic_v3_its).regs().insert(
            (group, attr as u64),
            *old(val),
        ) && *final(val) == *old(val),
        !set ==> final(gic_v3_its).regs() == old(gic_v3_its).regs(),
        !set && r is Ok ==> old(gic_v3_its).regs().contains_key((group, attr as u64)) && *final(val)
            == old(gic_v3_its).regs()[(group, attr as u64)],
        r is Err ==> final(gic_v3_its).regs() == old(gic_v3_its).regs(),
{
    gicv3_its_attr_access(gic_v3_its, group, attr, val, set)
}

/// Access one 32-bit register through the in/out reference convention of the
/// attribute ABI.
pub fn gic_v3_its_attr_access_32<T: GicTransport>(
    gic_v3_its: &mut T,
    group: u32,
    attr: u32,
    val: &mut u32,
    set: bool,
) -> (r: Result<(), Error>)
    ensures
        set && r is Ok ==> final(gic_v3_its).regs() == old(gic_v3_its).regs().insert(
            (group, attr as u64),
            *old(val) as u64,
        ) && *final(val) == *old(val),
        !set ==> final(gic_v3_its).regs() == old(gic_v3_its).regs(),
        !set && r is Ok ==> old(gic_v3_its).regs().contains_key((group, attr as u64)) && *final(val)
            as u64 == old(gic_v3_its).regs()[(group, attr as u64)] & 0xffff_ffffu64,
        r is Err ==> final(gic_v3_its).regs() == old(gic_v3_its).regs(),
{
    if set {
        match gic_v3_its.set_u32(group, attr as u64, *val) {
            Ok(()) => Ok(()),
            Err(e) => Err(Error::SetDeviceAttribute(e)),
        }
    } else {
        match gic_v3_its.get_u32(group, attr as u64) {
            Ok(v) => {
                *val = v;
                Ok(())
            },
            Err(e) => Err(Error::GetDeviceAttribute(e)),
        }
    }
}

} // verus!
