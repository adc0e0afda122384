//! The GICv3-only device variant and the GIC-block capture/restore engine.
//!
//! A capture flushes the redistributors' pending tables to guest memory,
//! then reads the distributor control register, the distributor block, the
//! redistributor blocks and the CPU-interface blocks, in that order.  A
//! restore writes the control register first — it enables the affinity
//! routing the remaining writes rely on — then the distributor,
//! redistributor and CPU-interface blocks.  Every failing step is reported
//! under an error variant naming the register class and the direction.
//!
//! The caller must have the whole VM paused for the duration of a capture or
//! restore transaction; nothing here enforces or checks that.

use vstd::prelude::*;

use crate::layout;
use crate::snapshot::{
    decode_gicv3_state, encode_gicv3_state, enc_v3, GicError, MigratableError, Snapshot,
    SnapshotDataSection,
};
use crate::regs::{
    dist_attr_vec, dist_attrs, distinct_affinities, icc_offset_vec, icc_offsets,
    lemma_dist_attrs_wf, lemma_per_vcpu_attrs_distinct, per_vcpu_attr_vec, per_vcpu_attrs,
    redist_offset_vec, redist_offsets, GICD_CTLR, GICD_TYPER,
};
use crate::transport::{
    self, lemma_read_after_write32, lemma_write32_prefix_frame, read32_seq, read_block_u32,
    set_device_attribute, save_pending_tables, write32_seq, write_block_u32, GicTransport,
    KVM_DEV_ARM_VGIC_CTRL_INIT, KVM_DEV_ARM_VGIC_GRP_ADDR, KVM_DEV_ARM_VGIC_GRP_CPU_SYSREGS,
    KVM_DEV_ARM_VGIC_GRP_DIST_REGS, KVM_DEV_ARM_VGIC_GRP_REDIST_REGS, KVM_VGIC_V3_ADDR_TYPE_DIST,
    KVM_VGIC_V3_ADDR_TYPE_REDIST,
};

verus! {

/// The kernel device type of a GICv3 distributor/redistributor complex.
pub const KVM_DEV_TYPE_ARM_VGIC_V3: u32 = 7;

/// Errors thrown while saving or restoring the GICv3 register state, one per
/// register class and direction.
#[derive(Clone, Copy, Debug, PartialEq, Eq)]
pub enum Error {
    /// Error in saving the redistributor pending tables to guest memory.
    SavePendingTables(transport::Error),
    /// Error in saving the distributor registers.
    SaveDistributorRegisters(transport::Error),
    /// Error in restoring the distributor registers.
    RestoreDistributorRegisters(transport::Error),
    /// Error in saving the distributor control register.
    SaveDistributorCtrlRegisters(transport::Error),
    /// Error in restoring the distributor control register.
    RestoreDistributorCtrlRegisters(transport::Error),
    /// Error in saving the redistributor registers.
    SaveRedistributorRegisters(transport::Error),
    /// Error in restoring the redistributor registers.
    RestoreRedistributorRegisters(transport::Error),
    /// Error in saving the CPU-interface registers.
    SaveICCRegisters(transport::Error),
    /// Error in restoring the CPU-interface registers.
    RestoreICCRegisters(transport::Error),
}

/// The captured register state of the GIC block.  Field order and widths are
/// the durable migration contract.
#[derive(Clone, Debug, PartialEq, Eq)]
pub struct Gicv3State {
    /// Distributor registers, in enumeration order.
    pub dist: Vec<u32>,
    /// Redistributor registers, per-vCPU blocks concatenated in vCPU order.
    pub rdist: Vec<u32>,
    /// CPU-interface registers, per-vCPU blocks concatenated in vCPU order.
    pub icc: Vec<u32>,
    /// The distributor control register, kept separate because it gates
    /// interrupt delivery and affinity routing and is restored first.
    pub gicd_ctlr: u32,
}

/// The interrupt-line count of the device, in units of 32 lines, as encoded
/// in the low bits of the distributor type register.
pub open spec fn lines_of(m: Map<(u32, u64), u64>) -> u64 {
    ((m[(KVM_DEV_ARM_VGIC_GRP_DIST_REGS, GICD_TYPER)] & 0x1fu64) + 1) as u64
}

/// The line count is always between 1 and 32.
pub proof fn lemma_lines_bounds(m: Map<(u32, u64), u64>)
    ensures
        1 <= lines_of(m) <= 32,
{
    let x = m[(KVM_DEV_ARM_VGIC_GRP_DIST_REGS, GICD_TYPER)];
    assert((x & 0x1fu64) <= 31) by (bit_vector);
}

/// `st` holds exactly what the GIC block of register file `m` reads as,
/// for a device whose redistributor type values are `typers`.
pub open spec fn is_gic_block_capture(
    m: Map<(u32, u64), u64>,
    typers: Seq<u64>,
    st: Gicv3State,
) -> bool {
    &&& m.contains_key((KVM_DEV_ARM_VGIC_GRP_DIST_REGS, GICD_CTLR))
    &&& m.contains_key((KVM_DEV_ARM_VGIC_GRP_DIST_REGS, GICD_TYPER))
    &&& st.gicd_ctlr as u64 == m[(KVM_DEV_ARM_VGIC_GRP_DIST_REGS, GICD_CTLR)] & 0xffff_ffffu64
    &&& st.dist@ == read32_seq(m, KVM_DEV_ARM_VGIC_GRP_DIST_REGS, dist_attrs(lines_of(m)))
    &&& st.rdist@ == read32_seq(
        m,
        KVM_DEV_ARM_VGIC_GRP_REDIST_REGS,
        per_vcpu_attrs(typers, redist_offsets()),
    )
    &&& st.icc@ == read32_seq(
        m,
        KVM_DEV_ARM_VGIC_GRP_CPU_SYSREGS,
        per_vcpu_attrs(typers, icc_offsets()),
    )
}

/// The register file after restoring `st` into `m`: the control register
/// first, then the distributor, redistributor and CPU-interface blocks.
pub open spec fn gic_block_restore_map(
    m: Map<(u32, u64), u64>,
    typers: Seq<u64>,
    st: Gicv3State,
) -> Map<(u32, u64), u64> {
    let m1 = m.insert((KVM_DEV_ARM_VGIC_GRP_DIST_REGS, GICD_CTLR), st.gicd_ctlr as u64);
    let m2 = write32_seq(m1, KVM_DEV_ARM_VGIC_GRP_DIST_REGS, dist_attrs(lines_of(m1)), st.dist@);
    let m3 = write32_seq(
        m2,
        KVM_DEV_ARM_VGIC_GRP_REDIST_REGS,
        per_vcpu_attrs(typers, redist_offsets()),
        st.rdist@,
    );
    write32_seq(m3, KVM_DEV_ARM_VGIC_GRP_CPU_SYSREGS, per_vcpu_attrs(typers, icc_offsets()), st.icc@)
}

/// Read the distributor control register.
pub fn read_ctlr<T: GicTransport>(gic: &mut T) -> (r: Result<u32, transport::Error>)
    ensures
        final(gic).regs() == old(gic).regs(),
        r matches Ok(v) ==> old(gic).regs().contains_key(
            (KVM_DEV_ARM_VGIC_GRP_DIST_REGS, GICD_CTLR),
        ) && v as u64 == old(gic).regs()[(KVM_DEV_ARM_VGIC_GRP_DIST_REGS, GICD_CTLR)]
            & 0xffff_ffffu64,
        r matches Err(e) ==> e is GetDeviceAttribute,
{
    match gic.get_u32(KVM_DEV_ARM_VGIC_GRP_DIST_REGS, GICD_CTLR) {
        Ok(v) => Ok(v),
        Err(e) => Err(transport::Error::GetDeviceAttribute(e)),
    }
}

/// Write the distributor control register.
pub fn write_ctlr<T: GicTransport>(gic: &mut T, val: u32) -> (r: Result<(), transport::Error>)
    ensures
        r is Ok ==> final(gic).regs() == old(gic).regs().insert(
            (KVM_DEV_ARM_VGIC_GRP_DIST_REGS, GICD_CTLR),
            val as u64,
        ),
        r is Err ==> final(gic).regs() == old(gic).regs(),
        r matches Err(e) ==> e is SetDeviceAttribute,
{
    match gic.set_u32(KVM_DEV_ARM_VGIC_GRP_DIST_REGS, GICD_CTLR, val) {
        Ok(()) => Ok(()),
        Err(e) => Err(transport::Error::SetDeviceAttribute(e)),
    }
}

/// The low five bits of a register value survive the 32-bit read.
proof fn lemma_lines_from_read(x: u64, t: u32)
    requires
        t as u64 == x & 0xffff_ffffu64,
    ensures
        (t & 0x1fu32) as u64 == x & 0x1fu64,
        (t & 0x1fu32) <= 31,
{
    assert(((x & 0xffff_ffffu64) & 0x1fu64) == x & 0x1fu64) by (bit_vector);
    let tt = t;
    assert((tt & 0x1fu32) as u64 == (tt as u64) & 0x1fu64 && (tt & 0x1fu32) <= 31)
        by (bit_vector);
}

/// Read the number of 32-line units out of the distributor type register.
fn read_lines<T: GicTransport>(gic: &mut T) -> (r: Result<u64, transport::Error>)
    ensures
        final(gic).regs() == old(gic).regs(),
        r matches Ok(k) ==> old(gic).regs().contains_key(
            (KVM_DEV_ARM_VGIC_GRP_DIST_REGS, GICD_TYPER),
        ) && k == lines_of(old(gic).regs()) && 1 <= k <= 32,
        r matches Err(e) ==> e is GetDeviceAttribute,
{
    match gic.get_u32(KVM_DEV_ARM_VGIC_GRP_DIST_REGS, GICD_TYPER) {
        Ok(t) => {
            proof {
                lemma_lines_from_read(
                    old(gic).regs()[(KVM_DEV_ARM_VGIC_GRP_DIST_REGS, GICD_TYPER)],
                    t,
                );
            }
            Ok(((t & 0x1f) + 1) as u64)
        },
        Err(e) => Err(transport::Error::GetDeviceAttribute(e)),
    }
}

/// Read the distributor registers, sized by the device's type register.
pub fn get_dist_regs<T: GicTransport>(gic: &mut T) -> (r: Result<Vec<u32>, transport::Error>)
    ensures
        final(gic).regs() == old(gic).regs(),
        r matches Ok(v) ==> old(gic).regs().contains_key(
            (KVM_DEV_ARM_VGIC_GRP_DIST_REGS, GICD_TYPER),
        ) && v@ == read32_seq(
            old(gic).regs(),
            KVM_DEV_ARM_VGIC_GRP_DIST_REGS,
            dist_attrs(lines_of(old(gic).regs())),
        ),
{
    let lines = match read_lines(gic) {
        Ok(k) => k,
        Err(e) => {
            return Err(e);
        },
    };
    let attrs = dist_attr_vec(lines);
    match read_block_u32(gic, KVM_DEV_ARM_VGIC_GRP_DIST_REGS, &attrs) {
        Ok(v) => Ok(v),
        Err(e) => Err(transport::Error::GetDeviceAttribute(e)),
    }
}

/// Write the distributor registers, sized by the device's type register.
/// The value list must match the enumeration exactly.
pub fn set_dist_regs<T: GicTransport>(gic: &mut T, state: &Vec<u32>) -> (r: Result<
    (),
    transport::Error,
>)
    ensures
        r is Ok ==> state@.len() == dist_attrs(lines_of(old(gic).regs())).len()
            && final(gic).regs() == write32_seq(
            old(gic).regs(),
            KVM_DEV_ARM_VGIC_GRP_DIST_REGS,
            dist_attrs(lines_of(old(gic).regs())),
            state@,
        ),
{
    let lines = match read_lines(gic) {
        Ok(k) => k,
        Err(e) => {
            return Err(e);
        },
    };
    let attrs = dist_attr_vec(lines);
    match write_block_u32(gic, KVM_DEV_ARM_VGIC_GRP_DIST_REGS, &attrs, state) {
        Ok(()) => Ok(()),
        Err(e) => Err(transport::Error::SetDeviceAttribute(e)),
    }
}

/// Read the redistributor registers of every vCPU, addressed through the
/// redistributor type values.
pub fn get_redist_regs<T: GicTransport>(gic: &mut T, gicr_typers: &Vec<u64>) -> (r: Result<
    Vec<u32>,
    transport::Error,
>)
    ensures
        final(gic).regs() == old(gic).regs(),
        r matches Ok(v) ==> v@ == read32_seq(
            old(gic).regs(),
            KVM_DEV_ARM_VGIC_GRP_REDIST_REGS,
            per_vcpu_attrs(gicr_typers@, redist_offsets()),
        ),
{
    let offs = redist_offset_vec();
    let attrs = per_vcpu_attr_vec(gicr_typers, &offs);
    match read_block_u32(gic, KVM_DEV_ARM_VGIC_GRP_REDIST_REGS, &attrs) {
        Ok(v) => Ok(v),
        Err(e) => Err(transport::Error::GetDeviceAttribute(e)),
    }
}

/// Write the redistributor registers of every vCPU.
pub fn set_redist_regs<T: GicTransport>(
    gic: &mut T,
    gicr_typers: &Vec<u64>,
    state: &Vec<u32>,
) -> (r: Result<(), transport::Error>)
    ensures
        r is Ok ==> state@.len() == per_vcpu_attrs(gicr_typers@, redist_offsets()).len()
            && final(gic).regs() == write32_seq(
            old(gic).regs(),
            KVM_DEV_ARM_VGIC_GRP_REDIST_REGS,
            per_vcpu_attrs(gicr_typers@, redist_offsets()),
            state@,
        ),
{
    let offs = redist_offset_vec();
    let attrs = per_vcpu_attr_vec(gicr_typers, &offs);
    match write_block_u32(gic, KVM_DEV_ARM_VGIC_GRP_REDIST_REGS, &attrs, state) {
        Ok(()) => Ok(()),
        Err(e) => Err(transport::Error::SetDeviceAttribute(e)),
    }
}

/// Read the CPU-interface registers of every vCPU.
pub fn get_icc_regs<T: GicTransport>(gic: &mut T, gicr_typers: &Vec<u64>) -> (r: Result<
    Vec<u32>,
    transport::Error,
>)
    ensures
        final(gic).regs() == old(gic).regs(),
        r matches Ok(v) ==> v@ == read32_seq(
            old(gic).regs(),
            KVM_DEV_ARM_VGIC_GRP_CPU_SYSREGS,
            per_vcpu_attrs(gicr_typers@, icc_offsets()),
        ),
{
    let offs = icc_offset_vec();
    let attrs = per_vcpu_attr_vec(gicr_typers, &offs);
    match read_block_u32(gic, KVM_DEV_ARM_VGIC_GRP_CPU_SYSREGS, &attrs) {
        Ok(v) => Ok(v),
        Err(e) => Err(transport::Error::GetDeviceAttribute(e)),
    }
}

/// Write the CPU-interface registers of every vCPU.
pub fn set_icc_regs<T: GicTransport>(
    gic: &mut T,
    gicr_typers: &Vec<u64>,
    state: &Vec<u32>,
) -> (r: Result<(), transport::Error>)
    ensures
        r is Ok ==> state@.len() == per_vcpu_attrs(gicr_typers@, icc_offsets()).len()
            && final(gic).regs() == write32_seq(
            old(gic).regs(),
            KVM_DEV_ARM_VGIC_GRP_CPU_SYSREGS,
            per_vcpu_attrs(gicr_typers@, icc_offsets()),
            state@,
        ),
{
    let offs = icc_offset_vec();
    let attrs = per_vcpu_attr_vec(gicr_typers, &offs);
    match write_block_u32(gic, KVM_DEV_ARM_VGIC_GRP_CPU_SYSREGS, &attrs, state) {
        Ok(()) => Ok(()),
        Err(e) => Err(transport::Error::SetDeviceAttribute(e)),
    }
}

/// Capture the GIC block: flush pending tables, then read control register,
/// distributor, redistributors and CPU interfaces.  Nothing is returned on
/// failure — a partial record never reaches a restore.
pub fn capture_gic_block<T: GicTransport>(gic: &mut T, gicr_typers: &Vec<u64>) -> (r: Result<
    Gicv3State,
    Error,
>)
    ensures
        final(gic).regs() == old(gic).regs(),
        r matches Ok(st) ==> is_gic_block_capture(old(gic).regs(), gicr_typers@, st),
        r matches Err(e) ==> e is SavePendingTables || e is SaveDistributorCtrlRegisters
            || e is SaveDistributorRegisters || e is SaveRedistributorRegisters
            || e is SaveICCRegisters,
{
    match save_pending_tables(gic) {
        Ok(()) => {},
        Err(e) => {
            return Err(Error::SavePendingTables(e));
        },
    }
    let gicd_ctlr = match read_ctlr(gic) {
        Ok(v) => v,
        Err(e) => {
            return Err(Error::SaveDistributorCtrlRegisters(e));
        },
    };
    let dist = match get_dist_regs(gic) {
        Ok(v) => v,
        Err(e) => {
            return Err(Error::SaveDistributorRegisters(e));
        },
    };
    let rdist = match get_redist_regs(gic, gicr_typers) {
        Ok(v) => v,
        Err(e) => {
            return Err(Error::SaveRedistributorRegisters(e));
        },
    };
    let icc = match get_icc_regs(gic, gicr_typers) {
        Ok(v) => v,
        Err(e) => {
            return Err(Error::SaveICCRegisters(e));
        },
    };
    Ok(Gicv3State { dist, rdist, icc, gicd_ctlr })
}

/// Restore the GIC block: control register first, then distributor,
/// redistributors and CPU interfaces.  On failure the device is left in an
/// undefined intermediate state; the error names the failing class.
pub fn restore_gic_block<T: GicTransport>(
    gic: &mut T,
    gicr_typers: &Vec<u64>,
    state: &Gicv3State,
) -> (r: Result<(), Error>)
    ensures
        r is Ok ==> final(gic).regs() == gic_block_restore_map(
            old(gic).regs(),
            gicr_typers@,
            *state,
        ) && state.dist@.len() == dist_attrs(lines_of(old(gic).regs())).len() && state.rdist@.len()
            == per_vcpu_attrs(gicr_typers@, redist_offsets()).len() && state.icc@.len()
            == per_vcpu_attrs(gicr_typers@, icc_offsets()).len(),
        r matches Err(e) ==> e is RestoreDistributorCtrlRegisters
            || e is RestoreDistributorRegisters || e is RestoreRedistributorRegisters
            || e is RestoreICCRegisters,
{
    match write_ctlr(gic, state.gicd_ctlr) {
        Ok(()) => {},
        Err(e) => {
            return Err(Error::RestoreDistributorCtrlRegisters(e));
        },
    }
    match set_dist_regs(gic, &state.dist) {
        Ok(()) => {},
        Err(e) => {
            return Err(Error::RestoreDistributorRegisters(e));
        },
    }
    match set_redist_regs(gic, gicr_typers, &state.rdist) {
        Ok(()) => {},
        Err(e) => {
            return Err(Error::RestoreRedistributorRegisters(e));
        },
    }
    match set_icc_regs(gic, gicr_typers, &state.icc) {
        Ok(()) => {},
        Err(e) => {
            return Err(Error::RestoreICCRegisters(e));
        },
    }
    Ok(())
}

/// Round trip: restoring a well-shaped record and then capturing reads back
/// exactly that record.  The record must match the device's distributor
/// sizing and vCPU count, and the redistributor type values must carry
/// pairwise-distinct affinities, as the architecture requires.
pub proof fn lemma_gic_block_round_trip(
    m: Map<(u32, u64), u64>,
    typers: Seq<u64>,
    st: Gicv3State,
)
    requires
        distinct_affinities(typers),
        m.contains_key((KVM_DEV_ARM_VGIC_GRP_DIST_REGS, GICD_TYPER)),
        st.dist@.len() == dist_attrs(lines_of(m)).len(),
        st.rdist@.len() == per_vcpu_attrs(typers, redist_offsets()).len(),
        st.icc@.len() == per_vcpu_attrs(typers, icc_offsets()).len(),
    ensures
        is_gic_block_capture(gic_block_restore_map(m, typers, st), typers, st),
        lines_of(gic_block_restore_map(m, typers, st)) == lines_of(m),
{
    let kd = (KVM_DEV_ARM_VGIC_GRP_DIST_REGS, GICD_CTLR);
    let kt = (KVM_DEV_ARM_VGIC_GRP_DIST_REGS, GICD_TYPER);
    let k = lines_of(m);
    lemma_lines_bounds(m);
    lemma_dist_attrs_wf(k);
    crate::regs::lemma_redist_offsets_wf();
    crate::regs::lemma_icc_offsets_wf();
    let da = dist_attrs(k);
    let ra = per_vcpu_attrs(typers, redist_offsets());
    let ia = per_vcpu_attrs(typers, icc_offsets());
    lemma_per_vcpu_attrs_distinct(typers, redist_offsets());
    lemma_per_vcpu_attrs_distinct(typers, icc_offsets());

    let m1 = m.insert(kd, st.gicd_ctlr as u64);
    assert(m1[kt] == m[kt]);
    assert(lines_of(m1) == k);
    let m2 = write32_seq(m1, KVM_DEV_ARM_VGIC_GRP_DIST_REGS, da, st.dist@);
    let m3 = write32_seq(m2, KVM_DEV_ARM_VGIC_GRP_REDIST_REGS, ra, st.rdist@);
    let m4 = write32_seq(m3, KVM_DEV_ARM_VGIC_GRP_CPU_SYSREGS, ia, st.icc@);
    assert(gic_block_restore_map(m, typers, st) == m4);

    assert forall|p: int, q: int| 0 <= p < q < da.len() implies #[trigger] da[p] != #[trigger] da[q]
        by {}

    // The distributor block write touches neither the control nor the type
    // register, and the later writes are in other groups.
    lemma_write32_prefix_frame(
        m1,
        KVM_DEV_ARM_VGIC_GRP_DIST_REGS,
        da,
        st.dist@,
        da.len() as int,
        kt,
    );
    lemma_write32_prefix_frame(
        m1,
        KVM_DEV_ARM_VGIC_GRP_DIST_REGS,
        da,
        st.dist@,
        da.len() as int,
        kd,
    );
    lemma_write32_prefix_frame(m2, KVM_DEV_ARM_VGIC_GRP_REDIST_REGS, ra, st.rdist@, ra.len() as int, kt);
    lemma_write32_prefix_frame(m2, KVM_DEV_ARM_VGIC_GRP_REDIST_REGS, ra, st.rdist@, ra.len() as int, kd);
    lemma_write32_prefix_frame(m3, KVM_DEV_ARM_VGIC_GRP_CPU_SYSREGS, ia, st.icc@, ia.len() as int, kt);
    lemma_write32_prefix_frame(m3, KVM_DEV_ARM_VGIC_GRP_CPU_SYSREGS, ia, st.icc@, ia.len() as int, kd);
    assert(lines_of(m4) == k);
    assert(m4.contains_key(kd));
    assert(m4[kd] == st.gicd_ctlr as u64);
    assert(st.gicd_ctlr as u64 == m4[kd] & 0xffff_ffffu64) by {
        let v = st.gicd_ctlr;
        assert((v as u64) & 0xffff_ffffu64 == v as u64) by (bit_vector);
    }

    // Distributor read-back: written at m2, untouched afterwards.
    lemma_read_after_write32(m1, KVM_DEV_ARM_VGIC_GRP_DIST_REGS, da, st.dist@);
    assert forall|j: int| 0 <= j < da.len() implies m4[(KVM_DEV_ARM_VGIC_GRP_DIST_REGS, #[trigger] da[j])]
        == m2[(KVM_DEV_ARM_VGIC_GRP_DIST_REGS, da[j])] && m4.contains_key(
        (KVM_DEV_ARM_VGIC_GRP_DIST_REGS, da[j]),
    ) by {
        lemma_write32_prefix_frame(
            m2,
            KVM_DEV_ARM_VGIC_GRP_REDIST_REGS,
            ra,
            st.rdist@,
            ra.len() as int,
            (KVM_DEV_ARM_VGIC_GRP_DIST_REGS, da[j]),
        );
        lemma_write32_prefix_frame(
            m3,
            KVM_DEV_ARM_VGIC_GRP_CPU_SYSREGS,
            ia,
            st.icc@,
            ia.len() as int,
            (KVM_DEV_ARM_VGIC_GRP_DIST_REGS, da[j]),
        );
    }
    assert(read32_seq(m4, KVM_DEV_ARM_VGIC_GRP_DIST_REGS, da) =~= st.dist@);

    // Redistributor read-back: written at m3, untouched by the
    // CPU-interface write.
    lemma_read_after_write32(m2, KVM_DEV_ARM_VGIC_GRP_REDIST_REGS, ra, st.rdist@);
    assert forall|j: int| 0 <= j < ra.len() implies m4[(KVM_DEV_ARM_VGIC_GRP_REDIST_REGS, #[trigger] ra[j])]
        == m3[(KVM_DEV_ARM_VGIC_GRP_REDIST_REGS, ra[j])] && m4.contains_key(
        (KVM_DEV_ARM_VGIC_GRP_REDIST_REGS, ra[j]),
    ) by {
        lemma_write32_prefix_frame(
            m3,
            KVM_DEV_ARM_VGIC_GRP_CPU_SYSREGS,
            ia,
            st.icc@,
            ia.len() as int,
            (KVM_DEV_ARM_VGIC_GRP_REDIST_REGS, ra[j]),
        );
    }
    assert(read32_seq(m4, KVM_DEV_ARM_VGIC_GRP_REDIST_REGS, ra) =~= st.rdist@);

    // CPU-interface read-back, directly at m4.
    lemma_read_after_write32(m3, KVM_DEV_ARM_VGIC_GRP_CPU_SYSREGS, ia, st.icc@);
    assert(read32_seq(m4, KVM_DEV_ARM_VGIC_GRP_CPU_SYSREGS, ia) =~= st.icc@);

    assert(dist_attrs(lines_of(m4)) == da);
}

/// Phase of the two-phase device setup protocol.
#[derive(Clone, Copy, Debug, PartialEq, Eq, Structural)]
pub enum SetupPhase {
    /// Freshly constructed; no attribute written yet.
    Created,
    /// Address attributes written; not yet finalized.
    Initialized,
    /// Initialization completed; the device may run.
    Finalized,
}

/// The GICv3-only device variant: one device handle, the per-vCPU
/// redistributor type values, and the vCPU count.  The memory-layout
/// properties are pure functions of the vCPU count and are recomputed on
/// demand, never stored.
pub struct KvmGICv3<T: GicTransport> {
    device: T,
    gicr_typers: Vec<u64>,
    vcpu_count: u64,
    typers_set: bool,
    setup: SetupPhase,
}

impl<T: GicTransport> KvmGICv3<T> {
    /// The device's register file, as modeled by the transport.
    pub closed spec fn regs_of(&self) -> Map<(u32, u64), u64> {
        self.device.regs()
    }

    /// The redistributor type values.
    pub closed spec fn typers(&self) -> Seq<u64> {
        self.gicr_typers@
    }

    /// The vCPU count fixed at construction.
    pub closed spec fn vcpus(&self) -> u64 {
        self.vcpu_count
    }

    /// Whether the type values have been supplied.
    pub closed spec fn typers_ready(&self) -> bool {
        self.typers_set
    }

    /// Where the variant stands in the setup protocol.
    pub closed spec fn phase(&self) -> SetupPhase {
        self.setup
    }

    /// Structural validity: one type value per vCPU, and a vCPU count the
    /// address layout can accommodate.
    pub open spec fn wf(&self) -> bool {
        &&& self.typers().len() == self.vcpus()
        &&& 1 <= self.vcpus() <= layout::MAX_VCPUS
    }

    /// Everything but the device registers is unchanged.
    pub open spec fn same_config(a: Self, b: Self) -> bool {
        &&& a.typers() == b.typers()
        &&& a.vcpus() == b.vcpus()
        &&& a.typers_ready() == b.typers_ready()
        &&& a.phase() == b.phase()
    }

    /// Get the address of the GIC distributor.
    pub fn get_dist_addr() -> (r: u64)
        ensures
            r == layout::spec_dist_addr(),
    {
        layout::get_dist_addr()
    }

    /// Get the size of the GIC distributor.
    pub fn get_dist_size() -> (r: u64)
        ensures
            r == layout::KVM_VGIC_V3_DIST_SIZE,
    {
        layout::get_dist_size()
    }

    /// Get the address of the GIC redistributors.
    pub fn get_redists_addr(vcpu_count: u64) -> (r: u64)
        requires
            1 <= vcpu_count <= layout::MAX_VCPUS,
        ensures
            r == layout::spec_redists_addr(vcpu_count),
    {
        layout::get_redists_addr(vcpu_count)
    }

    /// Get the size of the GIC redistributors.
    pub fn get_redists_size(vcpu_count: u64) -> (r: u64)
        requires
            1 <= vcpu_count <= layout::MAX_VCPUS,
        ensures
            r == layout::spec_redists_size(vcpu_count),
    {
        layout::get_redists_size(vcpu_count)
    }

    /// The kernel device type of this variant.
    pub fn version() -> (r: u32)
        ensures
            r == KVM_DEV_TYPE_ARM_VGIC_V3,
    {
        KVM_DEV_TYPE_ARM_VGIC_V3
    }

    /// Construct the variant around a freshly created device handle, with
    /// zero-initialized redistributor type values.
    pub fn create_device(device: T, vcpu_count: u64) -> (r: Self)
        requires
            1 <= vcpu_count <= layout::MAX_VCPUS,
        ensures
            r.wf(),
            r.vcpus() == vcpu_count,
            r.typers() == Seq::new(vcpu_count as nat, |i: int| 0u64),
            !r.typers_ready(),
            r.phase() == SetupPhase::Created,
            r.regs_of() == device.regs(),
    {
        let mut gicr_typers: Vec<u64> = Vec::new();
        let mut i: u64 = 0;
        while i < vcpu_count
            invariant
                i <= vcpu_count,
                gicr_typers@.len() == i,
                forall|j: int| 0 <= j < i ==> #[trigger] gicr_typers@[j] == 0u64,
            decreases vcpu_count - i,
        {
            gicr_typers.push(0);
            i = i + 1;
        }
        proof {
            assert(gicr_typers@ =~= Seq::new(vcpu_count as nat, |i: int| 0u64));
        }
        KvmGICv3 {
            device,
            gicr_typers,
            vcpu_count,
            typers_set: false,
            setup: SetupPhase::Created,
        }
    }

    /// Write the address attributes the virtualization layer needs before
    /// the device can be finalized: the distributor base, then the
    /// redistributor-region base.  Rejected when driven out of order.
    pub fn init_device_attributes(&mut self) -> (r: Result<(), transport::Error>)
        requires
            old(self).wf(),
        ensures
            final(self).wf(),
            final(self).typers() == old(self).typers(),
            final(self).vcpus() == old(self).vcpus(),
            final(self).typers_ready() == old(self).typers_ready(),
            old(self).phase() != SetupPhase::Created ==> r == Err::<(), transport::Error>(
                transport::Error::InvalidSetupOrder,
            ) && final(self).regs_of() == old(self).regs_of() && final(self).phase() == old(self).phase(),
            old(self).phase() == SetupPhase::Created && r is Ok ==> final(self).phase()
                == SetupPhase::Initialized && final(self).regs_of() == old(self).regs_of().insert(
                (KVM_DEV_ARM_VGIC_GRP_ADDR, KVM_VGIC_V3_ADDR_TYPE_DIST),
                layout::spec_dist_addr() as u64,
            ).insert(
                (KVM_DEV_ARM_VGIC_GRP_ADDR, KVM_VGIC_V3_ADDR_TYPE_REDIST),
                layout::spec_redists_addr(old(self).vcpus()) as u64,
            ),
            old(self).phase() == SetupPhase::Created && r is Err ==> final(self).phase()
                == SetupPhase::Created && (r matches Err(e) && e is SetDeviceAttribute),
    {
        if !matches!(self.setup, SetupPhase::Created) {
            return Err(transport::Error::InvalidSetupOrder);
        }
        let dist_addr = layout::get_dist_addr();
        match set_device_attribute(
            &mut self.device,
            KVM_DEV_ARM_VGIC_GRP_ADDR,
            KVM_VGIC_V3_ADDR_TYPE_DIST,
            dist_addr,
        ) {
            Ok(()) => {},
            Err(e) => {
                return Err(e);
            },
        }
        let redists_addr = layout::get_redists_addr(self.vcpu_count);
        match set_device_attribute(
            &mut self.device,
            KVM_DEV_ARM_VGIC_GRP_ADDR,
            KVM_VGIC_V3_ADDR_TYPE_REDIST,
            redists_addr,
        ) {
            Ok(()) => {},
            Err(e) => {
                return Err(e);
            },
        }
        self.setup = SetupPhase::Initialized;
        Ok(())
    }

    /// Issue the "initialization complete" control operation.  Rejected
    /// unless the address attributes were written first.
    pub fn finalize_device(&mut self) -> (r: Result<(), transport::Error>)
        requires
            old(self).wf(),
        ensures
            final(self).wf(),
            final(self).typers() == old(self).typers(),
            final(self).vcpus() == old(self).vcpus(),
            final(self).typers_ready() == old(self).typers_ready(),
            final(self).regs_of() == old(self).regs_of(),
            old(self).phase() != SetupPhase::Initialized ==> r == Err::<(), transport::Error>(
                transport::Error::InvalidSetupOrder,
            ) && final(self).phase() == old(self).phase(),
            old(self).phase() == SetupPhase::Initialized && r is Ok ==> final(self).phase()
                == SetupPhase::Finalized,
            old(self).phase() == SetupPhase::Initialized && r is Err ==> final(self).phase()
                == SetupPhase::Initialized && (r matches Err(e) && e is SetDeviceAttribute),
    {
        if !matches!(self.setup, SetupPhase::Initialized) {
            return Err(transport::Error::InvalidSetupOrder);
        }
        match self.device.ctrl(KVM_DEV_ARM_VGIC_CTRL_INIT) {
            Ok(()) => {},
            Err(e) => {
                return Err(transport::Error::SetDeviceAttribute(e));
            },
        }
        self.setup = SetupPhase::Finalized;
        Ok(())
    }

    /// Construct the variant and run the two-phase setup protocol.
    pub fn new(device: T, vcpu_count: u64) -> (r: Result<Self, transport::Error>)
        requires
            1 <= vcpu_count <= layout::MAX_VCPUS,
        ensures
            r matches Ok(s) ==> s.wf() && s.vcpus() == vcpu_count && !s.typers_ready()
                && s.phase() == SetupPhase::Finalized && s.typers() == Seq::new(
                vcpu_count as nat,
                |i: int| 0u64,
            ) && s.regs_of() == device.regs().insert(
                (KVM_DEV_ARM_VGIC_GRP_ADDR, KVM_VGIC_V3_ADDR_TYPE_DIST),
                layout::spec_dist_addr() as u64,
            ).insert(
                (KVM_DEV_ARM_VGIC_GRP_ADDR, KVM_VGIC_V3_ADDR_TYPE_REDIST),
                layout::spec_redists_addr(vcpu_count) as u64,
            ),
    {
        let mut s = Self::create_device(device, vcpu_count);
        match s.init_device_attributes() {
            Ok(()) => {},
            Err(e) => {
                return Err(e);
            },
        }
        match s.finalize_device() {
            Ok(()) => {},
            Err(e) => {
                return Err(e);
            },
        }
        Ok(s)
    }

    /// The device handle.
    pub fn device(&self) -> (r: &T)
        ensures
            r.regs() == self.regs_of(),
    {
        &self.device
    }

    /// This variant has no ITS device.
    pub fn its_device(&self) -> (r: Option<&T>)
        ensures
            r is None,
    {
        None
    }

    /// The firmware compatibility string of the GIC block.
    pub fn fdt_compatibility(&self) -> (r: &'static str)
        ensures
            r@ == "arm,gic-v3"@,
    {
        "arm,gic-v3"
    }

    /// The maintenance interrupt number.
    pub fn fdt_maint_irq(&self) -> (r: u32)
        ensures
            r == layout::ARCH_GIC_V3_MAINT_IRQ,
    {
        layout::ARCH_GIC_V3_MAINT_IRQ
    }

    /// This variant delivers no message-signaled interrupts.
    pub fn msi_compatible(&self) -> (r: bool)
        ensures
            !r,
    {
        false
    }

    /// No MSI compatibility string.
    pub fn msi_compatibility(&self) -> (r: &'static str)
        ensures
            r@ == ""@,
    {
        ""
    }

    /// No MSI region.
    pub fn msi_properties(&self) -> (r: Vec<u64>)
        ensures
            r@.len() == 0,
    {
        Vec::new()
    }

    /// The memory-layout properties for firmware description: distributor
    /// base and size, redistributor-region base and size.  Derived from the
    /// vCPU count on every call.
    pub fn device_properties(&self) -> (r: Vec<u64>)
        requires
            self.wf(),
        ensures
            r@.len() == 4,
            r@[0] == layout::spec_dist_addr(),
            r@[1] == layout::KVM_VGIC_V3_DIST_SIZE,
            r@[2] == layout::spec_redists_addr(self.vcpus()),
            r@[3] == layout::spec_redists_size(self.vcpus()),
    {
        let mut v: Vec<u64> = Vec::new();
        v.push(layout::get_dist_addr());
        v.push(layout::get_dist_size());
        v.push(layout::get_redists_addr(self.vcpu_count));
        v.push(layout::get_redists_size(self.vcpu_count));
        v
    }

    /// The number of vCPUs this GIC handles.
    pub fn vcpu_count(&self) -> (r: u64)
        ensures
            r == self.vcpus(),
    {
        self.vcpu_count
    }

    /// Supply the affinity-derived redistributor type values, once, before
    /// any capture or restore.
    pub fn set_gicr_typers(&mut self, gicr_typers: Vec<u64>)
        requires
            old(self).wf(),
            !old(self).typers_ready(),
            gicr_typers@.len() == old(self).vcpus(),
        ensures
            final(self).wf(),
            final(self).typers() == gicr_typers@,
            final(self).typers_ready(),
            final(self).vcpus() == old(self).vcpus(),
            final(self).phase() == old(self).phase(),
            final(self).regs_of() == old(self).regs_of(),
    {
        self.gicr_typers = gicr_typers;
        self.typers_set = true;
    }

    /// Capture the register state.  The caller must have the VM paused.
    pub fn state(&mut self) -> (r: Result<Gicv3State, Error>)
        requires
            old(self).wf(),
            old(self).typers_ready(),
        ensures
            Self::same_config(*final(self), *old(self)),
            final(self).wf(),
            final(self).regs_of() == old(self).regs_of(),
            r matches Ok(st) ==> is_gic_block_capture(old(self).regs_of(), old(self).typers(), st),
            r matches Err(e) ==> e is SavePendingTables || e is SaveDistributorCtrlRegisters
                || e is SaveDistributorRegisters || e is SaveRedistributorRegisters
                || e is SaveICCRegisters,
    {
        capture_gic_block(&mut self.device, &self.gicr_typers)
    }

    /// Restore a previously captured register state.  The caller must have
    /// the VM paused; on failure the device is left in an undefined
    /// intermediate state.
    pub fn set_state(&mut self, state: &Gicv3State) -> (r: Result<(), Error>)
        requires
            old(self).wf(),
            old(self).typers_ready(),
        ensures
            Self::same_config(*final(self), *old(self)),
            final(self).wf(),
            r is Ok ==> final(self).regs_of() == gic_block_restore_map(
                old(self).regs_of(),
                old(self).typers(),
                *state,
            ) && state.dist@.len() == dist_attrs(lines_of(old(self).regs_of())).len()
                && state.rdist@.len() == per_vcpu_attrs(old(self).typers(), redist_offsets()).len()
                && state.icc@.len() == per_vcpu_attrs(old(self).typers(), icc_offsets()).len(),
            r matches Err(e) ==> e is RestoreDistributorCtrlRegisters
                || e is RestoreDistributorRegisters || e is RestoreRedistributorRegisters
                || e is RestoreICCRegisters,
    {
        restore_gic_block(&mut self.device, &self.gicr_typers, state)
    }

    /// The migration identifier of this variant.
    pub fn id(&self) -> (r: String)
        ensures
            r@ == "gic-v3"@,
    {
        "gic-v3".to_owned()
    }

    /// Capture the register state and wrap it, serialized, in a snapshot
    /// holding one section named after this variant.
    pub fn snapshot(&mut self) -> (r: Result<Snapshot, MigratableError>)
        requires
            old(self).wf(),
            old(self).typers_ready(),
        ensures
            Self::same_config(*final(self), *old(self)),
            final(self).wf(),
            final(self).regs_of() == old(self).regs_of(),
            r matches Ok(s) ==> ({
                &&& s.id@ == "gic-v3"@
                &&& s.sections@.len() == 1
                &&& s.sections@[0].id@ == "gic-v3-section"@
                &&& exists|st: Gicv3State|
                    #[trigger] enc_v3(st) == s.sections@[0].snapshot@ && is_gic_block_capture(
                        old(self).regs_of(),
                        old(self).typers(),
                        st,
                    )
            }),
            r matches Err(e) ==> e matches MigratableError::Snapshot(GicError::V3(se)) && (
            se is SavePendingTables || se is SaveDistributorCtrlRegisters
                || se is SaveDistributorRegisters || se is SaveRedistributorRegisters
                || se is SaveICCRegisters),
    {
        let st = match self.state() {
            Ok(st) => st,
            Err(e) => {
                return Err(MigratableError::Snapshot(GicError::V3(e)));
            },
        };
        proof {
            lemma_lines_bounds(self.regs_of());
            crate::regs::lemma_dist_attrs_len(lines_of(self.regs_of()));
            crate::regs::lemma_redist_offsets_wf();
            crate::regs::lemma_icc_offsets_wf();
        }
        let bytes = encode_gicv3_state(&st);
        let mut snap = Snapshot::new("gic-v3");
        snap.add_data_section(
            SnapshotDataSection { id: "gic-v3-section".to_owned(), snapshot: bytes },
        );
        Ok(snap)
    }

    /// Locate this variant's section, deserialize it, and restore the
    /// record.  A missing section and malformed bytes are distinct errors,
    /// and neither touches a register.
    pub fn restore(&mut self, snapshot: Snapshot) -> (r: Result<(), MigratableError>)
        requires
            old(self).wf(),
            old(self).typers_ready(),
        ensures
            Self::same_config(*final(self), *old(self)),
            final(self).wf(),
            r == Err::<(), MigratableError>(MigratableError::SectionNotFound) <==> !crate::snapshot::has_section(
                snapshot,
                "gic-v3-section"@,
            ),
            r == Err::<(), MigratableError>(MigratableError::SectionNotFound) ==> final(self).regs_of() == old(self).regs_of(),
            r == Err::<(), MigratableError>(MigratableError::DeserializeFailed) ==> final(self).regs_of() == old(self).regs_of() && exists|i: int|
                #![auto]
                0 <= i < snapshot.sections@.len() && snapshot.sections@[i].id@
                    == "gic-v3-section"@ && !crate::snapshot::v3_shape_ok(
                    snapshot.sections@[i].snapshot@,
                ),
            crate::snapshot::has_section(snapshot, "gic-v3-section"@) && (forall|i: int|
                0 <= i < snapshot.sections@.len() && (#[trigger] snapshot.sections@[i]).id@
                    == "gic-v3-section"@ ==> !crate::snapshot::v3_shape_ok(
                    snapshot.sections@[i].snapshot@,
                )) ==> r == Err::<(), MigratableError>(MigratableError::DeserializeFailed),
            r matches Err(MigratableError::Restore(g)) ==> g matches GicError::V3(e) && (
            e is RestoreDistributorCtrlRegisters || e is RestoreDistributorRegisters
                || e is RestoreRedistributorRegisters || e is RestoreICCRegisters),
            r matches Err(e) ==> !(e is Snapshot),
            r is Ok ==> exists|i: int, st: Gicv3State|
                #![auto]
                0 <= i < snapshot.sections@.len() && snapshot.sections@[i].id@
                    == "gic-v3-section"@ && snapshot.sections@[i].snapshot@ == enc_v3(st)
                    && final(self).regs_of() == gic_block_restore_map(
                    old(self).regs_of(),
                    old(self).typers(),
                    st,
                ),
    {
        let key: String = "gic-v3-section".to_owned();
        let idx = match snapshot.find_section(&key) {
            Some(i) => i,
            None => {
                return Err(MigratableError::SectionNotFound);
            },
        };
        let st = match decode_gicv3_state(&snapshot.sections[idx].snapshot) {
            Some(st) => st,
            None => {
                return Err(MigratableError::DeserializeFailed);
            },
        };
        match self.set_state(&st) {
            Ok(()) => {},
            Err(e) => {
                return Err(MigratableError::Restore(GicError::V3(e)));
            },
        }
        proof {
            assert((idx as int) < snapshot.sections@.len() && snapshot.sections@[idx as int].id@
                == "gic-v3-section"@ && snapshot.sections@[idx as int].snapshot@ == enc_v3(st)
                && self.regs_of() == gic_block_restore_map(
                old(self).regs_of(),
                old(self).typers(),
                st,
            ));
        }
        Ok(())
    }
}

} // verus!
