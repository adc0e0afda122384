//! The GICv3-with-ITS device variant and its capture/restore engine.
//!
//! A capture handles the GIC block exactly as the plain variant does, then
//! saves the ITS tables to guest memory and reads the ITS registers.  A
//! restore replays the GIC block first, then the ITS block in a fixed plan:
//! the implementer id and the command-queue and table base registers are
//! written, the tables are reloaded from guest memory, and the ITS control
//! register is written strictly last — enabling the ITS before its tables
//! and pointers are in place is architecturally invalid.  The plan is a
//! value of its own, so the ordering is stated and proved over it.

use vstd::prelude::*;

use crate::gicv3::{
    capture_gic_block, gic_block_restore_map, is_gic_block_capture, restore_gic_block, Gicv3State,
    SetupPhase,
};
use crate::layout;
use crate::snapshot::{
    decode_gicv3_its_state, encode_gicv3_its_state, enc_its, GicError, MigratableError, Snapshot,
    SnapshotDataSection,
};
use crate::transport::{
    self, restore_its_tables, save_its_tables, set_device_attribute, GicTransport,
    KVM_DEV_ARM_VGIC_CTRL_INIT, KVM_DEV_ARM_VGIC_GRP_ADDR, KVM_DEV_ARM_VGIC_GRP_ITS_REGS,
    KVM_VGIC_ITS_ADDR_TYPE, KVM_VGIC_V3_ADDR_TYPE_DIST, KVM_VGIC_V3_ADDR_TYPE_REDIST,
};

verus! {

/// The kernel device type of an ITS.
pub const KVM_DEV_TYPE_ARM_VGIC_ITS: u32 = 8;

/// ITS control register offset.
pub const GITS_CTLR: u64 = 0x0000;

/// ITS implementer identification register offset.
pub const GITS_IIDR: u64 = 0x0004;

/// ITS command-queue base register offset.
pub const GITS_CBASER: u64 = 0x0080;

/// ITS command-queue write pointer offset.
pub const GITS_CWRITER: u64 = 0x0088;

/// ITS command-queue read pointer offset.
pub const GITS_CREADR: u64 = 0x0090;

/// First ITS table descriptor register offset; eight of them, eight bytes
/// apart.
pub const GITS_BASER: u64 = 0x0100;

/// Errors thrown while saving or restoring the GICv3-ITS state, one per
/// register and direction; GIC-block failures keep their own class.
#[derive(Clone, Copy, Debug, PartialEq, Eq)]
pub enum Error {
    /// Error in the GIC-block part of a save or restore.
    Gic(crate::gicv3::Error),
    /// Error in saving the ITS implementer id register.
    SaveITSIIDR(transport::Error),
    /// Error in restoring the ITS implementer id register.
    RestoreITSIIDR(transport::Error),
    /// Error in saving the ITS command-queue base register.
    SaveITSCBASER(transport::Error),
    /// Error in restoring the ITS command-queue base register.
    RestoreITSCBASER(transport::Error),
    /// Error in saving the ITS command-queue read pointer.
    SaveITSCREADR(transport::Error),
    /// Error in restoring the ITS command-queue read pointer.
    RestoreITSCREADR(transport::Error),
    /// Error in saving the ITS command-queue write pointer.
    SaveITSCWRITER(transport::Error),
    /// Error in restoring the ITS command-queue write pointer.
    RestoreITSCWRITER(transport::Error),
    /// Error in saving an ITS table descriptor register.
    SaveITSBASER(transport::Error),
    /// Error in restoring an ITS table descriptor register.
    RestoreITSBASER(transport::Error),
    /// Error in saving the ITS control register.
    SaveITSCTLR(transport::Error),
    /// Error in restoring the ITS control register.
    RestoreITSCTLR(transport::Error),
    /// Error in saving the ITS tables to guest memory.
    SaveITSTables(transport::Error),
    /// Error in restoring the ITS tables from guest memory.
    RestoreITSTables(transport::Error),
}

/// The captured register state of a GICv3 with ITS: the GIC block plus the
/// ITS registers.  Field order and widths are the durable migration
/// contract.
#[derive(Clone, Debug, PartialEq, Eq)]
pub struct Gicv3ITSState {
    /// The GIC-block part of the record.
    pub gic: Gicv3State,
    /// ITS control register.
    pub its_ctlr: u64,
    /// ITS implementer id register.
    pub its_iidr: u64,
    /// ITS command-queue base register.
    pub its_cbaser: u64,
    /// ITS command-queue write pointer.
    pub its_cwriter: u64,
    /// ITS command-queue read pointer.
    pub its_creadr: u64,
    /// The eight ITS table descriptor registers.
    pub its_baser: Vec<u64>,
}

/// The attribute of the `i`-th table descriptor register.
pub open spec fn its_baser_attr(i: int) -> u64 {
    (GITS_BASER + 8 * i) as u64
}

/// `st`'s ITS part holds exactly what the ITS register file `mi` reads as.
pub open spec fn is_its_capture(mi: Map<(u32, u64), u64>, st: Gicv3ITSState) -> bool {
    &&& st.its_baser@.len() == 8
    &&& mi.contains_key((KVM_DEV_ARM_VGIC_GRP_ITS_REGS, GITS_CTLR))
    &&& mi.contains_key((KVM_DEV_ARM_VGIC_GRP_ITS_REGS, GITS_IIDR))
    &&& mi.contains_key((KVM_DEV_ARM_VGIC_GRP_ITS_REGS, GITS_CBASER))
    &&& mi.contains_key((KVM_DEV_ARM_VGIC_GRP_ITS_REGS, GITS_CWRITER))
    &&& mi.contains_key((KVM_DEV_ARM_VGIC_GRP_ITS_REGS, GITS_CREADR))
    &&& st.its_ctlr == mi[(KVM_DEV_ARM_VGIC_GRP_ITS_REGS, GITS_CTLR)]
    &&& st.its_iidr == mi[(KVM_DEV_ARM_VGIC_GRP_ITS_REGS, GITS_IIDR)]
    &&& st.its_cbaser == mi[(KVM_DEV_ARM_VGIC_GRP_ITS_REGS, GITS_CBASER)]
    &&& st.its_cwriter == mi[(KVM_DEV_ARM_VGIC_GRP_ITS_REGS, GITS_CWRITER)]
    &&& st.its_creadr == mi[(KVM_DEV_ARM_VGIC_GRP_ITS_REGS, GITS_CREADR)]
    &&& forall|i: int|
        0 <= i < 8 ==> mi.contains_key((KVM_DEV_ARM_VGIC_GRP_ITS_REGS, #[trigger] its_baser_attr(i)))
            && st.its_baser@[i] == mi[(KVM_DEV_ARM_VGIC_GRP_ITS_REGS, its_baser_attr(i))]
}

/// One step of the ITS-block restore plan.
#[derive(Clone, Copy, Debug, PartialEq, Eq, Structural)]
pub enum ItsRestoreStep {
    /// Write the implementer id register.
    WriteIidr,
    /// Write the command-queue base register.
    WriteCbaser,
    /// Write the command-queue read pointer.
    WriteCreadr,
    /// Write the command-queue write pointer.
    WriteCwriter,
    /// Write one table descriptor register.
    WriteBaser(u8),
    /// Reload the ITS tables from guest memory.
    RestoreTables,
    /// Write the control register; always the last step.
    WriteCtlr,
}

/// The fixed ITS-block restore plan: registers and pointers, then the table
/// reload, then — strictly last — the control register.
pub open spec fn its_restore_plan() -> Seq<ItsRestoreStep> {
    seq![
        ItsRestoreStep::WriteIidr,
        ItsRestoreStep::WriteCbaser,
        ItsRestoreStep::WriteCreadr,
        ItsRestoreStep::WriteCwriter,
        ItsRestoreStep::WriteBaser(0),
        ItsRestoreStep::WriteBaser(1),
        ItsRestoreStep::WriteBaser(2),
        ItsRestoreStep::WriteBaser(3),
        ItsRestoreStep::WriteBaser(4),
        ItsRestoreStep::WriteBaser(5),
        ItsRestoreStep::WriteBaser(6),
        ItsRestoreStep::WriteBaser(7),
        ItsRestoreStep::RestoreTables,
        ItsRestoreStep::WriteCtlr,
    ]
}

/// The effect of one restore step on the ITS register file.
pub open spec fn apply_its_step(
    m: Map<(u32, u64), u64>,
    st: Gicv3ITSState,
    step: ItsRestoreStep,
) -> Map<(u32, u64), u64> {
    match step {
        ItsRestoreStep::WriteIidr => m.insert((KVM_DEV_ARM_VGIC_GRP_ITS_REGS, GITS_IIDR), st.its_iidr),
        ItsRestoreStep::WriteCbaser => m.insert(
            (KVM_DEV_ARM_VGIC_GRP_ITS_REGS, GITS_CBASER),
            st.its_cbaser,
        ),
        ItsRestoreStep::WriteCreadr => m.insert(
            (KVM_DEV_ARM_VGIC_GRP_ITS_REGS, GITS_CREADR),
            st.its_creadr,
        ),
        ItsRestoreStep::WriteCwriter => m.insert(
            (KVM_DEV_ARM_VGIC_GRP_ITS_REGS, GITS_CWRITER),
            st.its_cwriter,
        ),
        ItsRestoreStep::WriteBaser(i) => m.insert(
            (KVM_DEV_ARM_VGIC_GRP_ITS_REGS, its_baser_attr(i as int)),
            st.its_baser@[i as int],
        ),
        ItsRestoreStep::RestoreTables => m,
        ItsRestoreStep::WriteCtlr => m.insert((KVM_DEV_ARM_VGIC_GRP_ITS_REGS, GITS_CTLR), st.its_ctlr),
    }
}

/// The register file after the first `n` steps of `steps`.
pub open spec fn apply_its_steps(
    m: Map<(u32, u64), u64>,
    st: Gicv3ITSState,
    steps: Seq<ItsRestoreStep>,
    n: int,
) -> Map<(u32, u64), u64>
    decreases n,
{
    if n <= 0 {
        m
    } else {
        apply_its_step(apply_its_steps(m, st, steps, n - 1), st, steps[n - 1])
    }
}

/// The ITS register file after a full restore of `st`.
pub open spec fn its_restore_map(m: Map<(u32, u64), u64>, st: Gicv3ITSState) -> Map<
    (u32, u64),
    u64,
> {
    apply_its_steps(m, st, its_restore_plan(), its_restore_plan().len() as int)
}

/// The plan spelled out, step by step.
proof fn lemma_plan_elems()
    ensures
        its_restore_plan().len() == 14,
        its_restore_plan()[0] == ItsRestoreStep::WriteIidr,
        its_restore_plan()[1] == ItsRestoreStep::WriteCbaser,
        its_restore_plan()[2] == ItsRestoreStep::WriteCreadr,
        its_restore_plan()[3] == ItsRestoreStep::WriteCwriter,
        its_restore_plan()[4] == ItsRestoreStep::WriteBaser(0),
        its_restore_plan()[5] == ItsRestoreStep::WriteBaser(1),
        its_restore_plan()[6] == ItsRestoreStep::WriteBaser(2),
        its_restore_plan()[7] == ItsRestoreStep::WriteBaser(3),
        its_restore_plan()[8] == ItsRestoreStep::WriteBaser(4),
        its_restore_plan()[9] == ItsRestoreStep::WriteBaser(5),
        its_restore_plan()[10] == ItsRestoreStep::WriteBaser(6),
        its_restore_plan()[11] == ItsRestoreStep::WriteBaser(7),
        its_restore_plan()[12] == ItsRestoreStep::RestoreTables,
        its_restore_plan()[13] == ItsRestoreStep::WriteCtlr,
{
}

/// Ordering law of the ITS restore: the table reload comes strictly after
/// every write of the command-queue base, pointers and table descriptors,
/// and strictly before the control-register write.
pub proof fn lemma_its_restore_order(i: int, j: int, k: int)
    requires
        0 <= i < its_restore_plan().len(),
        0 <= j < its_restore_plan().len(),
        0 <= k < its_restore_plan().len(),
        its_restore_plan()[i] is WriteCbaser || its_restore_plan()[i] is WriteCreadr
            || its_restore_plan()[i] is WriteCwriter || its_restore_plan()[i] is WriteBaser,
        its_restore_plan()[j] is RestoreTables,
        its_restore_plan()[k] is WriteCtlr,
    ensures
        i < j,
        j < k,
{
    lemma_plan_elems();
}

/// Build the restore plan as a value.
pub fn its_restore_steps() -> (v: Vec<ItsRestoreStep>)
    ensures
        v@ == its_restore_plan(),
{
    let v: Vec<ItsRestoreStep> = vec![
        ItsRestoreStep::WriteIidr,
        ItsRestoreStep::WriteCbaser,
        ItsRestoreStep::WriteCreadr,
        ItsRestoreStep::WriteCwriter,
        ItsRestoreStep::WriteBaser(0),
        ItsRestoreStep::WriteBaser(1),
        ItsRestoreStep::WriteBaser(2),
        ItsRestoreStep::WriteBaser(3),
        ItsRestoreStep::WriteBaser(4),
        ItsRestoreStep::WriteBaser(5),
        ItsRestoreStep::WriteBaser(6),
        ItsRestoreStep::WriteBaser(7),
        ItsRestoreStep::RestoreTables,
        ItsRestoreStep::WriteCtlr,
    ];
    assert(v@ =~= its_restore_plan());
    v
}

/// Perform one restore step on the ITS device.
fn exec_its_step<T: GicTransport>(its: &mut T, state: &Gicv3ITSState, step: ItsRestoreStep) -> (r:
    Result<(), Error>)
    requires
        state.its_baser@.len() == 8,
        step matches ItsRestoreStep::WriteBaser(i) ==> i < 8,
    ensures
        r is Ok ==> final(its).regs() == apply_its_step(old(its).regs(), *state, step),
        r is Err ==> final(its).regs() == old(its).regs(),
        r matches Err(e) ==> e is RestoreITSIIDR || e is RestoreITSCBASER || e is RestoreITSCREADR
            || e is RestoreITSCWRITER || e is RestoreITSBASER || e is RestoreITSTables
            || e is RestoreITSCTLR,
{
    match step {
        ItsRestoreStep::WriteIidr => {
            match its.set_u64(KVM_DEV_ARM_VGIC_GRP_ITS_REGS, GITS_IIDR, state.its_iidr) {
                Ok(()) => Ok(()),
                Err(e) => Err(Error::RestoreITSIIDR(transport::Error::SetDeviceAttribute(e))),
            }
        },
        ItsRestoreStep::WriteCbaser => {
            match its.set_u64(KVM_DEV_ARM_VGIC_GRP_ITS_REGS, GITS_CBASER, state.its_cbaser) {
                Ok(()) => Ok(()),
                Err(e) => Err(Error::RestoreITSCBASER(transport::Error::SetDeviceAttribute(e))),
            }
        },
        ItsRestoreStep::WriteCreadr => {
            match its.set_u64(KVM_DEV_ARM_VGIC_GRP_ITS_REGS, GITS_CREADR, state.its_creadr) {
                Ok(()) => Ok(()),
                Err(e) => Err(Error::RestoreITSCREADR(transport::Error::SetDeviceAttribute(e))),
            }
        },
        ItsRestoreStep::WriteCwriter => {
            match its.set_u64(KVM_DEV_ARM_VGIC_GRP_ITS_REGS, GITS_CWRITER, state.its_cwriter) {
                Ok(()) => Ok(()),
                Err(e) => Err(Error::RestoreITSCWRITER(transport::Error::SetDeviceAttribute(e))),
            }
        },
        ItsRestoreStep::WriteBaser(i) => {
            match its.set_u64(
                KVM_DEV_ARM_VGIC_GRP_ITS_REGS,
                GITS_BASER + 8 * (i as u64),
                state.its_baser[i as usize],
            ) {
                Ok(()) => Ok(()),
                Err(e) => Err(Error::RestoreITSBASER(transport::Error::SetDeviceAttribute(e))),
            }
        },
        ItsRestoreStep::RestoreTables => {
            match restore_its_tables(its) {
                Ok(()) => Ok(()),
                Err(e) => Err(Error::RestoreITSTables(e)),
            }
        },
        ItsRestoreStep::WriteCtlr => {
            match its.set_u64(KVM_DEV_ARM_VGIC_GRP_ITS_REGS, GITS_CTLR, state.its_ctlr) {
                Ok(()) => Ok(()),
                Err(e) => Err(Error::RestoreITSCTLR(transport::Error::SetDeviceAttribute(e))),
            }
        },
    }
}

/// Restore the ITS block by executing the plan in order.
pub fn restore_its_block<T: GicTransport>(its: &mut T, state: &Gicv3ITSState) -> (r: Result<
    (),
    Error,
>)
    requires
        state.its_baser@.len() == 8,
    ensures
        r is Ok ==> final(its).regs() == its_restore_map(old(its).regs(), *state),
        r matches Err(e) ==> e is RestoreITSIIDR || e is RestoreITSCBASER || e is RestoreITSCREADR
            || e is RestoreITSCWRITER || e is RestoreITSBASER || e is RestoreITSTables
            || e is RestoreITSCTLR,
{
    let ghost m0 = its.regs();
    let steps = its_restore_steps();
    proof {
        lemma_plan_elems();
    }
    let mut i: usize = 0;
    while i < steps.len()
        invariant
            m0 == old(its).regs(),
            steps@ == its_restore_plan(),
            state.its_baser@.len() == 8,
            i <= steps@.len(),
            its.regs() == apply_its_steps(m0, *state, its_restore_plan(), i as int),
            forall|j: int|
                0 <= j < steps@.len() ==> (#[trigger] steps@[j] matches ItsRestoreStep::WriteBaser(
                    b,
                ) ==> b < 8),
        decreases steps@.len() - i,
    {
        match exec_its_step(its, state, steps[i]) {
            Ok(()) => {},
            Err(e) => {
                return Err(e);
            },
        }
        i = i + 1;
    }
    Ok(())
}

/// Save the ITS tables to guest memory, then read the ITS registers and
/// assemble the full record around an already-captured GIC block.
pub fn capture_its_regs<T: GicTransport>(its: &mut T, gic_part: Gicv3State) -> (r: Result<
    Gicv3ITSState,
    Error,
>)
    ensures
        final(its).regs() == old(its).regs(),
        r matches Ok(st) ==> is_its_capture(old(its).regs(), st) && st.gic == gic_part,
        r matches Err(e) ==> e is SaveITSTables || e is SaveITSBASER || e is SaveITSCTLR
            || e is SaveITSCBASER || e is SaveITSCREADR || e is SaveITSCWRITER || e is SaveITSIIDR,
{
    match save_its_tables(its) {
        Ok(()) => {},
        Err(e) => {
            return Err(Error::SaveITSTables(e));
        },
    }
    let ghost mi = its.regs();
    let mut its_baser: Vec<u64> = Vec::new();
    let mut i: u64 = 0;
    while i < 8
        invariant
            mi == old(its).regs(),
            its.regs() == mi,
            i <= 8,
            its_baser@.len() == i,
            forall|j: int|
                0 <= j < i ==> mi.contains_key(
                    (KVM_DEV_ARM_VGIC_GRP_ITS_REGS, #[trigger] its_baser_attr(j)),
                ) && its_baser@[j] == mi[(KVM_DEV_ARM_VGIC_GRP_ITS_REGS, its_baser_attr(j))],
        decreases 8 - i,
    {
        match its.get_u64(KVM_DEV_ARM_VGIC_GRP_ITS_REGS, GITS_BASER + 8 * i) {
            Ok(v) => {
                its_baser.push(v);
            },
            Err(e) => {
                return Err(Error::SaveITSBASER(transport::Error::GetDeviceAttribute(e)));
            },
        }
        i = i + 1;
    }
    let its_ctlr = match its.get_u64(KVM_DEV_ARM_VGIC_GRP_ITS_REGS, GITS_CTLR) {
        Ok(v) => v,
        Err(e) => {
            return Err(Error::SaveITSCTLR(transport::Error::GetDeviceAttribute(e)));
        },
    };
    let its_cbaser = match its.get_u64(KVM_DEV_ARM_VGIC_GRP_ITS_REGS, GITS_CBASER) {
        Ok(v) => v,
        Err(e) => {
            return Err(Error::SaveITSCBASER(transport::Error::GetDeviceAttribute(e)));
        },
    };
    let its_creadr = match its.get_u64(KVM_DEV_ARM_VGIC_GRP_ITS_REGS, GITS_CREADR) {
        Ok(v) => v,
        Err(e) => {
            return Err(Error::SaveITSCREADR(transport::Error::GetDeviceAttribute(e)));
        },
    };
    let its_cwriter = match its.get_u64(KVM_DEV_ARM_VGIC_GRP_ITS_REGS, GITS_CWRITER) {
        Ok(v) => v,
        Err(e) => {
            return Err(Error::SaveITSCWRITER(transport::Error::GetDeviceAttribute(e)));
        },
    };
    let its_iidr = match its.get_u64(KVM_DEV_ARM_VGIC_GRP_ITS_REGS, GITS_IIDR) {
        Ok(v) => v,
        Err(e) => {
            return Err(Error::SaveITSIIDR(transport::Error::GetDeviceAttribute(e)));
        },
    };
    Ok(
        Gicv3ITSState {
            gic: gic_part,
            its_ctlr,
            its_iidr,
            its_cbaser,
            its_cwriter,
            its_creadr,
            its_baser,
        },
    )
}

/// Round trip of the ITS block: restoring a record and then capturing reads
/// back exactly the record's ITS part.
pub proof fn lemma_its_round_trip(m: Map<(u32, u64), u64>, st: Gicv3ITSState)
    requires
        st.its_baser@.len() == 8,
    ensures
        is_its_capture(its_restore_map(m, st), st),
{
    lemma_plan_elems();
    reveal_with_fuel(apply_its_steps, 15);
    let mm = its_restore_map(m, st);
    assert forall|i: int|
        0 <= i < 8 implies mm.contains_key(
        (KVM_DEV_ARM_VGIC_GRP_ITS_REGS, #[trigger] its_baser_attr(i)),
    ) && st.its_baser@[i] == mm[(KVM_DEV_ARM_VGIC_GRP_ITS_REGS, its_baser_attr(i))] by {
        assert(its_baser_attr(0) == 0x100 && its_baser_attr(1) == 0x108 && its_baser_attr(2)
            == 0x110 && its_baser_attr(3) == 0x118 && its_baser_attr(4) == 0x120 && its_baser_attr(
            5,
        ) == 0x128 && its_baser_attr(6) == 0x130 && its_baser_attr(7) == 0x138);
    }
}

/// The GICv3-with-ITS device variant: the GIC device handle, the ITS device
/// handle, the per-vCPU redistributor type values, and the vCPU count.  The
/// memory-layout properties, including the MSI doorbell frame, are pure
/// functions of the vCPU count.
pub struct KvmGICv3ITS<T: GicTransport> {
    gicv3_device: T,
    gicv3_its_device: T,
    gicr_typers: Vec<u64>,
    vcpu_count: u64,
    typers_set: bool,
    setup: SetupPhase,
}

impl<T: GicTransport> KvmGICv3ITS<T> {
    /// The GIC device's register file.
    pub closed spec fn gic_regs(&self) -> Map<(u32, u64), u64> {
        self.gicv3_device.regs()
    }

    /// The ITS device's register file.
    pub closed spec fn its_regs(&self) -> Map<(u32, u64), u64> {
        self.gicv3_its_device.regs()
    }

    /// The redistributor type values.
    pub closed spec fn typers(&self) -> Seq<u64> {
        self.gicr_typers@
    }

    /// The vCPU count fixed at construction.
    pub closed spec fn vcpus(&self) -> u64 {
        self.vcpu_count
    }

    /// Whether the type values have been supplied.
    pub closed spec fn typers_ready(&self) -> bool {
        self.typers_set
    }

    /// Where the variant stands in the setup protocol.
    pub closed spec fn phase(&self) -> SetupPhase {
        self.setup
    }

    /// Structural validity: one type value per vCPU, and a vCPU count the
    /// address layout can accommodate.
    pub open spec fn wf(&self) -> bool {
        &&& self.typers().len() == self.vcpus()
        &&& 1 <= self.vcpus() <= layout::MAX_VCPUS
    }

    /// Everything but the device registers is unchanged.
    pub open spec fn same_config(a: Self, b: Self) -> bool {
        &&& a.typers() == b.typers()
        &&& a.vcpus() == b.vcpus()
        &&& a.typers_ready() == b.typers_ready()
        &&& a.phase() == b.phase()
    }

    /// Get the size of the ITS MSI doorbell frame.
    pub fn get_msi_size() -> (r: u64)
        ensures
            r == layout::KVM_VGIC_V3_ITS_SIZE,
    {
        layout::get_msi_size()
    }

    /// Get the base address of the ITS MSI doorbell frame: directly below
    /// the redistributor region, so that the three register regions never
    /// overlap.
    pub fn get_msi_addr(vcpu_count: u64) -> (r: u64)
        requires
            1 <= vcpu_count <= layout::MAX_VCPUS,
        ensures
            r == layout::spec_msi_addr(vcpu_count),
    {
        layout::get_msi_addr(vcpu_count)
    }

    /// The kernel device type of the ITS.
    pub fn version() -> (r: u32)
        ensures
            r == KVM_DEV_TYPE_ARM_VGIC_ITS,
    {
        KVM_DEV_TYPE_ARM_VGIC_ITS
    }

    /// Construct the variant around freshly created GIC and ITS device
    /// handles, with zero-initialized redistributor type values.
    pub fn create_device_object(device: T, its_device: T, vcpu_count: u64) -> (r: Self)
        requires
            1 <= vcpu_count <= layout::MAX_VCPUS,
        ensures
            r.wf(),
            r.vcpus() == vcpu_count,
            r.typers() == Seq::new(vcpu_count as nat, |i: int| 0u64),
            !r.typers_ready(),
            r.phase() == SetupPhase::Created,
            r.gic_regs() == device.regs(),
            r.its_regs() == its_device.regs(),
    {
        let mut gicr_typers: Vec<u64> = Vec::new();
        let mut i: u64 = 0;
        while i < vcpu_count
            invariant
                i <= vcpu_count,
                gicr_typers@.len() == i,
                forall|j: int| 0 <= j < i ==> #[trigger] gicr_typers@[j] == 0u64,
            decreases vcpu_count - i,
        {
            gicr_typers.push(0);
            i = i + 1;
        }
        proof {
            assert(gicr_typers@ =~= Seq::new(vcpu_count as nat, |i: int| 0u64));
        }
        KvmGICv3ITS {
            gicv3_device: device,
            gicv3_its_device: its_device,
            gicr_typers,
            vcpu_count,
            typers_set: false,
            setup: SetupPhase::Created,
        }
    }

    /// Write the address attributes: the distributor and redistributor
    /// bases on the GIC device, the MSI doorbell base on the ITS device.
    /// Rejected when driven out of order.
    pub fn init_device_attributes(&mut self) -> (r: Result<(), transport::Error>)
        requires
            old(self).wf(),
        ensures
            final(self).wf(),
            final(self).typers() == old(self).typers(),
            final(self).vcpus() == old(self).vcpus(),
            final(self).typers_ready() == old(self).typers_ready(),
            old(self).phase() != SetupPhase::Created ==> r == Err::<(), transport::Error>(
                transport::Error::InvalidSetupOrder,
            ) && final(self).gic_regs() == old(self).gic_regs() && final(self).its_regs() == old(
                self,
            ).its_regs() && final(self).phase() == old(self).phase(),
            old(self).phase() == SetupPhase::Created && r is Ok ==> final(self).phase()
                == SetupPhase::Initialized && final(self).gic_regs() == old(
                self,
            ).gic_regs().insert(
                (KVM_DEV_ARM_VGIC_GRP_ADDR, KVM_VGIC_V3_ADDR_TYPE_DIST),
                layout::spec_dist_addr() as u64,
            ).insert(
                (KVM_DEV_ARM_VGIC_GRP_ADDR, KVM_VGIC_V3_ADDR_TYPE_REDIST),
                layout::spec_redists_addr(old(self).vcpus()) as u64,
            ) && final(self).its_regs() == old(self).its_regs().insert(
                (KVM_DEV_ARM_VGIC_GRP_ADDR, KVM_VGIC_ITS_ADDR_TYPE),
                layout::spec_msi_addr(old(self).vcpus()) as u64,
            ),
            old(self).phase() == SetupPhase::Created && r is Err ==> final(self).phase()
                == SetupPhase::Created && (r matches Err(e) && e is SetDeviceAttribute),
    {
        if !matches!(self.setup, SetupPhase::Created) {
            return Err(transport::Error::InvalidSetupOrder);
        }
        let dist_addr = layout::get_dist_addr();
        match set_device_attribute(
            &mut self.gicv3_device,
            KVM_DEV_ARM_VGIC_GRP_ADDR,
            KVM_VGIC_V3_ADDR_TYPE_DIST,
            dist_addr,
        ) {
            Ok(()) => {},
            Err(e) => {
                return Err(e);
            },
        }
        let redists_addr = layout::get_redists_addr(self.vcpu_count);
        match set_device_attribute(
            &mut self.gicv3_device,
            KVM_DEV_ARM_VGIC_GRP_ADDR,
            KVM_VGIC_V3_ADDR_TYPE_REDIST,
            redists_addr,
        ) {
            Ok(()) => {},
            Err(e) => {
                return Err(e);
            },
        }
        let msi_addr = layout::get_msi_addr(self.vcpu_count);
        match set_device_attribute(
            &mut self.gicv3_its_device,
            KVM_DEV_ARM_VGIC_GRP_ADDR,
            KVM_VGIC_ITS_ADDR_TYPE,
            msi_addr,
        ) {
            Ok(()) => {},
            Err(e) => {
                return Err(e);
            },
        }
        self.setup = SetupPhase::Initialized;
        Ok(())
    }

    /// Issue the "initialization complete" control operation, first on the
    /// ITS device, then on the GIC device.  Rejected unless the address
    /// attributes were written first.
    pub fn finalize_device(&mut self) -> (r: Result<(), transport::Error>)
        requires
            old(self).wf(),
        ensures
            final(self).wf(),
            final(self).typers() == old(self).typers(),
            final(self).vcpus() == old(self).vcpus(),
            final(self).typers_ready() == old(self).typers_ready(),
            final(self).gic_regs() == old(self).gic_regs(),
            final(self).its_regs() == old(self).its_regs(),
            old(self).phase() != SetupPhase::Initialized ==> r == Err::<(), transport::Error>(
                transport::Error::InvalidSetupOrder,
            ) && final(self).phase() == old(self).phase(),
            old(self).phase() == SetupPhase::Initialized && r is Ok ==> final(self).phase()
                == SetupPhase::Finalized,
            old(self).phase() == SetupPhase::Initialized && r is Err ==> final(self).phase()
                == SetupPhase::Initialized && (r matches Err(e) && e is SetDeviceAttribute),
    {
        if !matches!(self.setup, SetupPhase::Initialized) {
            return Err(transport::Error::InvalidSetupOrder);
        }
        match self.gicv3_its_device.ctrl(KVM_DEV_ARM_VGIC_CTRL_INIT) {
            Ok(()) => {},
            Err(e) => {
                return Err(transport::Error::SetDeviceAttribute(e));
            },
        }
        match self.gicv3_device.ctrl(KVM_DEV_ARM_VGIC_CTRL_INIT) {
            Ok(()) => {},
            Err(e) => {
                return Err(transport::Error::SetDeviceAttribute(e));
            },
        }
        self.setup = SetupPhase::Finalized;
        Ok(())
    }

    /// Construct the variant and run the two-phase setup protocol.
    pub fn new(device: T, its_device: T, vcpu_count: u64) -> (r: Result<Self, transport::Error>)
        requires
            1 <= vcpu_count <= layout::MAX_VCPUS,
        ensures
            r matches Ok(s) ==> s.wf() && s.vcpus() == vcpu_count && !s.typers_ready()
                && s.phase() == SetupPhase::Finalized && s.typers() == Seq::new(
                vcpu_count as nat,
                |i: int| 0u64,
            ),
    {
        let mut s = Self::create_device_object(device, its_device, vcpu_count);
        match s.init_device_attributes() {
            Ok(()) => {},
            Err(e) => {
                return Err(e);
            },
        }
        match s.finalize_device() {
            Ok(()) => {},
            Err(e) => {
                return Err(e);
            },
        }
        Ok(s)
    }

    /// The GIC device handle.
    pub fn device(&self) -> (r: &T)
        ensures
            r.regs() == self.gic_regs(),
    {
        &self.gicv3_device
    }

    /// The ITS device handle.
    pub fn its_device(&self) -> (r: Option<&T>)
        ensures
            r matches Some(d) && d.regs() == self.its_regs(),
    {
        Some(&self.gicv3_its_device)
    }

    /// The firmware compatibility string of the GIC block.
    pub fn fdt_compatibility(&self) -> (r: &'static str)
        ensures
            r@ == "arm,gic-v3"@,
    {
        "arm,gic-v3"
    }

    /// This variant delivers message-signaled interrupts.
    pub fn msi_compatible(&self) -> (r: bool)
        ensures
            r,
    {
        true
    }

    /// The MSI compatibility string of the ITS.
    pub fn msi_compatibility(&self) -> (r: &'static str)
        ensures
            r@ == "arm,gic-v3-its"@,
    {
        "arm,gic-v3-its"
    }

    /// The maintenance interrupt number.
    pub fn fdt_maint_irq(&self) -> (r: u32)
        ensures
            r == layout::ARCH_GIC_V3_MAINT_IRQ,
    {
        layout::ARCH_GIC_V3_MAINT_IRQ
    }

    /// The MSI doorbell region for firmware description: base and size.
    pub fn msi_properties(&self) -> (r: Vec<u64>)
        requires
            self.wf(),
        ensures
            r@.len() == 2,
            r@[0] == layout::spec_msi_addr(self.vcpus()),
            r@[1] == layout::KVM_VGIC_V3_ITS_SIZE,
    {
        let mut v: Vec<u64> = Vec::new();
        v.push(layout::get_msi_addr(self.vcpu_count));
        v.push(layout::get_msi_size());
        v
    }

    /// The memory-layout properties for firmware description: distributor
    /// base and size, redistributor-region base and size.
    pub fn device_properties(&self) -> (r: Vec<u64>)
        requires
            self.wf(),
        ensures
            r@.len() == 4,
            r@[0] == layout::spec_dist_addr(),
            r@[1] == layout::KVM_VGIC_V3_DIST_SIZE,
            r@[2] == layout::spec_redists_addr(self.vcpus()),
            r@[3] == layout::spec_redists_size(self.vcpus()),
    {
        let mut v: Vec<u64> = Vec::new();
        v.push(layout::get_dist_addr());
        v.push(layout::get_dist_size());
        v.push(layout::get_redists_addr(self.vcpu_count));
        v.push(layout::get_redists_size(self.vcpu_count));
        v
    }

    /// The number of vCPUs this GIC handles.
    pub fn vcpu_count(&self) -> (r: u64)
        ensures
            r == self.vcpus(),
    {
        self.vcpu_count
    }

    /// Supply the affinity-derived redistributor type values, once, before
    /// any capture or restore.
    pub fn set_gicr_typers(&mut self, gicr_typers: Vec<u64>)
        requires
            old(self).wf(),
            !old(self).typers_ready(),
            gicr_typers@.len() == old(self).vcpus(),
        ensures
            final(self).wf(),
            final(self).typers() == gicr_typers@,
            final(self).typers_ready(),
            final(self).vcpus() == old(self).vcpus(),
            final(self).phase() == old(self).phase(),
            final(self).gic_regs() == old(self).gic_regs(),
            final(self).its_regs() == old(self).its_regs(),
    {
        self.gicr_typers = gicr_typers;
        self.typers_set = true;
    }

    /// Capture the full register state: the GIC block exactly as the plain
    /// variant, then the ITS tables are saved to guest memory and the ITS
    /// registers are read.  The caller must have the VM paused.
    pub fn state(&mut self) -> (r: Result<Gicv3ITSState, Error>)
        requires
            old(self).wf(),
            old(self).typers_ready(),
        ensures
            Self::same_config(*final(self), *old(self)),
            final(self).wf(),
            final(self).gic_regs() == old(self).gic_regs(),
            final(self).its_regs() == old(self).its_regs(),
            r matches Ok(st) ==> is_gic_block_capture(
                old(self).gic_regs(),
                old(self).typers(),
                st.gic,
            ) && is_its_capture(old(self).its_regs(), st),
            r matches Err(e) ==> (e matches Error::Gic(g) ==> (g is SavePendingTables
                || g is SaveDistributorCtrlRegisters || g is SaveDistributorRegisters
                || g is SaveRedistributorRegisters || g is SaveICCRegisters)) && (e is Gic
                || e is SaveITSTables || e is SaveITSBASER || e is SaveITSCTLR
                || e is SaveITSCBASER || e is SaveITSCREADR || e is SaveITSCWRITER
                || e is SaveITSIIDR),
    {
        let gic_part = match capture_gic_block(&mut self.gicv3_device, &self.gicr_typers) {
            Ok(st) => st,
            Err(e) => {
                return Err(Error::Gic(e));
            },
        };
        capture_its_regs(&mut self.gicv3_its_device, gic_part)
    }

    /// Restore a previously captured register state: the GIC block first,
    /// then the ITS block in its fixed plan, with the control register
    /// strictly last.  The caller must have the VM paused; on failure the
    /// devices are left in an undefined intermediate state.
    pub fn set_state(&mut self, state: &Gicv3ITSState) -> (r: Result<(), Error>)
        requires
            old(self).wf(),
            old(self).typers_ready(),
            state.its_baser@.len() == 8,
        ensures
            Self::same_config(*final(self), *old(self)),
            final(self).wf(),
            r is Ok ==> final(self).gic_regs() == gic_block_restore_map(
                old(self).gic_regs(),
                old(self).typers(),
                state.gic,
            ) && final(self).its_regs() == its_restore_map(old(self).its_regs(), *state)
                && state.gic.dist@.len() == crate::regs::dist_attrs(
                crate::gicv3::lines_of(old(self).gic_regs()),
            ).len() && state.gic.rdist@.len() == crate::regs::per_vcpu_attrs(
                old(self).typers(),
                crate::regs::redist_offsets(),
            ).len() && state.gic.icc@.len() == crate::regs::per_vcpu_attrs(
                old(self).typers(),
                crate::regs::icc_offsets(),
            ).len(),
            r matches Err(e) ==> (e matches Error::Gic(g) ==> (
            g is RestoreDistributorCtrlRegisters || g is RestoreDistributorRegisters
                || g is RestoreRedistributorRegisters || g is RestoreICCRegisters)) && (e is Gic
                || e is RestoreITSIIDR || e is RestoreITSCBASER || e is RestoreITSCREADR
                || e is RestoreITSCWRITER || e is RestoreITSBASER || e is RestoreITSTables
                || e is RestoreITSCTLR),
    {
        match restore_gic_block(&mut self.gicv3_device, &self.gicr_typers, &state.gic) {
            Ok(()) => {},
            Err(e) => {
                return Err(Error::Gic(e));
            },
        }
        restore_its_block(&mut self.gicv3_its_device, state)
    }

    /// The migration identifier of this variant.
    pub fn id(&self) -> (r: String)
        ensures
            r@ == "gic-v3-its"@,
    {
        "gic-v3-its".to_owned()
    }

    /// Capture the register state and wrap it, serialized, in a snapshot
    /// holding one section named after this variant.
    pub fn snapshot(&mut self) -> (r: Result<Snapshot, MigratableError>)
        requires
            old(self).wf(),
            old(self).typers_ready(),
        ensures
            Self::same_config(*final(self), *old(self)),
            final(self).wf(),
            final(self).gic_regs() == old(self).gic_regs(),
            final(self).its_regs() == old(self).its_regs(),
            r matches Ok(s) ==> ({
                &&& s.id@ == "gic-v3-its"@
                &&& s.sections@.len() == 1
                &&& s.sections@[0].id@ == "gic-v3-its-section"@
                &&& exists|st: Gicv3ITSState|
                    #[trigger] enc_its(st) == s.sections@[0].snapshot@ && is_gic_block_capture(
                        old(self).gic_regs(),
                        old(self).typers(),
                        st.gic,
                    ) && is_its_capture(old(self).its_regs(), st)
            }),
            r matches Err(e) ==> e matches MigratableError::Snapshot(GicError::Its(se)) && (
            se matches Error::Gic(g) ==> (g is SavePendingTables
                || g is SaveDistributorCtrlRegisters || g is SaveDistributorRegisters
                || g is SaveRedistributorRegisters || g is SaveICCRegisters)) && (se is Gic
                || se is SaveITSTables || se is SaveITSBASER || se is SaveITSCTLR
                || se is SaveITSCBASER || se is SaveITSCREADR || se is SaveITSCWRITER
                || se is SaveITSIIDR),
    {
        let st = match self.state() {
            Ok(st) => st,
            Err(e) => {
                return Err(MigratableError::Snapshot(GicError::Its(e)));
            },
        };
        proof {
            crate::gicv3::lemma_lines_bounds(self.gic_regs());
            crate::regs::lemma_dist_attrs_len(crate::gicv3::lines_of(self.gic_regs()));
            crate::regs::lemma_redist_offsets_wf();
            crate::regs::lemma_icc_offsets_wf();
        }
        let bytes = encode_gicv3_its_state(&st);
        let mut snap = Snapshot::new("gic-v3-its");
        snap.add_data_section(
            SnapshotDataSection { id: "gic-v3-its-section".to_owned(), snapshot: bytes },
        );
        Ok(snap)
    }

    /// Locate this variant's section, deserialize it, and restore the
    /// record.  A missing section and malformed bytes are distinct errors,
    /// and neither touches a register.
    pub fn restore(&mut self, snapshot: Snapshot) -> (r: Result<(), MigratableError>)
        requires
            old(self).wf(),
            old(self).typers_ready(),
        ensures
            Self::same_config(*final(self), *old(self)),
            final(self).wf(),
            r == Err::<(), MigratableError>(MigratableError::SectionNotFound)
                <==> !crate::snapshot::has_section(snapshot, "gic-v3-its-section"@),
            r == Err::<(), MigratableError>(MigratableError::SectionNotFound) ==> final(self).gic_regs()
                == old(self).gic_regs() && final(self).its_regs() == old(self).its_regs(),
            r == Err::<(), MigratableError>(MigratableError::DeserializeFailed) ==> final(self).gic_regs()
                == old(self).gic_regs() && final(self).its_regs() == old(self).its_regs()
                && exists|i: int|
                #![auto]
                0 <= i < snapshot.sections@.len() && snapshot.sections@[i].id@
                    == "gic-v3-its-section"@ && !crate::snapshot::its_shape_ok(
                    snapshot.sections@[i].snapshot@,
                ),
            crate::snapshot::has_section(snapshot, "gic-v3-its-section"@) && (forall|i: int|
                0 <= i < snapshot.sections@.len() && (#[trigger] snapshot.sections@[i]).id@
                    == "gic-v3-its-section"@ ==> !crate::snapshot::its_shape_ok(
                    snapshot.sections@[i].snapshot@,
                )) ==> r == Err::<(), MigratableError>(MigratableError::DeserializeFailed),
            r matches Err(MigratableError::Restore(g)) ==> g matches GicError::Its(e) && (
            e matches Error::Gic(ge) ==> (ge is RestoreDistributorCtrlRegisters
                || ge is RestoreDistributorRegisters || ge is RestoreRedistributorRegisters
                || ge is RestoreICCRegisters)) && (e is Gic || e is RestoreITSIIDR
                || e is RestoreITSCBASER || e is RestoreITSCREADR || e is RestoreITSCWRITER
                || e is RestoreITSBASER || e is RestoreITSTables || e is RestoreITSCTLR),
            r matches Err(e) ==> !(e is Snapshot),
            r is Ok ==> exists|i: int, st: Gicv3ITSState|
                #![auto]
                0 <= i < snapshot.sections@.len() && snapshot.sections@[i].id@
                    == "gic-v3-its-section"@ && snapshot.sections@[i].snapshot@ == enc_its(st)
                    && final(self).its_regs() == its_restore_map(old(self).its_regs(), st)
                    && final(self).gic_regs() == gic_block_restore_map(
                    old(self).gic_regs(),
                    old(self).typers(),
                    st.gic,
                ),
    {
        let key: String = "gic-v3-its-section".to_owned();
        let idx = match snapshot.find_section(&key) {
            Some(i) => i,
            None => {
                return Err(MigratableError::SectionNotFound);
            },
        };
        let st = match decode_gicv3_its_state(&snapshot.sections[idx].snapshot) {
            Some(st) => st,
            None => {
                return Err(MigratableError::DeserializeFailed);
            },
        };
        match self.set_state(&st) {
            Ok(()) => {},
            Err(e) => {
                return Err(MigratableError::Restore(GicError::Its(e)));
            },
        }
        proof {
            assert((idx as int) < snapshot.sections@.len() && snapshot.sections@[idx as int].id@
                == "gic-v3-its-section"@ && snapshot.sections@[idx as int].snapshot@ == enc_its(st)
                && self.its_regs() == its_restore_map(old(self).its_regs(), st)
                && self.gic_regs() == gic_block_restore_map(
                old(self).gic_regs(),
                old(self).typers(),
                st.gic,
            ));
        }
        Ok(())
    }
}

} // verus!
