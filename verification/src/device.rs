//! The uniform device-variant abstraction.
//!
//! The rest of a virtual-machine monitor treats "GICv3" and "GICv3 with
//! ITS" uniformly; here that is a tagged sum over the two variants, with
//! each shared operation dispatched by a match.  The pause/resume hooks of
//! the migration framework's capability set are deliberately empty: pausing
//! the controller needs nothing beyond what the caller already guarantees
//! for a capture or restore transaction.

use vstd::prelude::*;

use crate::gicv3::KvmGICv3;
use crate::gicv3_its::KvmGICv3ITS;
use crate::snapshot::{MigratableError, Snapshot};
use crate::transport::{self, GicTransport};
use crate::layout;

verus! {

/// A virtual GIC of either variant.
pub enum GICDevice<T: GicTransport> {
    /// A plain GICv3.
    V3(KvmGICv3<T>),
    /// A GICv3 with an ITS.
    V3Its(KvmGICv3ITS<T>),
}

impl<T: GicTransport> GICDevice<T> {
    /// Structural validity of the wrapped variant.
    pub open spec fn wf(&self) -> bool {
        match self {
            GICDevice::V3(g) => g.wf(),
            GICDevice::V3Its(g) => g.wf(),
        }
    }

    /// Whether the redistributor type values have been supplied.
    pub open spec fn typers_ready(&self) -> bool {
        match self {
            GICDevice::V3(g) => g.typers_ready(),
            GICDevice::V3Its(g) => g.typers_ready(),
        }
    }

    /// The vCPU count of the wrapped variant.
    pub open spec fn vcpus(&self) -> u64 {
        match self {
            GICDevice::V3(g) => g.vcpus(),
            GICDevice::V3Its(g) => g.vcpus(),
        }
    }

    /// The firmware compatibility string of the GIC block.
    pub fn fdt_compatibility(&self) -> (r: &'static str)
        ensures
            r@ == "arm,gic-v3"@,
    {
        match self {
            GICDevice::V3(g) => g.fdt_compatibility(),
            GICDevice::V3Its(g) => g.fdt_compatibility(),
        }
    }

    /// The maintenance interrupt number.
    pub fn fdt_maint_irq(&self) -> (r: u32)
        ensures
            r == layout::ARCH_GIC_V3_MAINT_IRQ,
    {
        match self {
            GICDevice::V3(g) => g.fdt_maint_irq(),
            GICDevice::V3Its(g) => g.fdt_maint_irq(),
        }
    }

    /// Whether this controller delivers message-signaled interrupts.
    pub fn msi_compatible(&self) -> (r: bool)
        ensures
            r == (self is V3Its),
    {
        match self {
            GICDevice::V3(g) => g.msi_compatible(),
            GICDevice::V3Its(g) => g.msi_compatible(),
        }
    }

    /// The MSI compatibility string: empty for the plain variant.
    pub fn msi_compatibility(&self) -> (r: &'static str)
        ensures
            self is V3Its ==> r@ == "arm,gic-v3-its"@,
            self is V3 ==> r@ == ""@,
    {
        match self {
            GICDevice::V3(g) => g.msi_compatibility(),
            GICDevice::V3Its(g) => g.msi_compatibility(),
        }
    }

    /// The MSI region properties: empty for the plain variant, base and
    /// size of the doorbell frame for the ITS variant.
    pub fn msi_properties(&self) -> (r: Vec<u64>)
        requires
            self.wf(),
        ensures
            self is V3 ==> r@.len() == 0,
            self is V3Its ==> r@.len() == 2 && r@[0] == layout::spec_msi_addr(self.vcpus())
                && r@[1] == layout::KVM_VGIC_V3_ITS_SIZE,
    {
        match self {
            GICDevice::V3(g) => g.msi_properties(),
            GICDevice::V3Its(g) => g.msi_properties(),
        }
    }

    /// The memory-layout properties for firmware description.
    pub fn device_properties(&self) -> (r: Vec<u64>)
        requires
            self.wf(),
        ensures
            r@.len() == 4,
            r@[0] == layout::spec_dist_addr(),
            r@[1] == layout::KVM_VGIC_V3_DIST_SIZE,
            r@[2] == layout::spec_redists_addr(self.vcpus()),
            r@[3] == layout::spec_redists_size(self.vcpus()),
    {
        match self {
            GICDevice::V3(g) => g.device_properties(),
            GICDevice::V3Its(g) => g.device_properties(),
        }
    }

    /// The number of vCPUs this GIC handles.
    pub fn vcpu_count(&self) -> (r: u64)
        ensures
            r == self.vcpus(),
    {
        match self {
            GICDevice::V3(g) => g.vcpu_count(),
            GICDevice::V3Its(g) => g.vcpu_count(),
        }
    }

    /// Supply the affinity-derived redistributor type values, once, before
    /// any capture or restore.
    pub fn set_gicr_typers(&mut self, gicr_typers: Vec<u64>)
        requires
            old(self).wf(),
            !old(self).typers_ready(),
            gicr_typers@.len() == old(self).vcpus(),
        ensures
            final(self).wf(),
            final(self).typers_ready(),
            final(self).vcpus() == old(self).vcpus(),
            (*final(self) is V3) == (*old(self) is V3),
    {
        match self {
            GICDevice::V3(g) => g.set_gicr_typers(gicr_typers),
            GICDevice::V3Its(g) => g.set_gicr_typers(gicr_typers),
        }
    }

    /// The migration identifier of the wrapped variant.
    pub fn id(&self) -> (r: String)
        ensures
            self is V3 ==> r@ == "gic-v3"@,
            self is V3Its ==> r@ == "gic-v3-its"@,
    {
        match self {
            GICDevice::V3(g) => g.id(),
            GICDevice::V3Its(g) => g.id(),
        }
    }

    /// Capture the register state into a named snapshot.
    pub fn snapshot(&mut self) -> (r: Result<Snapshot, MigratableError>)
        requires
            old(self).wf(),
            old(self).typers_ready(),
        ensures
            final(self).wf(),
            final(self).typers_ready(),
            final(self).vcpus() == old(self).vcpus(),
            (*final(self) is V3) == (*old(self) is V3),
            r matches Ok(s) ==> s.sections@.len() == 1 && (*old(self) is V3 ==> s.id@
                == "gic-v3"@) && (*old(self) is V3Its ==> s.id@ == "gic-v3-its"@),
    {
        match self {
            GICDevice::V3(g) => g.snapshot(),
            GICDevice::V3Its(g) => g.snapshot(),
        }
    }

    /// Restore the register state out of a named snapshot.
    pub fn restore(&mut self, snapshot: Snapshot) -> (r: Result<(), MigratableError>)
        requires
            old(self).wf(),
            old(self).typers_ready(),
        ensures
            final(self).wf(),
            final(self).typers_ready(),
            final(self).vcpus() == old(self).vcpus(),
            (*final(self) is V3) == (*old(self) is V3),
            *old(self) is V3 ==> (r == Err::<(), MigratableError>(
                MigratableError::SectionNotFound,
            ) <==> !crate::snapshot::has_section(snapshot, "gic-v3-section"@)),
            *old(self) is V3Its ==> (r == Err::<(), MigratableError>(
                MigratableError::SectionNotFound,
            ) <==> !crate::snapshot::has_section(snapshot, "gic-v3-its-section"@)),
            *old(self) is V3 && crate::snapshot::has_section(snapshot, "gic-v3-section"@) && (
            forall|i: int|
                0 <= i < snapshot.sections@.len() && (#[trigger] snapshot.sections@[i]).id@
                    == "gic-v3-section"@ ==> !crate::snapshot::v3_shape_ok(
                    snapshot.sections@[i].snapshot@,
                )) ==> r == Err::<(), MigratableError>(MigratableError::DeserializeFailed),
            *old(self) is V3Its && crate::snapshot::has_section(snapshot, "gic-v3-its-section"@)
                && (forall|i: int|
                0 <= i < snapshot.sections@.len() && (#[trigger] snapshot.sections@[i]).id@
                    == "gic-v3-its-section"@ ==> !crate::snapshot::its_shape_ok(
                    snapshot.sections@[i].snapshot@,
                )) ==> r == Err::<(), MigratableError>(MigratableError::DeserializeFailed),
    {
        match self {
            GICDevice::V3(g) => g.restore(snapshot),
            GICDevice::V3Its(g) => g.restore(snapshot),
        }
    }

    /// Pausing the controller needs nothing beyond the caller's guarantee
    /// that the vCPUs are stopped.
    pub fn pause(&mut self) -> (r: Result<(), MigratableError>)
        ensures
            *final(self) == *old(self),
            r is Ok,
    {
        Ok(())
    }

    /// Resuming the controller is likewise a no-op.
    pub fn resume(&mut self) -> (r: Result<(), MigratableError>)
        ensures
            *final(self) == *old(self),
            r is Ok,
    {
        Ok(())
    }
}

/// Construct the chosen variant and run its two-phase setup protocol: the
/// ITS-capable variant when an ITS device handle is supplied, the plain
/// variant otherwise.
pub fn create_gic<T: GicTransport>(device: T, its_device: Option<T>, vcpu_count: u64) -> (r: Result<
    GICDevice<T>,
    transport::Error,
>)
    requires
        1 <= vcpu_count <= layout::MAX_VCPUS,
    ensures
        r matches Ok(g) ==> g.wf() && g.vcpus() == vcpu_count && !g.typers_ready() && (g is V3Its
            <==> its_device is Some),
{
    match its_device {
        Some(its) => {
            match KvmGICv3ITS::new(device, its, vcpu_count) {
                Ok(g) => Ok(GICDevice::V3Its(g)),
                Err(e) => Err(e),
            }
        },
        None => {
            match KvmGICv3::new(device, vcpu_count) {
                Ok(g) => Ok(GICDevice::V3(g)),
                Err(e) => Err(e),
            }
        },
    }
}

} // verus!
