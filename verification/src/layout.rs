//! Fixed guest-physical memory layout of the virtual GIC.
//!
//! The distributor sits directly below the start of the MMIO hole at 1 GiB;
//! the per-vCPU redistributor region sits directly below the distributor, and
//! for the ITS-capable controller the MSI doorbell frame sits directly below
//! the redistributor region.  All addresses are pure functions of the vCPU
//! count; nothing here is stored, everything is recomputed on demand.

use vstd::prelude::*;

verus! {

/// 64 KiB, the granule the GIC register frames are sized in.
pub const SZ_64K: u64 = 0x0001_0000;

/// Size of the distributor register block (one 64 KiB frame).
pub const KVM_VGIC_V3_DIST_SIZE: u64 = 0x0001_0000;

/// Size of one vCPU's redistributor (two 64 KiB frames).
pub const KVM_VGIC_V3_REDIST_SIZE: u64 = 0x0002_0000;

/// Size of the ITS register block and MSI doorbell (two 64 KiB frames).
pub const KVM_VGIC_V3_ITS_SIZE: u64 = 0x0002_0000;

/// First guest-physical address of the MMIO device region; the GIC is laid
/// out directly below this boundary.
pub const MAPPED_IO_START: u64 = 0x4000_0000;

/// Maintenance interrupt number advertised to guest firmware.
pub const ARCH_GIC_V3_MAINT_IRQ: u32 = 9;

/// Largest vCPU count for which the layout below fits between address zero
/// and the MMIO boundary.
pub const MAX_VCPUS: u64 = 8190;

/// Distributor base address.
pub open spec fn spec_dist_addr() -> int {
    MAPPED_IO_START - KVM_VGIC_V3_DIST_SIZE
}

/// Size of the redistributor region for `vcpu_count` vCPUs.
pub open spec fn spec_redists_size(vcpu_count: u64) -> int {
    vcpu_count * KVM_VGIC_V3_REDIST_SIZE
}

/// Base address of the redistributor region for `vcpu_count` vCPUs.
pub open spec fn spec_redists_addr(vcpu_count: u64) -> int {
    spec_dist_addr() - spec_redists_size(vcpu_count)
}

/// Base address of the ITS MSI doorbell frame: directly below the
/// redistributor region.  This placement is the fixed layout contract of
/// this library; together with the lemma below it keeps the three register
/// regions disjoint.
pub open spec fn spec_msi_addr(vcpu_count: u64) -> int {
    spec_redists_addr(vcpu_count) - KVM_VGIC_V3_ITS_SIZE
}

/// Get the address of the GIC distributor.
pub fn get_dist_addr() -> (r: u64)
    ensures
        r == spec_dist_addr(),
{
    MAPPED_IO_START - KVM_VGIC_V3_DIST_SIZE
}

/// Get the size of the GIC distributor.
pub fn get_dist_size() -> (r: u64)
    ensures
        r == KVM_VGIC_V3_DIST_SIZE,
{
    KVM_VGIC_V3_DIST_SIZE
}

/// Get the size of the GIC redistributor region.
pub fn get_redists_size(vcpu_count: u64) -> (r: u64)
    requires
        1 <= vcpu_count <= MAX_VCPUS,
    ensures
        r == spec_redists_size(vcpu_count),
{
    vcpu_count * KVM_VGIC_V3_REDIST_SIZE
}

/// Get the base address of the GIC redistributor region.
pub fn get_redists_addr(vcpu_count: u64) -> (r: u64)
    requires
        1 <= vcpu_count <= MAX_VCPUS,
    ensures
        r == spec_redists_addr(vcpu_count),
{
    get_dist_addr() - get_redists_size(vcpu_count)
}

/// Get the size of the ITS MSI doorbell region.
pub fn get_msi_size() -> (r: u64)
    ensures
        r == KVM_VGIC_V3_ITS_SIZE,
{
    KVM_VGIC_V3_ITS_SIZE
}

/// Get the base address of the ITS MSI doorbell region.
pub fn get_msi_addr(vcpu_count: u64) -> (r: u64)
    requires
        1 <= vcpu_count <= MAX_VCPUS,
    ensures
        r == spec_msi_addr(vcpu_count),
{
    get_redists_addr(vcpu_count) - KVM_VGIC_V3_ITS_SIZE
}

/// The layout is internally consistent for every admissible vCPU count:
/// the redistributor region is exactly `vcpu_count` redistributors large and
/// ends where the distributor begins, the MSI doorbell ends where the
/// redistributor region begins, and the three regions are pairwise disjoint
/// and lie above address zero and below the MMIO boundary.
pub proof fn lemma_region_layout(vcpu_count: u64)
    requires
        1 <= vcpu_count <= MAX_VCPUS,
    ensures
        spec_redists_size(vcpu_count) == vcpu_count * KVM_VGIC_V3_REDIST_SIZE,
        spec_redists_addr(vcpu_count) == spec_dist_addr() - spec_redists_size(vcpu_count),
        spec_msi_addr(vcpu_count) == spec_redists_addr(vcpu_count) - KVM_VGIC_V3_ITS_SIZE,
        spec_msi_addr(vcpu_count) + KVM_VGIC_V3_ITS_SIZE <= spec_redists_addr(vcpu_count),
        spec_redists_addr(vcpu_count) + spec_redists_size(vcpu_count) <= spec_dist_addr(),
        spec_dist_addr() + KVM_VGIC_V3_DIST_SIZE <= MAPPED_IO_START,
        0 < spec_msi_addr(vcpu_count),
{
}

} // verus!
