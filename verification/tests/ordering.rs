//! Operation-order properties, observed through the recording device.

use vgic::gicv3_its::KvmGICv3ITS;
use vgic::mem_transport::{MemTransport, OpKind};
use vgic::transport::{
    KVM_DEV_ARM_ITS_RESTORE_TABLES, KVM_DEV_ARM_ITS_SAVE_TABLES,
    KVM_DEV_ARM_VGIC_GRP_CTRL, KVM_DEV_ARM_VGIC_GRP_DIST_REGS, KVM_DEV_ARM_VGIC_GRP_ITS_REGS,
    KVM_DEV_ARM_VGIC_SAVE_PENDING_TABLES,
};

/// During an ITS restore, the "restore tables" control operation runs
/// strictly after every CBASER/CREADR/CWRITER/BASER write and strictly
/// before the CTLR write.
#[test]
fn its_restore_orders_table_reload_between_pointers_and_ctlr() {
    let typers: Vec<u64> = vec![0];
    let mut gic = KvmGICv3ITS::new(MemTransport::new(), MemTransport::new(), 1).unwrap();
    gic.set_gicr_typers(typers.clone());
    let snap = gic.snapshot().unwrap();

    let mut gic2 = KvmGICv3ITS::new(MemTransport::new(), MemTransport::new(), 1).unwrap();
    gic2.set_gicr_typers(typers);
    gic2.restore(snap).unwrap();

    let log = &gic2.its_device().unwrap().log;
    let restore_tables_pos = log
        .iter()
        .position(|op| op.kind == OpKind::Ctrl && op.attr == KVM_DEV_ARM_ITS_RESTORE_TABLES)
        .expect("table reload must be issued");
    let ctlr_pos = log
        .iter()
        .position(|op| {
            op.kind == OpKind::Set64 && op.group == KVM_DEV_ARM_VGIC_GRP_ITS_REGS && op.attr == 0
        })
        .expect("control register must be written");
    let pointer_attrs: Vec<u64> = {
        let mut v: Vec<u64> = vec![0x80, 0x88, 0x90];
        for i in 0..8u64 {
            v.push(0x100 + 8 * i);
        }
        v
    };
    for attr in pointer_attrs {
        let pos = log
            .iter()
            .position(|op| {
                op.kind == OpKind::Set64 && op.group == KVM_DEV_ARM_VGIC_GRP_ITS_REGS
                    && op.attr == attr
            })
            .expect("every pointer and table descriptor must be written");
        assert!(pos < restore_tables_pos);
    }
    assert!(restore_tables_pos < ctlr_pos);
}

/// A capture flushes the pending tables before reading any GIC register,
/// and saves the ITS tables before reading any ITS register.
#[test]
fn capture_flushes_tables_before_reading() {
    let typers: Vec<u64> = vec![0];
    let mut gic = KvmGICv3ITS::new(MemTransport::new(), MemTransport::new(), 1).unwrap();
    gic.set_gicr_typers(typers);
    let _ = gic.state().unwrap();

    let gic_log = &gic.device().log;
    let flush_pos = gic_log
        .iter()
        .position(|op| op.kind == OpKind::Ctrl && op.attr == KVM_DEV_ARM_VGIC_SAVE_PENDING_TABLES)
        .expect("pending tables must be flushed");
    let first_read = gic_log
        .iter()
        .position(|op| op.kind == OpKind::Get32 && op.group == KVM_DEV_ARM_VGIC_GRP_DIST_REGS)
        .expect("the distributor must be read");
    assert!(flush_pos < first_read);

    let its_log = &gic.its_device().unwrap().log;
    let save_pos = its_log
        .iter()
        .position(|op| op.kind == OpKind::Ctrl && op.attr == KVM_DEV_ARM_ITS_SAVE_TABLES)
        .expect("ITS tables must be saved");
    let first_its_read = its_log
        .iter()
        .position(|op| op.kind == OpKind::Get64 && op.group == KVM_DEV_ARM_VGIC_GRP_ITS_REGS)
        .expect("the ITS registers must be read");
    assert!(save_pos < first_its_read);
    // The save goes through the control group.
    assert_eq!(its_log[save_pos].group, KVM_DEV_ARM_VGIC_GRP_CTRL);
}
