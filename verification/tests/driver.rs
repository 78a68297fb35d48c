use i3c_target::config::{ConfigError, TargetConfig};
use i3c_target::regs::WriteOp;
use i3c_target::target::{
    BringUpError, CapabilityError, DmaChannel, I3cTarget, Instance, PinAf, TargetError,
};

fn bring_up(peri: Instance, config: TargetConfig) -> Result<I3cTarget, TargetError> {
    I3cTarget::new(
        peri,
        PinAf { af_num: 9 },
        PinAf { af_num: 9 },
        DmaChannel::NoDma,
        DmaChannel::NoDma,
        config,
    )
}

#[test]
fn default_config_is_empty() {
    let c = TargetConfig::default();
    assert_eq!(c.dcr, 0);
    assert_eq!(c.instance_id, None);
    assert!(c.validate().is_ok());
}

#[test]
fn validate_rejects_out_of_range_instance_id() {
    let c = TargetConfig { dcr: 0, instance_id: Some(16) };
    assert_eq!(c.validate(), Err(ConfigError::InstanceIdOutOfRange));
    let c = TargetConfig { dcr: 0, instance_id: Some(255) };
    assert_eq!(c.validate(), Err(ConfigError::InstanceIdOutOfRange));
}

#[test]
fn validate_accepts_full_instance_id_range() {
    for id in 0..=15u8 {
        let c = TargetConfig { dcr: 0, instance_id: Some(id) };
        assert!(c.validate().is_ok());
    }
}

#[test]
fn bring_up_programs_capability_registers() {
    let cfg = TargetConfig { dcr: 0x42, instance_id: Some(9) };
    let t = bring_up(Instance::new(160_000_000), cfg).unwrap();
    assert_eq!(t.regs.timingr1.aval, 160);
    assert!(t.regs.devr0.ibien);
    assert!(t.regs.devr0.cren);
    assert!(t.regs.devr0.hjen);
    assert!(t.regs.bcr.bcr2);
    assert_eq!(t.regs.dcr.dcr, 0x42);
    assert_eq!(t.regs.maxrlr.ibip, 1);
    assert_eq!(t.regs.maxrlr.mrl, 100);
    assert_eq!(t.regs.maxwlr.mwl, 100);
    assert!(t.regs.getcapr.cappend);
    assert_eq!(t.regs.epidr.mipiid, 9);
    assert!(t.regs.ier.daupdie);
    assert!(t.regs.ier.errie);
    assert!(t.regs.cfgr.en);
    assert_eq!(t.regs.cr.mtype, 0);
}

#[test]
fn bring_up_enables_strictly_last() {
    let cfg = TargetConfig { dcr: 0, instance_id: Some(3) };
    let t = bring_up(Instance::new(100_000_000), cfg).unwrap();
    assert_eq!(
        t.regs.log,
        vec![
            WriteOp::EnableClock,
            WriteOp::ResetPeripheral,
            WriteOp::BindScl,
            WriteOp::BindSda,
            WriteOp::WriteTimingr1,
            WriteOp::ModifyDevr0,
            WriteOp::ModifyBcr,
            WriteOp::ModifyDcr,
            WriteOp::ModifyMaxrlr,
            WriteOp::ModifyMaxwlr,
            WriteOp::ModifyGetcapr,
            WriteOp::ModifyEpidr,
            WriteOp::ModifyIer,
            WriteOp::ModifyCfgr,
        ]
    );
    let enables = t.regs.log.iter().filter(|op| **op == WriteOp::ModifyCfgr).count();
    assert_eq!(enables, 1);
    assert_eq!(t.regs.log.last(), Some(&WriteOp::ModifyCfgr));
}

#[test]
fn bring_up_without_instance_id_skips_epidr_step() {
    let t = bring_up(Instance::new(100_000_000), TargetConfig::default()).unwrap();
    assert_eq!(t.regs.log.len(), 13);
    assert!(!t.regs.log.contains(&WriteOp::ModifyEpidr));
    assert_eq!(t.regs.log.last(), Some(&WriteOp::ModifyCfgr));
}

#[test]
fn bring_up_rejects_slow_clock() {
    let r = bring_up(Instance::new(999_999), TargetConfig::default());
    assert_eq!(r.err(), Some(TargetError::BringUp(BringUpError::ClockTooSlow)));
    let r = bring_up(Instance::new(0), TargetConfig::default());
    assert_eq!(r.err(), Some(TargetError::BringUp(BringUpError::ClockTooSlow)));
}

#[test]
fn bring_up_at_clock_floor_programs_one_cycle() {
    let t = bring_up(Instance::new(1_000_000), TargetConfig::default()).unwrap();
    assert_eq!(t.regs.timingr1.aval, 1);
}

#[test]
fn aval_is_cycles_per_microsecond_truncated() {
    let t = bring_up(Instance::new(48_000_000), TargetConfig::default()).unwrap();
    assert_eq!(t.regs.timingr1.aval, 48);
    let t = bring_up(Instance::new(1_999_999), TargetConfig::default()).unwrap();
    assert_eq!(t.regs.timingr1.aval, 1);
    let t = bring_up(Instance::new(300_000_000), TargetConfig::default()).unwrap();
    assert_eq!(t.regs.timingr1.aval, 44);
    let t = bring_up(Instance::new(256_000_000), TargetConfig::default()).unwrap();
    assert_eq!(t.regs.timingr1.aval, 0);
}

#[test]
fn bring_up_rejects_out_of_range_instance_id() {
    let cfg = TargetConfig { dcr: 0, instance_id: Some(16) };
    let r = bring_up(Instance::new(100_000_000), cfg);
    assert_eq!(r.err(), Some(TargetError::Config(ConfigError::InstanceIdOutOfRange)));
}

#[test]
fn no_instance_id_leaves_provisioned_id_untouched() {
    let mut peri = Instance::new(100_000_000);
    peri.regs.epidr.mipiid = 5;
    peri.regs.epidr.rest = 0x77;
    let t = bring_up(peri, TargetConfig::default()).unwrap();
    assert_eq!(t.regs.epidr.mipiid, 5);
    assert_eq!(t.regs.epidr.rest, 0x77);
}

#[test]
fn modifies_preserve_unprogrammed_bits() {
    let mut peri = Instance::new(100_000_000);
    peri.regs.timingr1.rest = 0xdead;
    peri.regs.devr0.rest = 0xa5;
    peri.regs.bcr.rest = 0x33;
    peri.regs.maxrlr.rest = 0x11;
    peri.regs.cfgr.rest = 0x9;
    let t = bring_up(peri, TargetConfig::default()).unwrap();
    // timingr1 is a full write: unprogrammed bits are cleared, not kept
    assert_eq!(t.regs.timingr1.rest, 0);
    // the others are read-modify-writes: unprogrammed bits survive
    assert_eq!(t.regs.devr0.rest, 0xa5);
    assert_eq!(t.regs.bcr.rest, 0x33);
    assert_eq!(t.regs.maxrlr.rest, 0x11);
    assert_eq!(t.regs.cfgr.rest, 0x9);
}

#[test]
fn hotjoin_sets_message_type_only() {
    let mut peri = Instance::new(100_000_000);
    peri.regs.cr.rest = 0xabc;
    let mut t = bring_up(peri, TargetConfig::default()).unwrap();
    assert_eq!(t.regs.cr.mtype, 0);
    assert_eq!(t.hotjoin(), Ok(()));
    assert_eq!(t.regs.cr.mtype, 0b1000);
    assert_eq!(t.regs.cr.rest, 0xabc);
    assert!(t.regs.cfgr.en);
}

#[test]
fn hotjoin_twice_issues_two_requests() {
    let mut t = bring_up(Instance::new(100_000_000), TargetConfig::default()).unwrap();
    assert_eq!(t.hotjoin(), Ok(()));
    let cr_after_first = t.regs.cr;
    assert_eq!(t.hotjoin(), Ok(()));
    assert_eq!(t.regs.cr, cr_after_first);
    let requests = t.regs.log.iter().filter(|op| **op == WriteOp::ModifyCr).count();
    assert_eq!(requests, 2);
}

#[test]
fn release_disables_peripheral_and_keeps_configuration() {
    let t = bring_up(Instance::new(100_000_000), TargetConfig::default()).unwrap();
    let regs = t.release();
    assert!(!regs.cfgr.en);
    // configuration survives for a later bring-up or inspection
    assert!(regs.devr0.hjen);
    assert_eq!(regs.maxrlr.mrl, 100);
    assert_eq!(regs.log.last(), Some(&WriteOp::ModifyCfgr));
}

#[test]
fn hotjoin_without_capability_fails() {
    let mut t = bring_up(Instance::new(100_000_000), TargetConfig::default()).unwrap();
    // poke the capability bit away, as a bus reset or a raw register write
    // on the hardware could
    t.regs.devr0.hjen = false;
    let before = t.regs.cr;
    assert_eq!(t.hotjoin(), Err(CapabilityError::HotJoinDisabled));
    assert_eq!(t.regs.cr, before);
    assert!(!t.regs.log.contains(&WriteOp::ModifyCr));
}
