//! The target-mode driver handle: bring-up sequencing and runtime
//! operations.
//!
//! Bring-up programs the capability registers in a fixed order and sets the
//! peripheral enable bit strictly last; the order is recorded in the
//! register file's write log and pinned by [`spec_bring_up_log`].  Runtime
//! operations are single read-modify-write register accesses on fields
//! disjoint from those the event dispatcher touches.

use vstd::prelude::*;

use crate::config::{ConfigError, TargetConfig};
use crate::regs::{
    Bcr, Cfgr, Cr, Dcr, Devr0, Epidr, Getcapr, Ier, Maxrlr, Maxwlr, RegisterBlock, Timingr1,
    WriteOp,
};

verus! {

/// Slowest usable kernel clock: below one cycle per microsecond the `aval`
/// timing value degenerates to zero.
pub const MIN_CLOCK_HZ: u32 = 1_000_000;

/// Message-type code of a Hot-Join request in the control register.
pub const HOTJOIN_MTYPE: u8 = 8;

/// Size class programmed for the in-band-interrupt payload (3-bit field).
pub const IBI_PAYLOAD_CLASS: u8 = 1;

/// Fixed max-read-length limit programmed at bring-up.
pub const MAX_READ_LEN: u16 = 100;

/// Fixed max-write-length limit programmed at bring-up.
pub const MAX_WRITE_LEN: u16 = 100;

/// Error detected during bring-up, before any register is programmed.
#[derive(Clone, Copy, Debug, PartialEq, Eq, Structural)]
pub enum BringUpError {
    /// The peripheral input clock is below [`MIN_CLOCK_HZ`], so no valid
    /// time unit can be programmed.
    ClockTooSlow,
}

/// Error returned by a runtime operation whose capability was not enabled
/// at bring-up.
#[derive(Clone, Copy, Debug, PartialEq, Eq, Structural)]
pub enum CapabilityError {
    /// Hot-Join was requested but the hot-join capability is not enabled.
    HotJoinDisabled,
}

/// Everything the bring-up constructor can fail with.
#[derive(Clone, Copy, Debug, PartialEq, Eq, Structural)]
pub enum TargetError {
    Config(ConfigError),
    BringUp(BringUpError),
}

/// An asynchronous transfer channel handle: a numbered channel, or the
/// absent (no-op) variant.
#[derive(Clone, Copy, Debug, PartialEq, Eq, Structural)]
pub enum DmaChannel {
    NoDma,
    Channel(u8),
}

/// A pin bound to one of the peripheral's bus lines: carries the
/// alternate-function number the binding was made with, open-drain.
#[derive(Clone, Copy, Debug, PartialEq, Eq, Structural)]
pub struct PinAf {
    pub af_num: u8,
}

/// One physical peripheral instance: its register block and the input clock
/// frequency the clock tree feeds it.  Consumed by the bring-up
/// constructor, which is how exclusive ownership of the hardware is kept.
pub struct Instance {
    pub regs: RegisterBlock,
    pub frequency_hz: u32,
}

impl Instance {
    /// An instance fresh out of reset, clocked at `frequency_hz`.
    pub fn new(frequency_hz: u32) -> (p: Self)
        ensures
            p.regs.is_reset(),
            p.regs.log@ == Seq::<WriteOp>::empty(),
            p.frequency_hz == frequency_hz,
    {
        Instance { regs: RegisterBlock::new(), frequency_hz }
    }
}

/// The timing value programmed at bring-up: input clock cycles per
/// microsecond, truncated to the 8-bit `aval` field.
pub open spec fn spec_aval(frequency_hz: u32) -> u8 {
    ((frequency_hz / 1_000_000) % 256) as u8
}

/// Every bring-up step before the enable write, in order.  The Provisioned
/// ID step is present exactly when an instance ID was configured.
pub open spec fn spec_pre_enable_log(config: TargetConfig) -> Seq<WriteOp> {
    let head = seq![
        WriteOp::EnableClock,
        WriteOp::ResetPeripheral,
        WriteOp::BindScl,
        WriteOp::BindSda,
        WriteOp::WriteTimingr1,
        WriteOp::ModifyDevr0,
        WriteOp::ModifyBcr,
        WriteOp::ModifyDcr,
        WriteOp::ModifyMaxrlr,
        WriteOp::ModifyMaxwlr,
        WriteOp::ModifyGetcapr,
    ];
    let tail = seq![WriteOp::ModifyIer];
    if config.instance_id is Some {
        head + seq![WriteOp::ModifyEpidr] + tail
    } else {
        head + tail
    }
}

/// The full bring-up sequence: every configuration step, then the enable
/// write, strictly last.
pub open spec fn spec_bring_up_log(config: TargetConfig) -> Seq<WriteOp> {
    spec_pre_enable_log(config).push(WriteOp::ModifyCfgr)
}

/// How bring-up leaves the register file: `after` holds the programmed
/// capability values, preserves every field the sequence does not touch,
/// and has appended exactly the bring-up sequence to the write log.
pub open spec fn spec_programmed(
    before: RegisterBlock,
    frequency_hz: u32,
    config: TargetConfig,
    after: RegisterBlock,
) -> bool {
    &&& after.timingr1 == (Timingr1 { aval: spec_aval(frequency_hz), rest: 0 })
    &&& after.devr0 == (Devr0 { ibien: true, cren: true, hjen: true, rest: before.devr0.rest })
    &&& after.bcr == (Bcr { bcr2: true, rest: before.bcr.rest })
    &&& after.dcr == (Dcr { dcr: config.dcr, rest: before.dcr.rest })
    &&& after.maxrlr == (Maxrlr { ibip: IBI_PAYLOAD_CLASS, mrl: MAX_READ_LEN, rest: before.maxrlr.rest })
    &&& after.maxwlr == (Maxwlr { mwl: MAX_WRITE_LEN, rest: before.maxwlr.rest })
    &&& after.getcapr == (Getcapr { cappend: true, rest: before.getcapr.rest })
    &&& after.epidr == (match config.instance_id {
        Some(id) => Epidr { mipiid: id, rest: before.epidr.rest },
        None => before.epidr,
    })
    &&& after.ier == (Ier { daupdie: true, errie: true, rest: before.ier.rest })
    &&& after.cfgr == (Cfgr { en: true, rest: before.cfgr.rest })
    &&& after.cr == before.cr
    &&& after.log@ == before.log@ + spec_bring_up_log(config)
}

/// Effect of a Hot-Join request on the control register: the message-type
/// sub-field is set to the Hot-Join code, every other field is preserved.
pub open spec fn spec_hotjoin_cr(cr: Cr) -> Cr {
    Cr { mtype: HOTJOIN_MTYPE, rest: cr.rest }
}

/// The driver handle an application holds: the exclusively owned register
/// file, the bound bus pins and the two transfer channel handles.
pub struct I3cTarget {
    pub regs: RegisterBlock,
    pub scl: PinAf,
    pub sda: PinAf,
    pub tx_dma: DmaChannel,
    pub rx_dma: DmaChannel,
}

impl I3cTarget {
    /// A usable handle: bring-up has enabled the hot-join capability and
    /// set the peripheral enable bit.
    pub open spec fn wf(self) -> bool {
        &&& self.regs.devr0.hjen
        &&& self.regs.cfgr.en
    }

    /// Bring-up: validates the configuration, then programs the peripheral
    /// in the mandatory order — clock and reset, pin binding, timing,
    /// capabilities, characteristics, transfer limits, optional instance
    /// ID, interrupt enables, and the enable bit strictly last.
    ///
    /// Fails with a `Config` error on an out-of-range instance ID and with
    /// a `BringUp` error on a degenerate input clock; in both cases the
    /// hardware is left untouched.  On success every prior register field
    /// not listed in [`spec_programmed`] is preserved — in particular, with
    /// no instance ID configured the Provisioned ID register is not
    /// touched.
    pub fn new(
        peri: Instance,
        scl: PinAf,
        sda: PinAf,
        tx_dma: DmaChannel,
        rx_dma: DmaChannel,
        config: TargetConfig,
    ) -> (r: Result<I3cTarget, TargetError>)
        ensures
            r is Err <==> !config.valid() || peri.frequency_hz < MIN_CLOCK_HZ,
            !config.valid() ==> r == Err::<I3cTarget, TargetError>(
                TargetError::Config(ConfigError::InstanceIdOutOfRange),
            ),
            config.valid() && peri.frequency_hz < MIN_CLOCK_HZ ==> r == Err::<
                I3cTarget,
                TargetError,
            >(TargetError::BringUp(BringUpError::ClockTooSlow)),
            r matches Ok(t) ==> {
                &&& spec_programmed(peri.regs, peri.frequency_hz, config, t.regs)
                &&& t.scl == scl
                &&& t.sda == sda
                &&& t.tx_dma == tx_dma
                &&& t.rx_dma == rx_dma
                &&& t.wf()
            },
    {
        match config.validate() {
            Ok(()) => {},
            Err(e) => {
                return Err(TargetError::Config(e));
            },
        }
        if peri.frequency_hz < MIN_CLOCK_HZ {
            return Err(TargetError::BringUp(BringUpError::ClockTooSlow));
        }
        let Instance { mut regs, frequency_hz } = peri;

        regs.record_step(WriteOp::EnableClock);
        regs.record_step(WriteOp::ResetPeripheral);
        regs.record_step(WriteOp::BindScl);
        regs.record_step(WriteOp::BindSda);

        let aval: u8 = ((frequency_hz / 1_000_000) % 256) as u8;
        regs.write_timingr1(aval);
        regs.enable_capabilities();
        regs.set_ibi_payload_data_byte();
        regs.set_device_characteristics(config.dcr);
        regs.set_read_limits(IBI_PAYLOAD_CLASS, MAX_READ_LEN);
        regs.set_write_limit(MAX_WRITE_LEN);
        regs.set_pending_read_notification();
        if let Some(id) = config.instance_id {
            regs.set_instance_id(id);
        }
        regs.enable_interrupts();
        regs.enable_peripheral();

        proof {
            assert(regs.log@ =~= peri.regs.log@ + spec_bring_up_log(config));
        }
        Ok(I3cTarget { regs, scl, sda, tx_dma, rx_dma })
    }

    /// Requests a Hot-Join: one read-modify-write of the control register
    /// setting the message-type sub-field to the Hot-Join code, leaving
    /// every other control-register field as it was.  The call only issues
    /// the request; completion is signalled through the event interrupt.
    ///
    /// Fails with a capability error, touching nothing, when the hot-join
    /// capability is not enabled.
    pub fn hotjoin(&mut self) -> (r: Result<(), CapabilityError>)
        ensures
            final(self).scl == old(self).scl,
            final(self).sda == old(self).sda,
            final(self).tx_dma == old(self).tx_dma,
            final(self).rx_dma == old(self).rx_dma,
            old(self).wf() ==> final(self).wf(),
            old(self).regs.devr0.hjen ==> {
                &&& r is Ok
                &&& final(self).regs == (RegisterBlock {
                    cr: spec_hotjoin_cr(old(self).regs.cr),
                    log: final(self).regs.log,
                    ..old(self).regs
                })
                &&& final(self).regs.log@ == old(self).regs.log@.push(WriteOp::ModifyCr)
            },
            !old(self).regs.devr0.hjen ==> r == Err::<(), CapabilityError>(
                CapabilityError::HotJoinDisabled,
            ) && final(self).regs == old(self).regs,
    {
        if !self.regs.devr0.hjen {
            return Err(CapabilityError::HotJoinDisabled);
        }
        self.regs.set_control_mtype(HOTJOIN_MTYPE);
        Ok(())
    }

    /// Releases the peripheral: clears the enable bit, so the hardware
    /// stops taking part in the bus, and hands the register file back.
    /// Every other register field is left as it was.
    pub fn release(self) -> (r: RegisterBlock)
        ensures
            r == (RegisterBlock {
                cfgr: (Cfgr { en: false, rest: self.regs.cfgr.rest }),
                log: r.log,
                ..self.regs
            }),
            r.log@ == self.regs.log@.push(WriteOp::ModifyCfgr),
    {
        let I3cTarget { mut regs, .. } = self;
        regs.disable_peripheral();
        regs
    }
}

/// Law: bring-up enables the peripheral strictly last.  In every bring-up
/// sequence the enable write is the final step and occurs at no earlier
/// position, whatever the configuration.
pub proof fn lemma_enable_is_last(config: TargetConfig)
    ensures
        ({
            let log = spec_bring_up_log(config);
            &&& log.len() > 0
            &&& log.last() == WriteOp::ModifyCfgr
            &&& forall|i: int| 0 <= i < log.len() - 1 ==> log[i] != WriteOp::ModifyCfgr
        }),
{
    let pre = spec_pre_enable_log(config);
    let log = spec_bring_up_log(config);
    assert forall|i: int| 0 <= i < log.len() - 1 implies log[i] != WriteOp::ModifyCfgr by {
        assert(log[i] == pre[i]);
    }
}

/// Law: a repeated Hot-Join request is idempotent on the control register —
/// issuing the request twice without an intervening completion leaves the
/// control register exactly as one request does, while each request is an
/// independent recorded register write.
pub proof fn lemma_hotjoin_idempotent(cr: Cr)
    ensures
        spec_hotjoin_cr(spec_hotjoin_cr(cr)) == spec_hotjoin_cr(cr),
{
}

} // verus!
