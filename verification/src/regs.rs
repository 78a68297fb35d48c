//! Recording model of the peripheral's register block.
//!
//! Each register holds its named fields as plain values plus a `rest` word
//! standing for the bits the driver never programs; a read-modify-write
//! preserves `rest`, a full register write clears it.  Every hardware-visible
//! action is appended to a write log, so ordering rules (such as "enable
//! last") can be stated and proved over the log.

use vstd::prelude::*;

verus! {

/// One hardware-visible step, as recorded in the write log.
#[derive(Clone, Copy, Debug, PartialEq, Eq, Structural)]
pub enum WriteOp {
    /// Enable the peripheral's kernel clock.
    EnableClock,
    /// Pulse the peripheral reset line.
    ResetPeripheral,
    /// Bind the SCL pin to the peripheral's alternate function, open-drain.
    BindScl,
    /// Bind the SDA pin to the peripheral's alternate function, open-drain.
    BindSda,
    /// Full write of the first timing register.
    WriteTimingr1,
    /// Read-modify-write of the device-configuration register.
    ModifyDevr0,
    /// Read-modify-write of the Bus Characteristics Register.
    ModifyBcr,
    /// Read-modify-write of the Device Characteristics Register.
    ModifyDcr,
    /// Read-modify-write of the max-read-length register.
    ModifyMaxrlr,
    /// Read-modify-write of the max-write-length register.
    ModifyMaxwlr,
    /// Read-modify-write of the get-capability register.
    ModifyGetcapr,
    /// Read-modify-write of the Provisioned ID register.
    ModifyEpidr,
    /// Read-modify-write of the interrupt-enable register.
    ModifyIer,
    /// Read-modify-write of the top-level configuration register.
    ModifyCfgr,
    /// Read-modify-write of the control register.
    ModifyCr,
}

/// First timing register: `aval` counts kernel clock cycles per microsecond.
#[derive(Clone, Copy, Debug, PartialEq, Eq, Structural)]
pub struct Timingr1 {
    pub aval: u8,
    pub rest: u32,
}

/// Device-configuration register: capability enable bits.
#[derive(Clone, Copy, Debug, PartialEq, Eq, Structural)]
pub struct Devr0 {
    /// In-band-interrupt notification enable.
    pub ibien: bool,
    /// Controller-role-request capability enable.
    pub cren: bool,
    /// Hot-Join capability enable.
    pub hjen: bool,
    pub rest: u32,
}

/// Bus Characteristics Register.
#[derive(Clone, Copy, Debug, PartialEq, Eq, Structural)]
pub struct Bcr {
    /// Set when an in-band interrupt carries a mandatory data byte.
    pub bcr2: bool,
    pub rest: u32,
}

/// Device Characteristics Register.
#[derive(Clone, Copy, Debug, PartialEq, Eq, Structural)]
pub struct Dcr {
    pub dcr: u8,
    pub rest: u32,
}

/// Max-read-length register.
#[derive(Clone, Copy, Debug, PartialEq, Eq, Structural)]
pub struct Maxrlr {
    /// In-band-interrupt payload size class (3 bits).
    pub ibip: u8,
    /// Maximum read length.
    pub mrl: u16,
    pub rest: u32,
}

/// Max-write-length register.
#[derive(Clone, Copy, Debug, PartialEq, Eq, Structural)]
pub struct Maxwlr {
    /// Maximum write length.
    pub mwl: u16,
    pub rest: u32,
}

/// Get-capability register.
#[derive(Clone, Copy, Debug, PartialEq, Eq, Structural)]
pub struct Getcapr {
    /// Pending-read notification on a get-status command.
    pub cappend: bool,
    pub rest: u32,
}

/// Provisioned ID register.
#[derive(Clone, Copy, Debug, PartialEq, Eq, Structural)]
pub struct Epidr {
    /// MIPI instance-ID sub-field (4 bits).
    pub mipiid: u8,
    pub rest: u32,
}

/// Interrupt-enable register.
#[derive(Clone, Copy, Debug, PartialEq, Eq, Structural)]
pub struct Ier {
    /// Dynamic-address-update interrupt enable.
    pub daupdie: bool,
    /// Error interrupt enable.
    pub errie: bool,
    pub rest: u32,
}

/// Top-level configuration register.
#[derive(Clone, Copy, Debug, PartialEq, Eq, Structural)]
pub struct Cfgr {
    /// Peripheral enable bit.
    pub en: bool,
    pub rest: u32,
}

/// Control register.
#[derive(Clone, Copy, Debug, PartialEq, Eq, Structural)]
pub struct Cr {
    /// Message-type sub-field (4 bits).
    pub mtype: u8,
    pub rest: u32,
}

/// The recording register file: current register values plus the ordered log
/// of every hardware-visible step taken on them.
pub struct RegisterBlock {
    pub timingr1: Timingr1,
    pub devr0: Devr0,
    pub bcr: Bcr,
    pub dcr: Dcr,
    pub maxrlr: Maxrlr,
    pub maxwlr: Maxwlr,
    pub getcapr: Getcapr,
    pub epidr: Epidr,
    pub ier: Ier,
    pub cfgr: Cfgr,
    pub cr: Cr,
    pub log: Vec<WriteOp>,
}

impl RegisterBlock {
    /// All registers hold their reset value.
    pub open spec fn is_reset(self) -> bool {
        &&& self.timingr1 == (Timingr1 { aval: 0, rest: 0 })
        &&& self.devr0 == (Devr0 { ibien: false, cren: false, hjen: false, rest: 0 })
        &&& self.bcr == (Bcr { bcr2: false, rest: 0 })
        &&& self.dcr == (Dcr { dcr: 0, rest: 0 })
        &&& self.maxrlr == (Maxrlr { ibip: 0, mrl: 0, rest: 0 })
        &&& self.maxwlr == (Maxwlr { mwl: 0, rest: 0 })
        &&& self.getcapr == (Getcapr { cappend: false, rest: 0 })
        &&& self.epidr == (Epidr { mipiid: 0, rest: 0 })
        &&& self.ier == (Ier { daupdie: false, errie: false, rest: 0 })
        &&& self.cfgr == (Cfgr { en: false, rest: 0 })
        &&& self.cr == (Cr { mtype: 0, rest: 0 })
    }

    /// A register file in reset state, with an empty log.
    pub fn new() -> (r: Self)
        ensures
            r.is_reset(),
            r.log@ == Seq::<WriteOp>::empty(),
    {
        RegisterBlock {
            timingr1: Timingr1 { aval: 0, rest: 0 },
            devr0: Devr0 { ibien: false, cren: false, hjen: false, rest: 0 },
            bcr: Bcr { bcr2: false, rest: 0 },
            dcr: Dcr { dcr: 0, rest: 0 },
            maxrlr: Maxrlr { ibip: 0, mrl: 0, rest: 0 },
            maxwlr: Maxwlr { mwl: 0, rest: 0 },
            getcapr: Getcapr { cappend: false, rest: 0 },
            epidr: Epidr { mipiid: 0, rest: 0 },
            ier: Ier { daupdie: false, errie: false, rest: 0 },
            cfgr: Cfgr { en: false, rest: 0 },
            cr: Cr { mtype: 0, rest: 0 },
            log: Vec::new(),
        }
    }

    /// Records a step that touches no register (clock enable, reset, pin
    /// binding).
    pub(crate) fn record_step(&mut self, op: WriteOp)
        ensures
            *final(self) == (RegisterBlock { log: final(self).log, ..*old(self) }),
            final(self).log@ == old(self).log@.push(op),
    {
        self.log.push(op);
    }

    /// Full write of the first timing register: `aval` is set and the
    /// remaining bits are cleared, not preserved.
    pub(crate) fn write_timingr1(&mut self, aval: u8)
        ensures
            *final(self) == (RegisterBlock {
                timingr1: (Timingr1 { aval, rest: 0 }),
                log: final(self).log,
                ..*old(self)
            }),
            final(self).log@ == old(self).log@.push(WriteOp::WriteTimingr1),
    {
        self.timingr1 = Timingr1 { aval, rest: 0 };
        self.log.push(WriteOp::WriteTimingr1);
    }

    /// Read-modify-write of the device-configuration register: sets the
    /// in-band-interrupt, controller-role-request and hot-join enables
    /// together, preserving the other bits.
    pub(crate) fn enable_capabilities(&mut self)
        ensures
            *final(self) == (RegisterBlock {
                devr0: (Devr0 { ibien: true, cren: true, hjen: true, rest: old(self).devr0.rest }),
                log: final(self).log,
                ..*old(self)
            }),
            final(self).log@ == old(self).log@.push(WriteOp::ModifyDevr0),
    {
        self.devr0.ibien = true;
        self.devr0.cren = true;
        self.devr0.hjen = true;
        self.log.push(WriteOp::ModifyDevr0);
    }

    /// Read-modify-write of the Bus Characteristics Register: marks the
    /// in-band-interrupt payload as carrying a mandatory data byte.
    pub(crate) fn set_ibi_payload_data_byte(&mut self)
        ensures
            *final(self) == (RegisterBlock {
                bcr: (Bcr { bcr2: true, rest: old(self).bcr.rest }),
                log: final(self).log,
                ..*old(self)
            }),
            final(self).log@ == old(self).log@.push(WriteOp::ModifyBcr),
    {
        self.bcr.bcr2 = true;
        self.log.push(WriteOp::ModifyBcr);
    }

    /// Read-modify-write of the Device Characteristics Register.
    pub(crate) fn set_device_characteristics(&mut self, dcr: u8)
        ensures
            *final(self) == (RegisterBlock {
                dcr: (Dcr { dcr, rest: old(self).dcr.rest }),
                log: final(self).log,
                ..*old(self)
            }),
            final(self).log@ == old(self).log@.push(WriteOp::ModifyDcr),
    {
        self.dcr.dcr = dcr;
        self.log.push(WriteOp::ModifyDcr);
    }

    /// Read-modify-write of the max-read-length register: payload size
    /// class and maximum read length.
    pub(crate) fn set_read_limits(&mut self, ibip: u8, mrl: u16)
        requires
            ibip <= 7,
        ensures
            *final(self) == (RegisterBlock {
                maxrlr: (Maxrlr { ibip, mrl, rest: old(self).maxrlr.rest }),
                log: final(self).log,
                ..*old(self)
            }),
            final(self).log@ == old(self).log@.push(WriteOp::ModifyMaxrlr),
    {
        self.maxrlr.ibip = ibip;
        self.maxrlr.mrl = mrl;
        self.log.push(WriteOp::ModifyMaxrlr);
    }

    /// Read-modify-write of the max-write-length register.
    pub(crate) fn set_write_limit(&mut self, mwl: u16)
        ensures
            *final(self) == (RegisterBlock {
                maxwlr: (Maxwlr { mwl, rest: old(self).maxwlr.rest }),
                log: final(self).log,
                ..*old(self)
            }),
            final(self).log@ == old(self).log@.push(WriteOp::ModifyMaxwlr),
    {
        self.maxwlr.mwl = mwl;
        self.log.push(WriteOp::ModifyMaxwlr);
    }

    /// Read-modify-write of the get-capability register: enables the
    /// pending-read notification on a get-status command.
    pub(crate) fn set_pending_read_notification(&mut self)
        ensures
            *final(self) == (RegisterBlock {
                getcapr: (Getcapr { cappend: true, rest: old(self).getcapr.rest }),
                log: final(self).log,
                ..*old(self)
            }),
            final(self).log@ == old(self).log@.push(WriteOp::ModifyGetcapr),
    {
        self.getcapr.cappend = true;
        self.log.push(WriteOp::ModifyGetcapr);
    }

    /// Read-modify-write of the Provisioned ID register's 4-bit MIPI
    /// instance-ID sub-field.
    pub(crate) fn set_instance_id(&mut self, id: u8)
        requires
            id <= 15,
        ensures
            *final(self) == (RegisterBlock {
                epidr: (Epidr { mipiid: id, rest: old(self).epidr.rest }),
                log: final(self).log,
                ..*old(self)
            }),
            final(self).log@ == old(self).log@.push(WriteOp::ModifyEpidr),
    {
        self.epidr.mipiid = id;
        self.log.push(WriteOp::ModifyEpidr);
    }

    /// Read-modify-write of the interrupt-enable register: enables the
    /// dynamic-address-update and error interrupts.
    pub(crate) fn enable_interrupts(&mut self)
        ensures
            *final(self) == (RegisterBlock {
                ier: (Ier { daupdie: true, errie: true, rest: old(self).ier.rest }),
                log: final(self).log,
                ..*old(self)
            }),
            final(self).log@ == old(self).log@.push(WriteOp::ModifyIer),
    {
        self.ier.daupdie = true;
        self.ier.errie = true;
        self.log.push(WriteOp::ModifyIer);
    }

    /// Read-modify-write of the top-level configuration register: sets the
    /// peripheral enable bit.  Must be the last bring-up step.
    pub(crate) fn enable_peripheral(&mut self)
        ensures
            *final(self) == (RegisterBlock {
                cfgr: (Cfgr { en: true, rest: old(self).cfgr.rest }),
                log: final(self).log,
                ..*old(self)
            }),
            final(self).log@ == old(self).log@.push(WriteOp::ModifyCfgr),
    {
        self.cfgr.en = true;
        self.log.push(WriteOp::ModifyCfgr);
    }

    /// Read-modify-write of the top-level configuration register: clears
    /// the peripheral enable bit.
    pub(crate) fn disable_peripheral(&mut self)
        ensures
            *final(self) == (RegisterBlock {
                cfgr: (Cfgr { en: false, rest: old(self).cfgr.rest }),
                log: final(self).log,
                ..*old(self)
            }),
            final(self).log@ == old(self).log@.push(WriteOp::ModifyCfgr),
    {
        self.cfgr.en = false;
        self.log.push(WriteOp::ModifyCfgr);
    }

    /// Read-modify-write of the control register's message-type sub-field,
    /// preserving every other control-register field.
    pub(crate) fn set_control_mtype(&mut self, mtype: u8)
        requires
            mtype <= 15,
        ensures
            *final(self) == (RegisterBlock {
                cr: (Cr { mtype, rest: old(self).cr.rest }),
                log: final(self).log,
                ..*old(self)
            }),
            final(self).log@ == old(self).log@.push(WriteOp::ModifyCr),
    {
        self.cr.mtype = mtype;
        self.log.push(WriteOp::ModifyCr);
    }
}

} // verus!
