//! The controller's report catalog.
//!
//! Each command is one variant of [`Report`], with a fixed wire report
//! identifier, a byte-exact body layout, a transmission kind (feature or
//! output), and a destination interface. The body here is the logical
//! payload only: the report identifier prefix and the zero padding to the
//! device-declared report length are added by the device facade when the
//! report is framed.

use vstd::prelude::*;

use crate::animation::{Animation, SetAnimationMode, SetAnimationReport};
use crate::wire::{push_u16_le, spec_u16_le};
use crate::color::HIDLampValue;

verus! {

/// Greatest number of lamps one multi-update report can carry.
pub const MAX_COUNT: usize = 4;

/// The two physical HID interfaces of the controller.
#[derive(Debug, Copy, Clone, PartialEq, Eq, Structural)]
pub enum Interface {
    Vendor,
    LampArray,
}

/// The two HID transmission classes: synchronous configuration exchanges
/// and fire-and-forget streaming updates.
#[derive(Debug, Copy, Clone, PartialEq, Eq, Structural)]
pub enum ReportKind {
    Feature,
    Output,
}

/// Flags of the lamp-array update reports, packed LSB-first into a 16-bit
/// field: bit 0 marks the update as complete.
#[derive(Debug)]
pub struct LampArrayUpdateFlags {
    pub update_complete: bool,
}

impl LampArrayUpdateFlags {
    /// The 16-bit wire value of the flags.
    pub open spec fn spec_value(self) -> u16 {
        if self.update_complete {
            1u16
        } else {
            0u16
        }
    }

    /// Packs the flags into their 16-bit wire value.
    pub fn value(&self) -> (v: u16)
        ensures
            v == self.spec_value(),
    {
        let mut flags: u16 = 0;
        if self.update_complete {
            flags = flags + 1;
        }
        flags
    }
}

/// Body of the multi-update report: up to [`MAX_COUNT`] lamps set to
/// individual colors in one report. Slots past `count` are ignored by the
/// firmware but still transmitted.
#[derive(Debug)]
pub struct LampArrayMultiUpdateReport {
    pub flags: LampArrayUpdateFlags,
    pub count: u8,
    pub lamp_ids: [u8; 4],
    pub colors: [HIDLampValue; 4],
}

/// Body of the range-update report: one color applied to every lamp from
/// `lamp_id_start` through `lamp_id_end` (0-indexed, inclusive).
#[derive(Debug)]
pub struct LampArrayRangeUpdateReport {
    pub flags: LampArrayUpdateFlags,
    pub lamp_id_start: u8,
    pub lamp_id_end: u8,
    pub color: HIDLampValue,
}

/// Body of the lamp-array control report: whether the firmware drives the
/// lamps autonomously.
#[derive(Debug)]
pub struct LampArrayControlReport {
    pub autonomous: bool,
}

/// Flags of the reset report, packed LSB-first into one byte: bit 0
/// requests a reset into the mass-storage programming interface, bit 1
/// requests clearing all settings saved in flash.
#[derive(Debug)]
pub struct ResetFlags {
    pub bootsel: bool,
    pub clear_flash: bool,
}

impl ResetFlags {
    /// The wire byte of the flags.
    pub open spec fn spec_byte(self) -> u8 {
        ((if self.bootsel {
            1int
        } else {
            0int
        }) + (if self.clear_flash {
            2int
        } else {
            0int
        })) as u8
    }

    /// Packs the flags into their wire byte.
    pub fn flags(&self) -> (b: u8)
        ensures
            b == self.spec_byte(),
    {
        let mut flags: u8 = 0;
        if self.bootsel {
            flags = flags + 1;
        }
        if self.clear_flash {
            flags = flags + 2;
        }
        flags
    }
}

/// The concatenated wire bytes of a sequence of lamp colors, four bytes
/// per color.
pub open spec fn lamp_colors_bytes(cs: Seq<HIDLampValue>) -> Seq<u8>
    decreases cs.len(),
{
    if cs.len() == 0 {
        Seq::empty()
    } else {
        lamp_colors_bytes(cs.drop_last()) + cs.last().wire_bytes()
    }
}

pub proof fn lemma_lamp_colors_bytes_len(cs: Seq<HIDLampValue>)
    ensures
        lamp_colors_bytes(cs).len() == 4 * cs.len(),
    decreases cs.len(),
{
    if cs.len() > 0 {
        lemma_lamp_colors_bytes_len(cs.drop_last());
    }
}

/// A command to the controller: the closed set of reports it understands.
pub enum Report {
    LampArrayMultiUpdate(LampArrayMultiUpdateReport),
    LampArrayRangeUpdate(LampArrayRangeUpdateReport),
    LampArrayControl(LampArrayControlReport),
    Reset(ResetFlags),
    SetAnimation(SetAnimationMode, SetAnimationReport),
}

impl Report {
    /// The fixed wire report identifier of each variant.
    pub open spec fn spec_id(self) -> u8 {
        match self {
            Report::LampArrayMultiUpdate(_) => 0x04,
            Report::LampArrayRangeUpdate(_) => 0x05,
            Report::LampArrayControl(_) => 0x06,
            Report::Reset(_) => 0x30,
            Report::SetAnimation(_, _) => 0x31,
        }
    }

    /// Which physical interface each variant is sent to: reset and
    /// animation commands go to the vendor interface, the lamp-array
    /// commands to the lamp-array interface.
    pub open spec fn spec_interface(self) -> Interface {
        match self {
            Report::LampArrayMultiUpdate(_) => Interface::LampArray,
            Report::LampArrayRangeUpdate(_) => Interface::LampArray,
            Report::LampArrayControl(_) => Interface::LampArray,
            Report::Reset(_) => Interface::Vendor,
            Report::SetAnimation(_, _) => Interface::Vendor,
        }
    }

    /// The transmission class of each variant. Reset, control, and a
    /// set-animation saved as the boot default are feature reports; the
    /// streaming lamp updates and a set-animation applied immediately are
    /// output reports. The mode-to-kind mapping is part of the protocol.
    pub open spec fn spec_kind(self) -> ReportKind {
        match self {
            Report::LampArrayMultiUpdate(_) => ReportKind::Output,
            Report::LampArrayRangeUpdate(_) => ReportKind::Output,
            Report::LampArrayControl(_) => ReportKind::Feature,
            Report::Reset(_) => ReportKind::Feature,
            Report::SetAnimation(mode, _) => match mode {
                SetAnimationMode::Default => ReportKind::Feature,
                SetAnimationMode::Current => ReportKind::Output,
            },
        }
    }

    /// The byte-exact logical body of each variant.
    pub open spec fn spec_body(self) -> Seq<u8> {
        match self {
            Report::LampArrayMultiUpdate(r) => seq![r.count] + spec_u16_le(r.flags.spec_value())
                + r.lamp_ids@ + lamp_colors_bytes(r.colors@),
            Report::LampArrayRangeUpdate(r) => spec_u16_le(r.flags.spec_value()) + seq![
                r.lamp_id_start,
                r.lamp_id_end,
            ] + r.color.wire_bytes(),
            Report::LampArrayControl(r) => seq![
                if r.autonomous {
                    1u8
                } else {
                    0u8
                },
            ],
            Report::Reset(f) => seq![f.spec_byte()],
            Report::SetAnimation(_, r) => seq![r.lamp_id, r.animation.spec_type_byte()]
                + r.animation.spec_data(),
        }
    }

    /// The wire report identifier of this report.
    pub fn id(&self) -> (id: u8)
        ensures
            id == self.spec_id(),
    {
        match self {
            Report::LampArrayMultiUpdate(_) => 0x04,
            Report::LampArrayRangeUpdate(_) => 0x05,
            Report::LampArrayControl(_) => 0x06,
            Report::Reset(_) => 0x30,
            Report::SetAnimation(_, _) => 0x31,
        }
    }

    /// The physical interface this report is sent to.
    pub fn interface(&self) -> (i: Interface)
        ensures
            i == self.spec_interface(),
    {
        match self {
            Report::LampArrayMultiUpdate(_) => Interface::LampArray,
            Report::LampArrayRangeUpdate(_) => Interface::LampArray,
            Report::LampArrayControl(_) => Interface::LampArray,
            Report::Reset(_) => Interface::Vendor,
            Report::SetAnimation(_, _) => Interface::Vendor,
        }
    }

    /// The transmission class of this report.
    pub fn kind(&self) -> (k: ReportKind)
        ensures
            k == self.spec_kind(),
    {
        match self {
            Report::LampArrayMultiUpdate(_) => ReportKind::Output,
            Report::LampArrayRangeUpdate(_) => ReportKind::Output,
            Report::LampArrayControl(_) => ReportKind::Feature,
            Report::Reset(_) => ReportKind::Feature,
            Report::SetAnimation(mode, _) => match mode {
                SetAnimationMode::Default => ReportKind::Feature,
                SetAnimationMode::Current => ReportKind::Output,
            },
        }
    }

    /// Serializes the logical body of this report.
    pub fn body(&self) -> (d: Vec<u8>)
        ensures
            d@ == self.spec_body(),
    {
        let mut d: Vec<u8> = Vec::new();
        match self {
            Report::LampArrayMultiUpdate(r) => {
                d.push(r.count);
                push_u16_le(&mut d, r.flags.value());
                let mut idx: usize = 0;
                while idx < 4
                    invariant
                        idx <= 4,
                        d@ =~= seq![r.count] + spec_u16_le(r.flags.spec_value())
                            + r.lamp_ids@.take(idx as int),
                    decreases 4 - idx,
                {
                    d.push(r.lamp_ids[idx]);
                    proof {
                        assert(r.lamp_ids@.take(idx as int + 1) =~= r.lamp_ids@.take(idx as int)
                            + seq![r.lamp_ids@[idx as int]]);
                    }
                    idx = idx + 1;
                }
                proof {
                    assert(r.lamp_ids@.take(4) =~= r.lamp_ids@);
                }
                let mut idx: usize = 0;
                while idx < 4
                    invariant
                        idx <= 4,
                        d@ =~= seq![r.count] + spec_u16_le(r.flags.spec_value()) + r.lamp_ids@
                            + lamp_colors_bytes(r.colors@.take(idx as int)),
                    decreases 4 - idx,
                {
                    d.push(r.colors[idx].r);
                    d.push(r.colors[idx].g);
                    d.push(r.colors[idx].b);
                    d.push(r.colors[idx].i);
                    proof {
                        let cs = r.colors@;
                        assert(cs.take(idx as int + 1).drop_last() =~= cs.take(idx as int));
                        assert(cs.take(idx as int + 1).last() == cs[idx as int]);
                    }
                    idx = idx + 1;
                }
                proof {
                    assert(r.colors@.take(4) =~= r.colors@);
                }
                assert(d@ =~= self.spec_body());
            },
            Report::LampArrayRangeUpdate(r) => {
                push_u16_le(&mut d, r.flags.value());
                d.push(r.lamp_id_start);
                d.push(r.lamp_id_end);
                d.push(r.color.r);
                d.push(r.color.g);
                d.push(r.color.b);
                d.push(r.color.i);
                assert(d@ =~= self.spec_body());
            },
            Report::LampArrayControl(r) => {
                if r.autonomous {
                    d.push(1);
                } else {
                    d.push(0);
                }
                assert(d@ =~= self.spec_body());
            },
            Report::Reset(f) => {
                d.push(f.flags());
                assert(d@ =~= self.spec_body());
            },
            Report::SetAnimation(_, r) => {
                d.push(r.lamp_id);
                d.push(r.animation.type_byte());
                let mut block = r.animation.data();
                d.append(&mut block);
                assert(d@ =~= self.spec_body());
            },
        }
        d
    }
}

/// The logical body of every report variant is bounded: the longest, the
/// set-animation body, is 62 bytes.
pub proof fn lemma_body_len(r: Report)
    ensures
        r.spec_body().len() <= 62,
{
    match r {
        Report::LampArrayMultiUpdate(m) => {
            lemma_lamp_colors_bytes_len(m.colors@);
        },
        Report::LampArrayRangeUpdate(_) => {},
        Report::LampArrayControl(_) => {},
        Report::Reset(_) => {},
        Report::SetAnimation(_, s) => {
            s.animation.lemma_data_len();
        },
    }
}

} // verus!
