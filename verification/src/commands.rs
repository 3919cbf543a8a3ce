//! From pre-validated command arguments to reports.
//!
//! Each argument struct mirrors one command of the controller's host tool:
//! its fields arrive already range-checked (lamp identifiers within the
//! array, times already in milliseconds, colors already parsed), and its
//! `to_report` builder produces the report to transmit. The two commands
//! with list arguments reject mismatched or oversized lists here, before
//! anything reaches the encoder; every other builder cannot fail.

use vstd::prelude::*;
use vstd::string::StringSliceAdditionalSpecFns;

use crate::animation::{
    Animation, BreatheAnimationData, FadeAnimationData, SetAnimationMode, SetAnimationReport,
    MAX_COLORS,
};
use crate::color::{rgba8_of, HIDLampValue, LinearRGB};
use crate::report::{
    LampArrayControlReport, LampArrayMultiUpdateReport, LampArrayRangeUpdateReport,
    LampArrayUpdateFlags, Report, ResetFlags, MAX_COUNT,
};
use crate::temperature::Degrees;

verus! {

/// Default on-fade and off-fade duration of a breathe animation.
pub const DEFAULT_BREATHE_FADE_TIME_MS: u16 = 1000;

/// Default fully-on duration of a breathe animation.
pub const DEFAULT_BREATHE_ON_TIME_MS: u16 = 500;

/// Default fully-off duration of a breathe animation.
pub const DEFAULT_BREATHE_OFF_TIME_MS: u16 = 1000;

/// Default crossfade duration of a fade animation.
pub const DEFAULT_FADE_FADE_TIME_MS: u16 = 2000;

/// Default hold duration of a fade animation.
pub const DEFAULT_FADE_HOLD_TIME_MS: u16 = 1000;

/// An animation duration in milliseconds, as the argument layer supplies
/// it.
#[derive(Copy, Clone, Debug)]
pub struct Time(pub u16);

/// Why a command was rejected before encoding: its list arguments
/// disagree, or a list is longer than the wire format allows.
#[derive(Debug, PartialEq, Eq)]
pub enum CommandError {
    ArgumentConflict(String),
    TooManyValues(String),
}

/// The milliseconds of an optional duration, or the given default.
pub open spec fn spec_time_or(t: Option<Time>, default_ms: u16) -> u16 {
    match t {
        Some(t) => t.0,
        None => default_ms,
    }
}

fn time_or(t: Option<Time>, default_ms: u16) -> (r: u16)
    ensures
        r == spec_time_or(t, default_ms),
{
    match t {
        Some(t) => t.0,
        None => default_ms,
    }
}

/// The value of an optional lamp identifier, or the given default.
pub open spec fn spec_id_or(v: Option<u8>, default_id: u8) -> u8 {
    match v {
        Some(v) => v,
        None => default_id,
    }
}

/// Arguments shared by every animation command: the target lamp and
/// whether the animation is saved as the lamp's boot default.
#[derive(Debug)]
pub struct SharedArgs {
    pub lamp_id: u8,
    pub default: bool,
}

impl SharedArgs {
    /// The animation mode these arguments select.
    pub open spec fn spec_mode(self) -> SetAnimationMode {
        if self.default {
            SetAnimationMode::Default
        } else {
            SetAnimationMode::Current
        }
    }

    /// Selects the animation mode: saved as the boot default when asked,
    /// otherwise applied immediately.
    pub fn mode(&self) -> (m: SetAnimationMode)
        ensures
            m == self.spec_mode(),
    {
        if self.default {
            SetAnimationMode::Default
        } else {
            SetAnimationMode::Current
        }
    }
}

/// Arguments of the lamp-array control command.
#[derive(Debug)]
pub struct SetControlArgs {
    pub autonomous: Option<bool>,
}

impl SetControlArgs {
    /// The control report to send, or nothing when the command selects no
    /// setting.
    pub fn to_report(&self) -> (r: Option<Report>)
        ensures
            match self.autonomous {
                Some(a) => r matches Some(rep) && rep matches Report::LampArrayControl(c)
                    && c.autonomous == a,
                None => r is None,
            },
    {
        match self.autonomous {
            Some(autonomous) => Some(
                Report::LampArrayControl(LampArrayControlReport { autonomous }),
            ),
            None => None,
        }
    }
}

/// Arguments of the multi-lamp update command: the lamps to update and
/// their new colors, in matching order.
#[derive(Debug)]
pub struct UpdateArgs {
    pub lamp_ids: Vec<u8>,
    pub colors: Vec<csscolorparser::Color>,
}

impl UpdateArgs {
    /// Builds the multi-update report, rejecting the command before it
    /// reaches the encoder when the number of colors differs from the
    /// number of lamps, or when more than [`MAX_COUNT`] lamps are named.
    /// On success the listed lamps and converted colors fill the leading
    /// slots, the unused slots stay zero, and the update is flagged
    /// complete.
    pub fn to_report(&self) -> (r: Result<Report, CommandError>)
        ensures
            self.lamp_ids@.len() == self.colors@.len() && self.lamp_ids@.len() <= MAX_COUNT ==> ({
                &&& r matches Ok(rep)
                &&& rep matches Report::LampArrayMultiUpdate(m)
                &&& m.count == self.lamp_ids@.len()
                &&& m.flags.update_complete == true
                &&& forall|i: int|
                    0 <= i < self.lamp_ids@.len() ==> m.lamp_ids@[i] == self.lamp_ids@[i]
                &&& forall|i: int| self.lamp_ids@.len() <= i < MAX_COUNT ==> m.lamp_ids@[i] == 0
                &&& forall|i: int|
                    0 <= i < self.lamp_ids@.len() ==> (m.colors@[i].r == rgba8_of(
                        self.colors@[i],
                    )[0] && m.colors@[i].g == rgba8_of(self.colors@[i])[1] && m.colors@[i].b
                        == rgba8_of(self.colors@[i])[2] && m.colors@[i].i == 1)
                &&& forall|i: int|
                    self.lamp_ids@.len() <= i < MAX_COUNT ==> m.colors@[i].is_off_sentinel()
            }),
            self.lamp_ids@.len() != self.colors@.len() ==> (r matches Err(e) && e matches
                CommandError::ArgumentConflict(msg) && msg@
                == "The number of colors must match the number of lamps"@),
            self.lamp_ids@.len() == self.colors@.len() && self.lamp_ids@.len() > MAX_COUNT ==> (
            r matches Err(e) && e matches CommandError::TooManyValues(msg) && msg@
                == "The number of lamps must be at most 4"@),
    {
        let count = self.lamp_ids.len();
        if count != self.colors.len() {
            return Err(
                CommandError::ArgumentConflict(
                    "The number of colors must match the number of lamps".to_owned(),
                ),
            );
        }
        if count > MAX_COUNT {
            return Err(
                CommandError::TooManyValues("The number of lamps must be at most 4".to_owned()),
            );
        }
        let mut lamp_ids: [u8; 4] = [0, 0, 0, 0];
        let mut idx: usize = 0;
        while idx < count
            invariant
                count == self.lamp_ids@.len(),
                count <= MAX_COUNT,
                idx <= count,
                forall|i: int| 0 <= i < idx ==> lamp_ids@[i] == self.lamp_ids@[i],
                forall|i: int| idx <= i < MAX_COUNT ==> lamp_ids@[i] == 0,
            decreases count - idx,
        {
            lamp_ids[idx] = self.lamp_ids[idx];
            idx = idx + 1;
        }
        let z = HIDLampValue::zero();
        let mut colors: [HIDLampValue; 4] = [z, z, z, z];
        let mut idx: usize = 0;
        while idx < count
            invariant
                count == self.colors@.len(),
                count <= MAX_COUNT,
                idx <= count,
                z.is_off_sentinel(),
                forall|i: int|
                    0 <= i < idx ==> (colors@[i].r == rgba8_of(self.colors@[i])[0] && colors@[i].g
                        == rgba8_of(self.colors@[i])[1] && colors@[i].b == rgba8_of(
                        self.colors@[i],
                    )[2] && colors@[i].i == 1),
                forall|i: int| idx <= i < MAX_COUNT ==> colors@[i] == z,
            decreases count - idx,
        {
            colors[idx] = HIDLampValue::from_color(&self.colors[idx]);
            idx = idx + 1;
        }
        Ok(
            Report::LampArrayMultiUpdate(
                LampArrayMultiUpdateReport {
                    flags: LampArrayUpdateFlags { update_complete: true },
                    count: count as u8,
                    lamp_ids,
                    colors,
                },
            ),
        )
    }
}

/// Arguments of the range update command: the bounds of the lamp range
/// and the color to apply, each optional.
#[derive(Debug)]
pub struct UpdateRangeArgs {
    pub lamp_id_start: Option<u8>,
    pub lamp_id_end: Option<u8>,
    pub color: Option<csscolorparser::Color>,
}

impl UpdateRangeArgs {
    /// Builds the range-update report; it cannot fail. An unset start
    /// defaults to the first lamp, an unset end to the last lamp of the
    /// array, and an unset color to the all-zero "lamp off" sentinel —
    /// not to any converted color. The update is flagged complete.
    pub fn to_report(&self) -> (r: Report)
        ensures
            r matches Report::LampArrayRangeUpdate(u) && u.flags.update_complete == true
                && u.lamp_id_start == spec_id_or(self.lamp_id_start, 0) && u.lamp_id_end
                == spec_id_or(self.lamp_id_end, (crate::device::LAMP_COUNT - 1) as u8) && (match self
                .color {
                Some(c) => u.color.r == rgba8_of(c)[0] && u.color.g == rgba8_of(c)[1] && u.color.b
                    == rgba8_of(c)[2] && u.color.i == 1,
                None => u.color.is_off_sentinel(),
            }),
    {
        let lamp_id_start = match self.lamp_id_start {
            Some(id) => id,
            None => 0,
        };
        let lamp_id_end = match self.lamp_id_end {
            Some(id) => id,
            None => crate::device::LAMP_COUNT - 1,
        };
        let color = match &self.color {
            Some(c) => HIDLampValue::from_color(c),
            None => HIDLampValue::zero(),
        };
        Report::LampArrayRangeUpdate(
            LampArrayRangeUpdateReport {
                flags: LampArrayUpdateFlags { update_complete: true },
                lamp_id_start,
                lamp_id_end,
                color,
            },
        )
    }
}

/// Arguments of the breathe animation command.
#[derive(Debug)]
pub struct BreatheArgs {
    pub shared: SharedArgs,
    pub on_color: csscolorparser::Color,
    pub off_color: Option<csscolorparser::Color>,
    pub on_fade_time: Option<Time>,
    pub on_time: Option<Time>,
    pub off_fade_time: Option<Time>,
    pub off_time: Option<Time>,
}

impl BreatheArgs {
    /// Builds the set-animation report for a breathe animation; it cannot
    /// fail. An unset off color defaults to the converted on color; unset
    /// durations take the documented defaults.
    pub fn to_report(&self) -> (r: Report)
        ensures
            ({
                &&& r matches Report::SetAnimation(mode, s)
                &&& mode == self.shared.spec_mode()
                &&& s.lamp_id == self.shared.lamp_id
                &&& s.animation matches Animation::Breathe(b)
                &&& self.off_color is None ==> b.off_color == b.on_color
                &&& b.on_fade_time_ms == spec_time_or(
                    self.on_fade_time,
                    DEFAULT_BREATHE_FADE_TIME_MS,
                )
                &&& b.on_time_ms == spec_time_or(self.on_time, DEFAULT_BREATHE_ON_TIME_MS)
                &&& b.off_fade_time_ms == spec_time_or(
                    self.off_fade_time,
                    DEFAULT_BREATHE_FADE_TIME_MS,
                )
                &&& b.off_time_ms == spec_time_or(self.off_time, DEFAULT_BREATHE_OFF_TIME_MS)
            }),
    {
        let on_color = LinearRGB::from_color(&self.on_color);
        let off_color = match &self.off_color {
            Some(c) => LinearRGB::from_color(c),
            None => on_color,
        };
        Report::SetAnimation(
            self.shared.mode(),
            SetAnimationReport {
                lamp_id: self.shared.lamp_id,
                animation: Animation::Breathe(
                    BreatheAnimationData {
                        on_color,
                        off_color,
                        on_fade_time_ms: time_or(self.on_fade_time, DEFAULT_BREATHE_FADE_TIME_MS),
                        on_time_ms: time_or(self.on_time, DEFAULT_BREATHE_ON_TIME_MS),
                        off_fade_time_ms: time_or(
                            self.off_fade_time,
                            DEFAULT_BREATHE_FADE_TIME_MS,
                        ),
                        off_time_ms: time_or(self.off_time, DEFAULT_BREATHE_OFF_TIME_MS),
                    },
                ),
            },
        )
    }
}

/// Arguments of the fade animation command.
#[derive(Debug)]
pub struct FadeArgs {
    pub shared: SharedArgs,
    pub colors: Vec<csscolorparser::Color>,
    pub fade_time: Option<Time>,
    pub hold_time: Option<Time>,
}

impl FadeArgs {
    /// Builds the set-animation report for a fade animation, rejecting the
    /// command before it reaches the encoder when more than
    /// [`MAX_COLORS`] colors are given. On success the converted colors
    /// fill the leading slots, the unused slots stay zero, and unset
    /// durations take the documented defaults.
    pub fn to_report(&self) -> (r: Result<Report, CommandError>)
        ensures
            self.colors@.len() <= MAX_COLORS ==> ({
                &&& r matches Ok(rep)
                &&& rep matches Report::SetAnimation(mode, s)
                &&& mode == self.shared.spec_mode()
                &&& s.lamp_id == self.shared.lamp_id
                &&& s.animation matches Animation::Fade(f)
                &&& f.color_count == self.colors@.len()
                &&& f.fade_time_ms == spec_time_or(self.fade_time, DEFAULT_FADE_FADE_TIME_MS)
                &&& f.hold_time_ms == spec_time_or(self.hold_time, DEFAULT_FADE_HOLD_TIME_MS)
                &&& forall|i: int|
                    self.colors@.len() <= i < MAX_COLORS ==> (f.colors@[i].r == 0
                        && f.colors@[i].g == 0 && f.colors@[i].b == 0)
            }),
            self.colors@.len() > MAX_COLORS ==> ({
                &&& r matches Err(e)
                &&& e matches CommandError::TooManyValues(msg)
                &&& msg@ == "The animation can use at most 8 colors"@
            }),
    {
        let color_count = self.colors.len();
        if color_count > MAX_COLORS {
            return Err(
                CommandError::TooManyValues("The animation can use at most 8 colors".to_owned()),
            );
        }
        let z = LinearRGB::zero();
        let mut colors: [LinearRGB; 8] = [z, z, z, z, z, z, z, z];
        let mut idx: usize = 0;
        while idx < color_count
            invariant
                color_count == self.colors@.len(),
                color_count <= MAX_COLORS,
                idx <= color_count,
                z.r == 0 && z.g == 0 && z.b == 0,
                forall|i: int| idx <= i < MAX_COLORS ==> colors@[i] == z,
            decreases color_count - idx,
        {
            colors[idx] = LinearRGB::from_color(&self.colors[idx]);
            idx = idx + 1;
        }
        Ok(
            Report::SetAnimation(
                self.shared.mode(),
                SetAnimationReport {
                    lamp_id: self.shared.lamp_id,
                    animation: Animation::Fade(
                        FadeAnimationData {
                            color_count: color_count as u8,
                            colors,
                            fade_time_ms: time_or(self.fade_time, DEFAULT_FADE_FADE_TIME_MS),
                            hold_time_ms: time_or(self.hold_time, DEFAULT_FADE_HOLD_TIME_MS),
                        },
                    ),
                },
            ),
        )
    }
}

/// Arguments of the reset command.
#[derive(Debug)]
pub struct ResetArgs {
    pub bootsel: bool,
    pub clear_flash: bool,
}

impl ResetArgs {
    /// Builds the reset report; it cannot fail and carries both flags
    /// unchanged.
    pub fn to_report(&self) -> (r: Report)
        ensures
            r matches Report::Reset(f) && f.bootsel == self.bootsel && f.clear_flash
                == self.clear_flash,
    {
        Report::Reset(ResetFlags { bootsel: self.bootsel, clear_flash: self.clear_flash })
    }
}

/// Arguments of the temperature command: the display unit and an optional
/// polling interval in seconds.
#[derive(Debug)]
pub struct GetTemperatureArgs {
    pub units: Degrees,
    pub interval: Option<u32>,
}

/// True of an ASCII decimal digit byte.
pub open spec fn spec_is_digit(c: u8) -> bool {
    48 <= c && c <= 57
}

/// The digit bytes of a number input: its UTF-8 bytes with one leading
/// plus sign removed if present.
pub open spec fn spec_number_digits(b: Seq<u8>) -> Seq<u8> {
    if b.len() > 0 && b[0] == ('+' as u8) {
        b.skip(1)
    } else {
        b
    }
}

/// True of a nonempty byte string made of decimal digits only.
pub open spec fn spec_all_digits(b: Seq<u8>) -> bool {
    b.len() > 0 && (forall|i: int| 0 <= i < b.len() ==> spec_is_digit(b[i]))
}

/// The value of a string of decimal digit bytes.
pub open spec fn spec_digits_value(b: Seq<u8>) -> int
    decreases b.len(),
{
    if b.len() == 0 {
        0
    } else {
        spec_digits_value(b.drop_last()) * 10 + (b.last() - 48)
    }
}

/// Parses a 1-indexed lamp number to a 0-indexed lamp identifier. The
/// input may carry one leading plus sign and must otherwise be decimal
/// digits naming a lamp from 1 to the lamp count; anything else is
/// rejected, digits outside the range with the range message and
/// everything else as invalid.
pub fn lamp_id_parser(s: &str) -> (r: Result<u8, String>)
    ensures
        ({
            let digits = spec_number_digits(s.spec_bytes());
            &&& !spec_all_digits(digits) ==> ({
                &&& r matches Err(m)
                &&& m@ == "invalid lamp number"@
            })
            &&& spec_all_digits(digits) && 1 <= spec_digits_value(digits)
                <= crate::device::LAMP_COUNT ==> ({
                &&& r matches Ok(id)
                &&& id == spec_digits_value(digits) - 1
            })
            &&& spec_all_digits(digits) && !(1 <= spec_digits_value(digits)
                <= crate::device::LAMP_COUNT) ==> ({
                &&& r matches Err(m)
                &&& m@ == "lamp number must be in range 1-4"@
            })
        }),
{
    let b = s.as_bytes();
    let ghost digits = spec_number_digits(s.spec_bytes());
    let start: usize = if b.len() > 0 && b[0] == ('+' as u8) {
        1
    } else {
        0
    };
    proof {
        assert(digits =~= b@.subrange(start as int, b@.len() as int));
    }
    if b.len() == start {
        return Err("invalid lamp number".to_owned());
    }
    let mut value: usize = 0;
    let mut i: usize = start;
    while i < b.len()
        invariant
            b@ == s.spec_bytes(),
            b@.len() <= usize::MAX,
            start <= i <= b@.len(),
            start < b@.len(),
            digits == spec_number_digits(s.spec_bytes()),
            digits =~= b@.subrange(start as int, b@.len() as int),
            forall|j: int| start <= j < i ==> spec_is_digit(b@[j]),
            value <= 49,
            ({
                let sofar = spec_digits_value(b@.subrange(start as int, i as int));
                if sofar <= 4 {
                    value == sofar
                } else {
                    value >= 5 && sofar >= 5
                }
            }),
        decreases b@.len() - i,
    {
        let c = b[i];
        if c < 48 || c > 57 {
            proof {
                assert(digits[i - start] == b@[i as int]);
                assert(!spec_is_digit(digits[i - start]));
            }
            return Err("invalid lamp number".to_owned());
        }
        proof {
            let pre = b@.subrange(start as int, i as int);
            let post = b@.subrange(start as int, i as int + 1);
            assert(post.drop_last() =~= pre);
            assert(post.last() == b@[i as int]);
        }
        if value < 5 {
            value = value * 10 + ((c - 48) as usize);
        }
        i = i + 1;
    }
    proof {
        assert(b@.subrange(start as int, b@.len() as int) == digits);
        assert(spec_all_digits(digits));
    }
    if 1 <= value && value <= 4 {
        Ok((value - 1) as u8)
    } else {
        Err("lamp number must be in range 1-4".to_owned())
    }
}

} // verus!
