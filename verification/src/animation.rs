//! Animation payloads and their wire encoding.
//!
//! An animation is one of three variants, discriminated on the wire by a
//! type byte, and its parameters always encode to a block of exactly
//! [`DATA_SIZE`] data bytes, zero-padded past the variant's own fields.
//! Multi-byte timing fields are little-endian milliseconds.

use vstd::prelude::*;

use crate::color::LinearRGB;
use crate::wire::{pad_to, push_u16_le, spec_u16_le, spec_zeros};

verus! {

/// Size in bytes of the encoded animation data block.
pub const DATA_SIZE: usize = 60;

/// Greatest number of colors a fade animation can carry.
pub const MAX_COLORS: usize = 8;

/// How a requested animation is applied by the firmware: saved to flash as
/// the lamp's default (effective at boot), or applied immediately and kept
/// only until reset.
#[derive(Debug)]
pub enum SetAnimationMode {
    Default,
    Current,
}

/// Parameters of the breathe animation: two colors and the four phase
/// durations of its cycle, in milliseconds.
#[derive(Debug)]
pub struct BreatheAnimationData {
    pub on_color: LinearRGB,
    pub off_color: LinearRGB,
    pub on_fade_time_ms: u16,
    pub on_time_ms: u16,
    pub off_fade_time_ms: u16,
    pub off_time_ms: u16,
}

/// Parameters of the fade animation: how many of the eight color slots are
/// in use, the slots themselves (unused slots all-zero), and the two phase
/// durations in milliseconds.
#[derive(Debug)]
pub struct FadeAnimationData {
    pub color_count: u8,
    pub colors: [LinearRGB; 8],
    pub fade_time_ms: u16,
    pub hold_time_ms: u16,
}

/// An animation request: one of the closed set of animation variants.
#[derive(Debug)]
pub enum Animation {
    Off,
    Breathe(BreatheAnimationData),
    Fade(FadeAnimationData),
}

/// The body of a set-animation report: the target lamp and the animation.
#[derive(Debug)]
pub struct SetAnimationReport {
    pub lamp_id: u8,
    pub animation: Animation,
}

/// The concatenated wire bytes of a sequence of animation colors, three
/// bytes per color.
pub open spec fn linear_colors_bytes(cs: Seq<LinearRGB>) -> Seq<u8>
    decreases cs.len(),
{
    if cs.len() == 0 {
        Seq::empty()
    } else {
        linear_colors_bytes(cs.drop_last()) + cs.last().wire_bytes()
    }
}

pub proof fn lemma_linear_colors_bytes_len(cs: Seq<LinearRGB>)
    ensures
        linear_colors_bytes(cs).len() == 3 * cs.len(),
    decreases cs.len(),
{
    if cs.len() > 0 {
        lemma_linear_colors_bytes_len(cs.drop_last());
    }
}

impl BreatheAnimationData {
    /// The variant's own data bytes: on color, off color, then the four
    /// phase durations in cycle order.
    pub open spec fn spec_bytes(self) -> Seq<u8> {
        self.on_color.wire_bytes() + self.off_color.wire_bytes() + spec_u16_le(
            self.on_fade_time_ms,
        ) + spec_u16_le(self.on_time_ms) + spec_u16_le(self.off_fade_time_ms) + spec_u16_le(
            self.off_time_ms,
        )
    }
}

impl FadeAnimationData {
    /// The variant's own data bytes: the color count, the fixed region of
    /// all eight color slots, then the two phase durations.
    pub open spec fn spec_bytes(self) -> Seq<u8> {
        seq![self.color_count] + linear_colors_bytes(self.colors@) + spec_u16_le(
            self.fade_time_ms,
        ) + spec_u16_le(self.hold_time_ms)
    }
}

impl Animation {
    /// The wire discriminant of each animation variant.
    pub open spec fn spec_type_byte(self) -> u8 {
        match self {
            Animation::Off => 0x00,
            Animation::Breathe(_) => 0x01,
            Animation::Fade(_) => 0x02,
        }
    }

    /// The variant's own data bytes, before zero padding.
    pub open spec fn spec_payload(self) -> Seq<u8> {
        match self {
            Animation::Off => Seq::empty(),
            Animation::Breathe(d) => d.spec_bytes(),
            Animation::Fade(d) => d.spec_bytes(),
        }
    }

    /// The encoded data block: the variant's own bytes, zero-padded to
    /// exactly [`DATA_SIZE`] bytes.
    pub open spec fn spec_data(self) -> Seq<u8> {
        self.spec_payload() + spec_zeros((DATA_SIZE - self.spec_payload().len()) as nat)
    }

    /// Every variant's own bytes fit in the data block.
    pub proof fn lemma_payload_fits(self)
        ensures
            self.spec_payload().len() <= DATA_SIZE,
    {
        match self {
            Animation::Off => {},
            Animation::Breathe(_) => {},
            Animation::Fade(d) => {
                lemma_linear_colors_bytes_len(d.colors@);
            },
        }
    }

    /// The encoded data block of every animation is exactly [`DATA_SIZE`]
    /// bytes long: encoding cannot fail and never varies in size.
    pub proof fn lemma_data_len(self)
        ensures
            self.spec_data().len() == DATA_SIZE,
    {
        self.lemma_payload_fits();
    }

    /// The wire discriminant of this animation.
    pub fn type_byte(&self) -> (b: u8)
        ensures
            b == self.spec_type_byte(),
    {
        match self {
            Animation::Off => 0x00,
            Animation::Breathe(_) => 0x01,
            Animation::Fade(_) => 0x02,
        }
    }

    /// Encodes this animation's parameters into its data block: always
    /// exactly [`DATA_SIZE`] bytes, zero-padded past the variant's fields.
    pub fn data(&self) -> (d: Vec<u8>)
        ensures
            d@ == self.spec_data(),
            d@.len() == DATA_SIZE,
    {
        proof {
            self.lemma_data_len();
        }
        let mut d: Vec<u8> = Vec::new();
        match self {
            Animation::Off => {},
            Animation::Breathe(b) => {
                d.push(b.on_color.r);
                d.push(b.on_color.g);
                d.push(b.on_color.b);
                d.push(b.off_color.r);
                d.push(b.off_color.g);
                d.push(b.off_color.b);
                push_u16_le(&mut d, b.on_fade_time_ms);
                push_u16_le(&mut d, b.on_time_ms);
                push_u16_le(&mut d, b.off_fade_time_ms);
                push_u16_le(&mut d, b.off_time_ms);
                assert(d@ =~= b.spec_bytes());
            },
            Animation::Fade(f) => {
                d.push(f.color_count);
                let mut idx: usize = 0;
                while idx < 8
                    invariant
                        idx <= 8,
                        d@ =~= seq![f.color_count] + linear_colors_bytes(f.colors@.take(idx as int)),
                    decreases 8 - idx,
                {
                    d.push(f.colors[idx].r);
                    d.push(f.colors[idx].g);
                    d.push(f.colors[idx].b);
                    proof {
                        let cs = f.colors@;
                        assert(cs.take(idx as int + 1).drop_last() =~= cs.take(idx as int));
                        assert(cs.take(idx as int + 1).last() == cs[idx as int]);
                    }
                    idx = idx + 1;
                }
                proof {
                    assert(f.colors@.take(8) =~= f.colors@);
                }
                push_u16_le(&mut d, f.fade_time_ms);
                push_u16_le(&mut d, f.hold_time_ms);
                assert(d@ =~= f.spec_bytes());
            },
        }
        pad_to(&mut d, DATA_SIZE);
        proof {
            assert(d@ =~= self.spec_data());
        }
        d
    }
}

} // verus!
