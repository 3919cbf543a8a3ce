//! The two wire color spaces of the controller.
//!
//! Direct lamp updates carry an [`HIDLampValue`]: the 8-bit sRGB channels of
//! a color plus an intensity channel. Animation payloads carry a
//! [`LinearRGB`]: the gamma-expanded (linear-light) 8-bit channels. The two
//! layouts are wire-incompatible and each report family uses exactly one of
//! them.

use vstd::prelude::*;

verus! {

/// A parsed CSS color of the `csscolorparser` crate, carried opaquely:
/// its channels are floating-point and only the conversion calls below
/// read them.
#[verifier::external_type_specification]
#[verifier::external_body]
pub struct ExColor(csscolorparser::Color);

/// The four 8-bit sRGB channels of a color — red, green, blue, alpha —
/// as `csscolorparser::Color::to_rgba8` computes them: a function of the
/// color's channels alone (one IEEE multiply, add, and saturating cast
/// per channel, all exactly specified).
pub uninterp spec fn rgba8_of(c: csscolorparser::Color) -> Seq<u8>;

/// Relies on `csscolorparser::Color::to_rgba8`: the color's four 8-bit
/// sRGB channels, red, green, blue, alpha, each rounded from the
/// floating-point channel.
#[verifier::external_body]
fn color_to_rgba8(c: &csscolorparser::Color) -> (ch: [u8; 4])
    ensures
        ch@ == rgba8_of(*c),
{
    c.to_rgba8()
}

/// Relies on `csscolorparser::Color::to_linear_rgba_u8`: the color's four
/// 8-bit linear-light (gamma-expanded) channels, red, green, blue, alpha.
///
/// The gamma expansion goes through `f32::powf`, whose precision is
/// documented to vary by platform, Rust version, and even within one
/// execution — so the result is not a function of the color alone and no
/// name is given to it here; callers treat the channels as opaque bytes.
#[verifier::external_body]
#[allow(deprecated)]
fn color_to_linear_rgba8(c: &csscolorparser::Color) -> (ch: [u8; 4]) {
    c.to_linear_rgba_u8()
}

/// A lamp color as carried by the direct lamp-update reports: 8-bit sRGB
/// channels and an intensity channel, four bytes on the wire.
///
/// The all-zero value is a sentinel meaning "lamp off". It is used when the
/// caller supplies no color and is never produced by [`HIDLampValue::from_rgba8`],
/// which always sets the intensity to 1 — even for pure black.
#[derive(Debug, Copy, Clone, PartialEq, Eq, Structural)]
pub struct HIDLampValue {
    pub r: u8,
    pub g: u8,
    pub b: u8,
    pub i: u8,
}

impl HIDLampValue {
    /// True of the all-zero "lamp off" sentinel.
    pub open spec fn is_off_sentinel(self) -> bool {
        self.r == 0 && self.g == 0 && self.b == 0 && self.i == 0
    }

    /// The four wire bytes of this value, in transmission order.
    pub open spec fn wire_bytes(self) -> Seq<u8> {
        seq![self.r, self.g, self.b, self.i]
    }

    /// The "lamp off" sentinel: all four channels zero.
    pub fn zero() -> (c: HIDLampValue)
        ensures
            c.is_off_sentinel(),
    {
        HIDLampValue { r: 0, g: 0, b: 0, i: 0 }
    }

    /// Builds the lamp color for a color given by its 8-bit sRGB channels:
    /// the r/g/b channels are kept exactly, the alpha channel is ignored,
    /// and the intensity is fixed at 1. The result is therefore never the
    /// "lamp off" sentinel, not even for pure black.
    pub fn from_rgba8(r: u8, g: u8, b: u8, a: u8) -> (c: HIDLampValue)
        ensures
            c.r == r,
            c.g == g,
            c.b == b,
            c.i == 1,
            !c.is_off_sentinel(),
    {
        HIDLampValue { r, g, b, i: 1 }
    }

    /// Converts a parsed color for a direct lamp update: its 8-bit sRGB
    /// channels with the alpha channel dropped and the intensity pinned at
    /// 1. Never produces the "lamp off" sentinel.
    pub fn from_color(c: &csscolorparser::Color) -> (v: HIDLampValue)
        ensures
            v.r == rgba8_of(*c)[0],
            v.g == rgba8_of(*c)[1],
            v.b == rgba8_of(*c)[2],
            v.i == 1,
            !v.is_off_sentinel(),
    {
        let ch = color_to_rgba8(c);
        HIDLampValue::from_rgba8(ch[0], ch[1], ch[2], ch[3])
    }
}

/// A lamp color given by its 8-bit sRGB channels is never the same wire
/// value as the "lamp off" sentinel: conversion pins the intensity at 1,
/// while the sentinel's intensity is 0. A user-supplied black and an
/// unset color are distinct on the wire.
pub proof fn lemma_converted_color_is_never_off(c: HIDLampValue, z: HIDLampValue)
    requires
        c.i == 1,
        z.is_off_sentinel(),
    ensures
        c != z,
{
}

/// An animation color: 8-bit linear-light (gamma-expanded) channels, three
/// bytes on the wire. Used only inside animation payloads.
#[derive(Debug, Copy, Clone, PartialEq, Eq, Structural)]
pub struct LinearRGB {
    pub r: u8,
    pub g: u8,
    pub b: u8,
}

impl LinearRGB {
    /// The three wire bytes of this value, in transmission order.
    pub open spec fn wire_bytes(self) -> Seq<u8> {
        seq![self.r, self.g, self.b]
    }

    /// All channels zero; the value of unused animation color slots.
    pub fn zero() -> (c: LinearRGB)
        ensures
            c.r == 0,
            c.g == 0,
            c.b == 0,
    {
        LinearRGB { r: 0, g: 0, b: 0 }
    }

    /// Builds the animation color for a color given by its 8-bit
    /// linear-light channels: the channels are kept exactly and the alpha
    /// channel is ignored.
    pub fn from_linear_rgba8(r: u8, g: u8, b: u8, a: u8) -> (c: LinearRGB)
        ensures
            c.r == r,
            c.g == g,
            c.b == b,
    {
        LinearRGB { r, g, b }
    }

    /// Converts a parsed color for an animation payload: its 8-bit
    /// linear-light channels with the alpha channel dropped.
    pub fn from_color(c: &csscolorparser::Color) -> LinearRGB {
        let ch = color_to_linear_rgba8(c);
        LinearRGB::from_linear_rgba8(ch[0], ch[1], ch[2], ch[3])
    }
}

} // verus!
