//! Temperature display units and their textual names.
//!
//! The sensor itself reports a raw value; which unit the caller shows it
//! in is selected by name. A unit name may carry a degree sign prefix and
//! is matched without regard to ASCII case, as either the full unit name
//! or its one-letter abbreviation.

use vstd::prelude::*;
use vstd::string::StringSliceAdditionalSpecFns;

verus! {

/// The two supported display units.
#[derive(Copy, Clone, Debug, PartialEq, Eq, Structural)]
pub enum Degrees {
    Celsius,
    Farenheight,
}

/// The ASCII-lowercased image of one byte.
pub open spec fn spec_ascii_lower(c: u8) -> u8 {
    if 65 <= c && c <= 90 {
        (c + 32) as u8
    } else {
        c
    }
}

/// The ASCII-lowercased image of a byte string.
pub open spec fn spec_lower_bytes(b: Seq<u8>) -> Seq<u8> {
    b.map_values(|c: u8| spec_ascii_lower(c))
}

/// The normalized unit name of an input: its UTF-8 bytes with one leading
/// degree sign (the two bytes 0xC2 0xB0) removed if present, then
/// ASCII-lowercased.
pub open spec fn spec_unit_bytes(b: Seq<u8>) -> Seq<u8> {
    spec_lower_bytes(
        if b.len() >= 2 && b[0] == 0xC2 && b[1] == 0xB0 {
            b.skip(2)
        } else {
            b
        },
    )
}

/// The bytes of the name "celsius".
pub open spec fn celsius_bytes() -> Seq<u8> {
    seq![
        ('c' as u8),
        ('e' as u8),
        ('l' as u8),
        ('s' as u8),
        ('i' as u8),
        ('u' as u8),
        ('s' as u8),
    ]
}

/// The bytes of the name "farenheight", in the spelling the tool accepts.
pub open spec fn farenheight_bytes() -> Seq<u8> {
    seq![
        ('f' as u8),
        ('a' as u8),
        ('r' as u8),
        ('e' as u8),
        ('n' as u8),
        ('h' as u8),
        ('e' as u8),
        ('i' as u8),
        ('g' as u8),
        ('h' as u8),
        ('t' as u8),
    ]
}

/// True of an input that names the Celsius unit.
pub open spec fn spec_names_celsius(b: Seq<u8>) -> bool {
    spec_unit_bytes(b) == celsius_bytes() || spec_unit_bytes(b) == seq![('c' as u8)]
}

/// True of an input that names the Fahrenheit unit.
pub open spec fn spec_names_farenheight(b: Seq<u8>) -> bool {
    spec_unit_bytes(b) == farenheight_bytes() || spec_unit_bytes(b) == seq![('f' as u8)]
}

fn ascii_lower(c: u8) -> (r: u8)
    ensures
        r == spec_ascii_lower(c),
{
    if 65 <= c && c <= 90 {
        c + 32
    } else {
        c
    }
}

/// True when the input from `start` on, ASCII-lowercased, is exactly the
/// word `w` (already lowercase).
fn matches_ignore_case(b: &[u8], start: usize, w: &Vec<u8>) -> (r: bool)
    requires
        start <= b@.len(),
    ensures
        r == (spec_lower_bytes(b@.skip(start as int)) == w@),
{
    let ghost lowered = spec_lower_bytes(b@.skip(start as int));
    if b.len() - start != w.len() {
        proof {
            assert(lowered.len() == b@.len() - start);
        }
        return false;
    }
    let mut i: usize = 0;
    while i < w.len()
        invariant
            b@.len() <= usize::MAX,
            start + w@.len() == b@.len(),
            i <= w@.len(),
            lowered == spec_lower_bytes(b@.skip(start as int)),
            forall|j: int| 0 <= j < i ==> lowered[j] == w@[j],
        decreases w@.len() - i,
    {
        if ascii_lower(b[start + i]) != w[i] {
            proof {
                assert(lowered[i as int] == spec_ascii_lower(b@[start + i]));
            }
            return false;
        }
        proof {
            assert(lowered[i as int] == spec_ascii_lower(b@[start + i]));
        }
        i = i + 1;
    }
    proof {
        assert(lowered =~= w@);
    }
    true
}

fn celsius_word() -> (w: Vec<u8>)
    ensures
        w@ == celsius_bytes(),
{
    let mut w: Vec<u8> = Vec::new();
    w.push('c' as u8);
    w.push('e' as u8);
    w.push('l' as u8);
    w.push('s' as u8);
    w.push('i' as u8);
    w.push('u' as u8);
    w.push('s' as u8);
    assert(w@ =~= celsius_bytes());
    w
}

fn farenheight_word() -> (w: Vec<u8>)
    ensures
        w@ == farenheight_bytes(),
{
    let mut w: Vec<u8> = Vec::new();
    w.push('f' as u8);
    w.push('a' as u8);
    w.push('r' as u8);
    w.push('e' as u8);
    w.push('n' as u8);
    w.push('h' as u8);
    w.push('e' as u8);
    w.push('i' as u8);
    w.push('g' as u8);
    w.push('h' as u8);
    w.push('t' as u8);
    assert(w@ =~= farenheight_bytes());
    w
}

fn one_letter_word(c: u8) -> (w: Vec<u8>)
    ensures
        w@ == seq![c],
{
    let mut w: Vec<u8> = Vec::new();
    w.push(c);
    assert(w@ =~= seq![c]);
    w
}

impl Degrees {
    /// Parses a display unit name: an optional degree sign, then
    /// "celsius" or "c", or "farenheight" or "f", in any ASCII case.
    /// Every other input is rejected.
    pub fn parse(s: &str) -> (r: Result<Degrees, String>)
        ensures
            spec_names_celsius(s.spec_bytes()) ==> r == Ok::<Degrees, String>(Degrees::Celsius),
            spec_names_farenheight(s.spec_bytes()) ==> r == Ok::<Degrees, String>(
                Degrees::Farenheight,
            ),
            !spec_names_celsius(s.spec_bytes()) && !spec_names_farenheight(s.spec_bytes()) ==> ({
                &&& r matches Err(m)
                &&& m@ == "invalid degree unit"@
            }),
    {
        let b = s.as_bytes();
        let start: usize = if b.len() >= 2 && b[0] == 0xC2 && b[1] == 0xB0 {
            2
        } else {
            0
        };
        proof {
            if start == 0 {
                assert(b@.skip(0) =~= b@);
            }
            assert(spec_lower_bytes(b@.skip(start as int)) == spec_unit_bytes(s.spec_bytes()));
            assert(seq![('c' as u8)][0] == ('c' as u8));
            assert(seq![('f' as u8)][0] == ('f' as u8));
            assert(celsius_bytes().len() == 7);
            assert(farenheight_bytes().len() == 11);
            assert(seq![('c' as u8)] != seq![('f' as u8)]);
        }
        if matches_ignore_case(b, start, &celsius_word()) || matches_ignore_case(
            b,
            start,
            &one_letter_word('c' as u8),
        ) {
            Ok(Degrees::Celsius)
        } else if matches_ignore_case(b, start, &farenheight_word()) || matches_ignore_case(
            b,
            start,
            &one_letter_word('f' as u8),
        ) {
            Ok(Degrees::Farenheight)
        } else {
            Err("invalid degree unit".to_owned())
        }
    }
}

} // verus!
