use vstd::prelude::*;

verus! {

/// What one channel of a hue-wheel colour holds.
#[derive(Clone, Copy, Debug, PartialEq, Eq, Structural)]
pub enum Channel {
    /// Zero.
    Off,
    /// Full intensity, one.
    Full,
    /// The ramp value `x = 1 - |hue mod 2 - 1|`, which runs between zero and
    /// one across the sextant.
    Ramp,
}

/// The pattern of the three channels of a hue-wheel colour within one sextant.
#[derive(Clone, Copy, Debug, PartialEq, Eq, Structural)]
pub struct HueCorner {
    pub r: Channel,
    pub g: Channel,
    pub b: Channel,
}

/// The six sextants of the wheel, red to yellow to green to cyan to blue to
/// magenta and back to red.
pub open spec fn corner_spec(sextant: int) -> HueCorner {
    if sextant == 0 {
        HueCorner { r: Channel::Full, g: Channel::Ramp, b: Channel::Off }
    } else if sextant == 1 {
        HueCorner { r: Channel::Ramp, g: Channel::Full, b: Channel::Off }
    } else if sextant == 2 {
        HueCorner { r: Channel::Off, g: Channel::Full, b: Channel::Ramp }
    } else if sextant == 3 {
        HueCorner { r: Channel::Off, g: Channel::Ramp, b: Channel::Full }
    } else if sextant == 4 {
        HueCorner { r: Channel::Ramp, g: Channel::Off, b: Channel::Full }
    } else {
        HueCorner { r: Channel::Full, g: Channel::Off, b: Channel::Ramp }
    }
}

/// The value of a channel, given the ramp value.
pub open spec fn level(c: Channel, ramp: int) -> int {
    match c {
        Channel::Off => 0,
        Channel::Full => 1,
        Channel::Ramp => ramp,
    }
}

/// The ramp value where a sextant begins: it rises from zero across the even
/// sextants and falls from one across the odd ones.
pub open spec fn ramp_at_start(sextant: int) -> int {
    sextant % 2
}

/// The ramp value that a sextant tends to at its end.
pub open spec fn ramp_at_end(sextant: int) -> int {
    1 - sextant % 2
}

/// The channel pattern of the sextant `sextant`, that is of hues in
/// `[sextant, sextant + 1)`; `None` when the hue lies outside `[0, 6)`.
pub fn hue_corner(sextant: u8) -> (c: Option<HueCorner>)
    ensures
        c is Some <==> sextant < 6,
        c matches Some(k) ==> k == corner_spec(sextant as int),
{
    match sextant {
        0 => Some(HueCorner { r: Channel::Full, g: Channel::Ramp, b: Channel::Off }),
        1 => Some(HueCorner { r: Channel::Ramp, g: Channel::Full, b: Channel::Off }),
        2 => Some(HueCorner { r: Channel::Off, g: Channel::Full, b: Channel::Ramp }),
        3 => Some(HueCorner { r: Channel::Off, g: Channel::Ramp, b: Channel::Full }),
        4 => Some(HueCorner { r: Channel::Ramp, g: Channel::Off, b: Channel::Full }),
        5 => Some(HueCorner { r: Channel::Full, g: Channel::Off, b: Channel::Ramp }),
        _ => None,
    }
}

/// The hue wheel has no jumps: where one sextant ends and the next begins
/// (the sixth wrapping round to the first), the colour that the first tends
/// to equals the colour the second starts with, channel by channel.
pub proof fn lemma_hue_continuous(sextant: int)
    requires
        0 <= sextant < 6,
    ensures
        ({
            let here = corner_spec(sextant);
            let next = corner_spec((sextant + 1) % 6);
            let e = ramp_at_end(sextant);
            let s = ramp_at_start((sextant + 1) % 6);
            &&& level(here.r, e) == level(next.r, s)
            &&& level(here.g, e) == level(next.g, s)
            &&& level(here.b, e) == level(next.b, s)
        }),
{
}

} // verus!
