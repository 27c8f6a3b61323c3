use colors::{hue_corner, Channel, HueCorner};

fn level(c: Channel, ramp: i32) -> i32 {
    match c {
        Channel::Off => 0,
        Channel::Full => 1,
        Channel::Ramp => ramp,
    }
}

#[test]
fn first_sextant_is_red_rising_to_yellow() {
    assert_eq!(
        hue_corner(0),
        Some(HueCorner { r: Channel::Full, g: Channel::Ramp, b: Channel::Off })
    );
}

#[test]
fn last_sextant_is_magenta_falling_to_red() {
    assert_eq!(
        hue_corner(5),
        Some(HueCorner { r: Channel::Full, g: Channel::Off, b: Channel::Ramp })
    );
}

#[test]
fn hue_outside_wheel_is_refused() {
    assert_eq!(hue_corner(6), None);
    assert_eq!(hue_corner(255), None);
}

#[test]
fn neighbouring_sextants_meet() {
    for s in 0u8..6 {
        let here = hue_corner(s).unwrap();
        let next = hue_corner((s + 1) % 6).unwrap();
        let end = 1 - (s as i32 % 2);
        let start = ((s + 1) % 6) as i32 % 2;
        assert_eq!(level(here.r, end), level(next.r, start));
        assert_eq!(level(here.g, end), level(next.g, start));
        assert_eq!(level(here.b, end), level(next.b, start));
    }
}

#[test]
fn yellow_at_hue_one_from_both_sides() {
    let below = hue_corner(0).unwrap();
    let above = hue_corner(1).unwrap();
    assert_eq!((level(below.r, 1), level(below.g, 1), level(below.b, 1)), (1, 1, 0));
    assert_eq!((level(above.r, 1), level(above.g, 1), level(above.b, 1)), (1, 1, 0));
}
