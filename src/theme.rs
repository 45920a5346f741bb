//! The light or dark colour theme that applications are asked to use.

use vstd::prelude::*;

verus! {

/// A colour theme.
#[derive(Clone, Copy, Debug, PartialEq, Eq, Structural)]
pub enum Theme {
    Light,
    Dark,
    Unknown,
}

/// The theme named by the stored "applications use the light theme" flag, a
/// 32-bit little-endian value: `0` is dark, `1` is light, anything else is unknown.
pub open spec fn theme_of(value: Seq<u8>) -> Theme {
    if value == seq![0u8, 0u8, 0u8, 0u8] {
        Theme::Dark
    } else if value == seq![1u8, 0u8, 0u8, 0u8] {
        Theme::Light
    } else {
        Theme::Unknown
    }
}

/// The name of the settings area whose change means the colour theme may
/// have changed.
pub open spec fn color_set_area() -> Seq<char> {
    seq!['I', 'm', 'm', 'e', 'r', 's', 'i', 'v', 'e', 'C', 'o', 'l', 'o', 'r', 'S', 'e', 't']
}

/// Whether a change of settings area `area` may have changed the colour theme.
pub fn is_theme_area(area: &String) -> (r: bool)
    ensures
        r == (area@ == color_set_area()),
{
    let expected = "ImmersiveColorSet".to_owned();
    proof {
        reveal_strlit("ImmersiveColorSet");
        assert(expected@ =~= color_set_area());
    }
    *area == expected
}

/// Reads the theme out of the four stored bytes of the flag.
pub fn theme_from_setting(value: [u8; 4]) -> (r: Theme)
    ensures
        r == theme_of(value@),
{
    let high_clear = value[1] == 0 && value[2] == 0 && value[3] == 0;
    if high_clear && value[0] == 0 {
        assert(value@ =~= seq![0u8, 0u8, 0u8, 0u8]);
        Theme::Dark
    } else if high_clear && value[0] == 1 {
        assert(value@ =~= seq![1u8, 0u8, 0u8, 0u8]);
        Theme::Light
    } else {
        proof {
            if value@ == seq![0u8, 0u8, 0u8, 0u8] {
                assert(value@[0] == 0 && value@[1] == 0);
            }
            if value@ == seq![1u8, 0u8, 0u8, 0u8] {
                assert(value@[0] == 1 && value@[1] == 0);
            }
        }
        Theme::Unknown
    }
}

} // verus!
