//! The icon glyphs of the bundled icon font.
//!
//! Each icon names a code point in the private-use area of the icon font
//! that the window loads; `get_icon` is the one place that mapping lives.

use vstd::prelude::*;
use vstd::string::StringExecFns;

verus! {

#[derive(Debug, Clone, Copy, PartialEq, Eq, Structural)]
pub enum Icon {
    Stop,
    Play,
    Reset,
    Mouse,
    Keyboard,
    Settings,
    Timer,
    Click,
    Info,
    Valid,
    Invalid,
    Warning,
    Success,
    Error,
}

/// The glyph of each icon in the icon font.
pub open spec fn icon_chars(icon: Icon) -> Seq<char> {
    match icon {
        Icon::Stop => "\u{F102}"@,
        Icon::Play => "\u{F103}"@,
        Icon::Reset => "\u{F10B}"@,
        Icon::Mouse => "\u{F104}"@,
        Icon::Keyboard => "\u{F105}"@,
        Icon::Settings => "\u{F108}"@,
        Icon::Timer => "\u{F101}"@,
        Icon::Click => "\u{F107}"@,
        Icon::Info => "\u{F106}"@,
        Icon::Valid => "\u{F10A}"@,
        Icon::Invalid => "\u{F109}"@,
        Icon::Warning => "\u{F109}"@,
        Icon::Success => "\u{F10A}"@,
        Icon::Error => "\u{F109}"@,
    }
}

pub fn get_icon(icon: Icon) -> (r: &'static str)
    ensures
        r@ == icon_chars(icon),
{
    match icon {
        Icon::Stop => "\u{F102}",
        Icon::Play => "\u{F103}",
        Icon::Reset => "\u{F10B}",
        Icon::Mouse => "\u{F104}",
        Icon::Keyboard => "\u{F105}",
        Icon::Settings => "\u{F108}",
        Icon::Timer => "\u{F101}",
        Icon::Click => "\u{F107}",
        Icon::Info => "\u{F106}",
        Icon::Valid => "\u{F10A}",
        Icon::Invalid => "\u{F109}",
        Icon::Warning => "\u{F109}",
        Icon::Success => "\u{F10A}",
        Icon::Error => "\u{F109}",
    }
}

/// A button caption: the icon's glyph, a space, then the label.
pub fn button_text_with_icon(icon: Icon, label: &str) -> (r: String)
    ensures
        r@ == icon_chars(icon) + seq![' '] + label@,
{
    let mut s = get_icon(icon).to_owned();
    s.append(" ");
    s.append(label);
    proof {
        reveal_strlit(" ");
        assert(" "@ =~= seq![' ']);
        assert(s@ =~= icon_chars(icon) + seq![' '] + label@);
    }
    s
}

} // verus!
