//! The on-screen keyboard.
use vstd::prelude::*;

verus! {

pub const OSK_SCHEMA: &'static str = "org.gnome.desktop.a11y.applications";

pub const OSK_KEY: &'static str = "screen-keyboard-enabled";

/// The value of the setting while a keyboard is attached or not: the on-screen keyboard is there
/// when no other is.
pub fn osk_setting(attached: bool) -> (r: &'static str)
    ensures
        r@ == crate::text::bool_text(!attached),
{
    crate::session::ambient::setting_text(!attached)
}

/// The setting of the on-screen keyboard, in words.
pub proof fn law_setting_in_words()
    ensures
        OSK_SCHEMA@ == "org.gnome.desktop.a11y.applications"@,
        OSK_KEY@ == "screen-keyboard-enabled"@,
{
}

} // verus!
