//! The desktop's automatic brightness: followed, and set when the root daemon asks for it.
use vstd::prelude::*;

use crate::text::{same, split_whitespace, strip_char, trim};

verus! {

pub const AMBIENT_SCHEMA: &'static str = "org.gnome.settings-daemon.plugins.power";

pub const AMBIENT_KEY: &'static str = "ambient-enabled";

pub open spec fn bool_value(text: Seq<char>) -> Option<bool> {
    let word = crate::text::stripped(crate::text::trimmed(text), '\'');
    if word == "true"@ {
        Some(true)
    } else if word == "false"@ {
        Some(false)
    } else {
        None
    }
}

/// Reads a value of the settings, with or without quotes.
pub fn parse_bool(value: &str) -> (r: Option<bool>)
    ensures
        r == bool_value(value@),
{
    let trimmed = trim(value);
    let word = strip_char(trimmed.as_str(), '\'');
    if same(word.as_str(), "true") {
        Some(true)
    } else if same(word.as_str(), "false") {
        Some(false)
    } else {
        None
    }
}

/// The last word of a line, empty if there is none.
pub open spec fn last_word(line: Seq<char>) -> Seq<char> {
    let words = crate::text::words(line);
    if words.len() > 0 {
        words.last()
    } else {
        Seq::empty()
    }
}

/// Reads a line of the settings' monitor: the value is its last word.
pub fn parse_monitor_line(line: &str) -> (r: Option<bool>)
    ensures
        r == bool_value(last_word(line@)),
{
    let words = split_whitespace(line);
    let ghost views = crate::text::texts(words@);
    let n: usize = words.len();
    if n > 0 {
        assert(views[n - 1] == words@[n - 1]@);
        parse_bool(words[n - 1].as_str())
    } else {
        let empty = String::new();
        parse_bool(empty.as_str())
    }
}

/// The value of a setting.
pub fn setting_text(enabled: bool) -> (r: &'static str)
    ensures
        r@ == crate::text::bool_text(enabled),
{
    if enabled {
        "true"
    } else {
        "false"
    }
}

/// The setting as far as it is known.
#[derive(Clone, Copy, Debug, PartialEq, Eq, Structural)]
pub struct AmbientSync {
    pub current: Option<bool>,
}

impl AmbientSync {
    /// Begins with the value that was read, if it could be read; such a value is to be reported.
    pub fn new(read: Option<bool>) -> (r: Self)
        ensures
            r.current == read,
    {
        AmbientSync { current: read }
    }

    /// A line of the settings' monitor; the value to report, if it holds one.
    pub fn on_line(&mut self, line: &str) -> (report: Option<bool>)
        ensures
            report == bool_value(last_word(line@)),
            final(self).current == (match report {
                Some(v) => Some(v),
                None => old(self).current,
            }),
    {
        let report = parse_monitor_line(line);
        if report.is_some() {
            self.current = report;
        }
        report
    }

    /// Whether the setting must be written to be as desired.
    pub fn must_set(&self, desired: bool) -> (r: bool)
        ensures
            r == (self.current != Some(desired)),
    {
        match self.current {
            Some(v) => v != desired,
            None => true,
        }
    }

    /// The setting was written, or writing it has failed.
    pub fn on_set(&mut self, desired: bool, done: bool)
        ensures
            final(self).current == (if done {
                Some(desired)
            } else {
                old(self).current
            }),
    {
        if done {
            self.current = Some(desired);
        }
    }
}

/// A written value reads back as it was.
pub proof fn law_setting_round_trip(enabled: bool)
    ensures
        bool_value(crate::text::bool_text(enabled)) == Some(enabled),
{
    reveal_strlit("true");
    reveal_strlit("false");
    let text = crate::text::bool_text(enabled);
    crate::text::lemma_trimmed_unchanged(text);
    assert(text[0] != '\'' && text.last() != '\'');
    assert(crate::text::stripped(text, '\'') == text);
    assert("true"@.len() != "false"@.len());
}

/// A value is one of two words, with quotes or not; anything else is none.
pub proof fn law_values_of_the_setting(text: Seq<char>)
    ensures
        bool_value(text) == Some(true) <==> crate::text::stripped(crate::text::trimmed(text), '\'')
            == "true"@,
        bool_value(text) == Some(false) <==> crate::text::stripped(
            crate::text::trimmed(text),
            '\'',
        ) == "false"@,
        AMBIENT_SCHEMA@ == "org.gnome.settings-daemon.plugins.power"@,
        AMBIENT_KEY@ == "ambient-enabled"@,
{
    reveal_strlit("true");
    reveal_strlit("false");
    assert("true"@.len() != "false"@.len());
}

/// The last word of a line is what follows the last whitespace before it.
pub proof fn law_last_words(line: Seq<char>, gap: char, word: Seq<char>)
    requires
        crate::text::whitespace(gap),
        word.len() > 0,
        forall|i: int| 0 <= i < word.len() ==> !crate::text::whitespace(#[trigger] word[i]),
    ensures
        last_word(line.push(gap) + word) == word,
        last_word(word) == word,
        last_word(Seq::empty()) == Seq::<char>::empty(),
{
    crate::text::law_words_are_what_whitespace_parts(line, gap, word);
}

} // verus!
