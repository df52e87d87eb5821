//! Authorisation of callers on the bus.
use vstd::prelude::*;

use crate::dbus_state::{CallError, CallErrorView};
use crate::text::{chars_of, decimal_text, join3, parse_number, slice_text, split_whitespace};

verus! {

pub const ACTION_REGISTER_SESSION: &'static str = "org.zenbook.duo.register-session";

pub const ACTION_OPERATOR: &'static str = "org.zenbook.duo.operator";

pub const ACTION_RESUME_DISPLAY_APPLIES: &'static str = "org.zenbook.duo.resume-display-applies";

/// The place of the start time among the fields behind the process's name.
pub const PROC_STAT_STARTTIME_FIELD: usize = 19;

// ── The start time of a process ──────────────────────────────────────────────

/// Why the start time of a process could not be read.
pub enum StatError {
    /// The name of the process is missing.
    NoName,
    /// There are too few fields.
    Short,
    /// The field is no number.
    NotANumber(String),
}

/// The place of the last closing bracket, -1 if there is none.
pub open spec fn last_bracket(s: Seq<char>) -> int
    decreases s.len(),
{
    if s.len() == 0 {
        -1
    } else if s.last() == ')' {
        s.len() - 1
    } else {
        last_bracket(s.drop_last())
    }
}

/// The process's name is followed by a one-byte separator.
pub open spec fn separated(s: Seq<char>) -> bool {
    let k = last_bracket(s);
    k >= 0 ==> k + 1 < s.len() && s[k + 1] < '\u{80}'
}

/// The fields behind the process's name and the separator.
pub open spec fn stat_fields(s: Seq<char>) -> Seq<Seq<char>> {
    crate::text::words(s.skip(last_bracket(s) + 2))
}

/// The start time among the fields.
pub open spec fn start_time(s: Seq<char>) -> Option<nat> {
    if last_bracket(s) >= 0 && stat_fields(s).len() > PROC_STAT_STARTTIME_FIELD {
        crate::text::number_value(
            stat_fields(s)[PROC_STAT_STARTTIME_FIELD as int],
            10,
            u64::MAX as nat,
        )
    } else {
        None
    }
}

fn find_last_bracket(c: &Vec<char>) -> (r: Option<usize>)
    ensures
        match r {
            Some(i) => i < c@.len() && last_bracket(c@) == i,
            None => last_bracket(c@) == -1,
        },
{
    let mut n: usize = c.len();
    proof {
        assert(c@.take(n as int) =~= c@);
    }
    while n > 0
        invariant
            n <= c@.len(),
            last_bracket(c@.take(n as int)) == last_bracket(c@),
        decreases n,
    {
        let ghost part = c@.take(n as int);
        proof {
            assert(part.last() == c@[n - 1]);
            assert(part.drop_last() =~= c@.take(n - 1));
        }
        if c[n - 1] == ')' {
            return Some(n - 1);
        }
        n = n - 1;
    }
    None
}

/// Whether the process's name is followed by a separator.
pub fn is_separated(stat: &str) -> (r: bool)
    ensures
        r == separated(stat@),
{
    let c = chars_of(stat);
    match find_last_bracket(&c) {
        Some(k) => k < c.len() - 1 && c[k + 1] < '\u{80}',
        None => true,
    }
}

/// Reads the start time of a process, in clock ticks, from its status line.
pub fn proc_pid_start_time_ticks(stat: &str) -> (r: Result<u64, StatError>)
    requires
        separated(stat@),
    ensures
        match r {
            Ok(ticks) => start_time(stat@) == Some(ticks as nat),
            Err(StatError::NoName) => last_bracket(stat@) < 0,
            Err(StatError::Short) => last_bracket(stat@) >= 0 && stat_fields(stat@).len()
                <= PROC_STAT_STARTTIME_FIELD,
            Err(StatError::NotANumber(field)) => last_bracket(stat@) >= 0 && stat_fields(
                stat@,
            ).len() > PROC_STAT_STARTTIME_FIELD && start_time(stat@) is None && field@
                == stat_fields(stat@)[PROC_STAT_STARTTIME_FIELD as int],
        },
{
    let c = chars_of(stat);
    let k = match find_last_bracket(&c) {
        Some(k) => k,
        None => {
            return Err(StatError::NoName);
        },
    };
    let rest = slice_text(&c, k + 2, c.len());
    proof {
        assert(rest@ =~= stat@.skip(k + 2));
    }
    let fields = split_whitespace(rest.as_str());
    let ghost views = crate::text::texts(fields@);
    assert(views == stat_fields(stat@));
    if fields.len() <= PROC_STAT_STARTTIME_FIELD {
        return Err(StatError::Short);
    }
    assert(views[PROC_STAT_STARTTIME_FIELD as int] == fields@[PROC_STAT_STARTTIME_FIELD as int]@);
    match parse_number(fields[PROC_STAT_STARTTIME_FIELD].as_str(), 10, u64::MAX) {
        Some(ticks) => Ok(ticks),
        None => Err(StatError::NotANumber(fields[PROC_STAT_STARTTIME_FIELD].clone())),
    }
}

// ── The decision ─────────────────────────────────────────────────────────────

/// What the authority's answer means for the caller.
pub open spec fn authorization(
    authorized: bool,
    challenge: bool,
    action_id: Seq<char>,
    pid: u32,
) -> Result<(), CallErrorView> {
    if authorized {
        Ok(())
    } else if challenge {
        Err(
            CallErrorView::AuthFailed(
                "Polkit requires interactive authentication for this action"@,
            ),
        )
    } else {
        Err(
            CallErrorView::AccessDenied(
                "Polkit denied action "@ + action_id + " for pid "@ + crate::text::decimal(
                    pid as nat,
                )
                    + " (not an active local session, or policy does not allow this)"@,
            ),
        )
    }
}

/// Whether the caller may do what it asks for.
pub fn check_authorization(is_authorized: bool, is_challenge: bool, pid: u32, action_id: &str) -> (r:
    Result<(), CallError>)
    ensures
        match r {
            Ok(_) => authorization(is_authorized, is_challenge, action_id@, pid) is Ok,
            Err(e) => authorization(is_authorized, is_challenge, action_id@, pid) == Err::<
                (),
                CallErrorView,
            >(e@),
        },
{
    if is_authorized {
        return Ok(());
    }
    if is_challenge {
        return Err(
            CallError::AuthFailed(
                "Polkit requires interactive authentication for this action".to_owned(),
            ),
        );
    }
    let mut text = join3("Polkit denied action ", action_id, " for pid ");
    text.append(decimal_text(pid as u64).as_str());
    text.append(" (not an active local session, or policy does not allow this)");
    Err(CallError::AccessDenied(text))
}

/// Nothing but the authority's consent lets a caller pass.
pub proof fn law_consent_is_needed(
    authorized: bool,
    challenge: bool,
    action_id: Seq<char>,
    pid: u32,
)
    ensures
        authorization(authorized, challenge, action_id, pid) is Ok <==> authorized,
{
}

/// The actions that are asked for, and the place of the start time.
pub proof fn law_actions_in_words()
    ensures
        ACTION_REGISTER_SESSION@ == "org.zenbook.duo.register-session"@,
        ACTION_OPERATOR@ == "org.zenbook.duo.operator"@,
        ACTION_RESUME_DISPLAY_APPLIES@ == "org.zenbook.duo.resume-display-applies"@,
        PROC_STAT_STARTTIME_FIELD == 19,
{
}

/// The last closing bracket is one, and none stands behind it.
pub proof fn law_last_bracket_is_the_last(s: Seq<char>)
    ensures
        -1 <= last_bracket(s) < s.len(),
        last_bracket(s) >= 0 ==> s[last_bracket(s)] == ')',
        forall|i: int| last_bracket(s) < i < s.len() ==> #[trigger] s[i] != ')',
    decreases s.len(),
{
    if s.len() > 0 && s.last() != ')' {
        let before = s.drop_last();
        law_last_bracket_is_the_last(before);
        assert forall|i: int| last_bracket(s) < i < s.len() implies #[trigger] s[i] != ')' by {
            if i < before.len() {
                assert(before[i] == s[i]);
            }
        }
    }
}

/// The start time is the twentieth field behind the process's name and a separator, whatever
/// brackets and blanks the name holds.
pub proof fn law_start_time_is_the_twentieth_field(
    name: Seq<char>,
    separator: char,
    rest: Seq<char>,
    ticks: nat,
)
    requires
        separator != ')',
        forall|i: int| 0 <= i < rest.len() ==> #[trigger] rest[i] != ')',
        crate::text::words(rest).len() >= 20,
        ticks <= u64::MAX,
        crate::text::words(rest)[19] == crate::text::decimal(ticks),
    ensures
        start_time(name + seq![')', separator] + rest) == Some(ticks),
        stat_fields(name + seq![')', separator] + rest) == crate::text::words(rest),
{
    let s = name + seq![')', separator] + rest;
    law_last_bracket_is_the_last(s);
    assert(s[name.len() as int] == ')');
    assert(s[name.len() as int + 1] == separator);
    assert forall|i: int| name.len() + 2 <= i < s.len() implies #[trigger] s[i] != ')' by {
        assert(s[i] == rest[i - name.len() - 2]);
    }
    assert(last_bracket(s) == name.len());
    assert(s.skip(last_bracket(s) + 2) =~= rest);
    crate::text::law_decimal_reads_back(ticks, u64::MAX as nat);
}

/// A line without a closing bracket, and one with too few fields, has no start time.
pub proof fn law_no_start_time(s: Seq<char>)
    ensures
        last_bracket(s) < 0 ==> start_time(s) is None,
        stat_fields(s).len() < 20 ==> start_time(s) is None,
{
}

/// A name is followed by a separator exactly if a character of ASCII stands behind the last bracket,
/// or there is no bracket.
pub proof fn law_separators(s: Seq<char>)
    ensures
        last_bracket(s) < 0 ==> separated(s),
        last_bracket(s) >= 0 ==> (separated(s) <==> last_bracket(s) + 1 < s.len() && (s[last_bracket(
            s,
        ) + 1] as int) < 128),
{
}

/// A refusal says whether authentication would help.
pub proof fn law_refusals_in_words(action_id: Seq<char>, pid: u32)
    ensures
        authorization(true, true, action_id, pid) is Ok,
        authorization(true, false, action_id, pid) is Ok,
        authorization(false, true, action_id, pid) == Err::<(), CallErrorView>(
            CallErrorView::AuthFailed(
                "Polkit requires interactive authentication for this action"@,
            ),
        ),
        authorization(false, false, action_id, pid) == Err::<(), CallErrorView>(
            CallErrorView::AccessDenied(
                "Polkit denied action "@ + action_id + " for pid "@ + crate::text::decimal(
                    pid as nat,
                ) + " (not an active local session, or policy does not allow this)"@,
            ),
        ),
{
}

} // verus!
