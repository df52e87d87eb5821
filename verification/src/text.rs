//! Text helpers shared by the other modules: comparison, building, trimming and number parsing.
use vstd::prelude::*;

verus! {

/// Whether two strings have the same characters in the same order.
pub(crate) fn same(a: &str, b: &str) -> (r: bool)
    ensures
        r == (a@ == b@),
{
    a.to_owned() == b.to_owned()
}

/// Appends one character. Calls `String::push`, which adds the character to the end.
#[verifier::external_body]
pub(crate) fn push_char(s: &mut String, c: char)
    ensures
        final(s)@ == old(s)@.push(c),
{
    s.push(c)
}

/// The character has the Unicode `White_Space` property.
pub open spec fn whitespace(c: char) -> bool {
    let n = c as u32;
    ||| 0x09 <= n <= 0x0d
    ||| n == 0x20
    ||| n == 0x85
    ||| n == 0xa0
    ||| n == 0x1680
    ||| 0x2000 <= n <= 0x200a
    ||| n == 0x2028
    ||| n == 0x2029
    ||| n == 0x202f
    ||| n == 0x205f
    ||| n == 0x3000
}

/// Whether a character is whitespace.
pub fn is_whitespace(c: char) -> (r: bool)
    ensures
        r == whitespace(c),
{
    let n: u32 = c as u32;
    (0x09 <= n && n <= 0x0d) || n == 0x20 || n == 0x85 || n == 0xa0 || n == 0x1680 || (0x2000 <= n
        && n <= 0x200a) || n == 0x2028 || n == 0x2029 || n == 0x202f || n == 0x205f || n == 0x3000
}

/// The text that `str::to_lowercase` gives for a text.
pub uninterp spec fn lowercase(s: Seq<char>) -> Seq<char>;

/// Calls `str::to_lowercase`; the contract only names its result.
#[verifier::external_body]
pub(crate) fn to_lowercase(s: &str) -> (r: String)
    ensures
        r@ == lowercase(s@),
{
    s.to_lowercase()
}

/// The text that `str::to_uppercase` gives for a text.
pub uninterp spec fn uppercase(s: Seq<char>) -> Seq<char>;

/// Calls `str::to_uppercase`; the contract only names its result.
#[verifier::external_body]
pub(crate) fn to_uppercase(s: &str) -> (r: String)
    ensures
        r@ == uppercase(s@),
{
    s.to_uppercase()
}

/// The characters of a string, in order.
pub fn chars_of(s: &str) -> (v: Vec<char>)
    ensures
        v@ == s@,
{
    let n: usize = s.unicode_len();
    let mut v: Vec<char> = Vec::new();
    let mut i: usize = 0;
    while i < n
        invariant
            i <= n,
            n == s@.len(),
            v@ == s@.take(i as int),
        decreases n - i,
    {
        v.push(s.get_char(i));
        proof {
            assert(s@.take(i as int + 1) =~= s@.take(i as int).push(s@[i as int]));
        }
        i = i + 1;
    }
    proof {
        assert(s@.take(n as int) =~= s@);
    }
    v
}

/// `a` followed by `b`.
pub fn join2(a: &str, b: &str) -> (r: String)
    ensures
        r@ == a@ + b@,
{
    let mut s = a.to_owned();
    s.append(b);
    s
}

/// `a`, `b` and `c` one after the other.
pub fn join3(a: &str, b: &str, c: &str) -> (r: String)
    ensures
        r@ == a@ + b@ + c@,
{
    let mut s = a.to_owned();
    s.append(b);
    s.append(c);
    s
}

/// `needle` stands in `text` at position `i`.
pub open spec fn stands_at(text: Seq<char>, needle: Seq<char>, i: int) -> bool {
    0 <= i <= text.len() - needle.len() && text.subrange(i, i + needle.len()) == needle
}

/// `needle` stands somewhere in `text`.
pub open spec fn contains_text(text: Seq<char>, needle: Seq<char>) -> bool {
    exists|i: int| stands_at(text, needle, i)
}

fn matches_at(text: &Vec<char>, needle: &Vec<char>, at: usize) -> (r: bool)
    requires
        at + needle@.len() <= text@.len(),
    ensures
        r == stands_at(text@, needle@, at as int),
{
    let size: usize = text.len();
    let mut k: usize = 0;
    while k < needle.len()
        invariant
            k <= needle@.len(),
            size == text@.len(),
            at + needle@.len() <= text@.len(),
            forall|j: int| 0 <= j < k ==> text@[at + j] == needle@[j],
        decreases needle@.len() - k,
    {
        if text[at + k] != needle[k] {
            proof {
                assert(text@.subrange(at as int, at + needle@.len())[k as int] != needle@[k as int]);
            }
            return false;
        }
        k = k + 1;
    }
    proof {
        assert(text@.subrange(at as int, at + needle@.len()) =~= needle@);
    }
    true
}

/// Whether `needle` occurs in `text`.
pub fn contains(text: &str, needle: &str) -> (r: bool)
    ensures
        r == contains_text(text@, needle@),
{
    let t = chars_of(text);
    let n = chars_of(needle);
    if n.len() > t.len() {
        return false;
    }
    let last: usize = t.len() - n.len();
    let mut i: usize = 0;
    while i <= last
        invariant
            i <= last + 1,
            last == t@.len() - n@.len(),
            last < usize::MAX || n@.len() == 0,
            t@ == text@,
            n@ == needle@,
            forall|j: int| 0 <= j < i ==> !stands_at(t@, n@, j),
        decreases last + 1 - i,
    {
        if matches_at(&t, &n, i) {
            return true;
        }
        if i == last {
            return false;
        }
        i = i + 1;
    }
    false
}

/// Whether `text` begins with `prefix`.
pub fn starts_with(text: &str, prefix: &str) -> (r: bool)
    ensures
        r == prefix@.is_prefix_of(text@),
{
    let t = chars_of(text);
    let p = chars_of(prefix);
    if p.len() > t.len() {
        return false;
    }
    let at_start = matches_at(&t, &p, 0);
    proof {
        assert(text@.subrange(0, prefix@.len() as int) =~= text@.take(prefix@.len() as int));
        assert(at_start == prefix@.is_prefix_of(text@)) by {
            if at_start {
                assert(prefix@ =~= text@.subrange(0, prefix@.len() as int));
            }
        }
    }
    at_start
}

// ── Decimal numbers ──────────────────────────────────────────────────────────

/// The digit character of `d`, for `d` below ten.
pub open spec fn digit(d: nat) -> char {
    if d == 0 {
        '0'
    } else if d == 1 {
        '1'
    } else if d == 2 {
        '2'
    } else if d == 3 {
        '3'
    } else if d == 4 {
        '4'
    } else if d == 5 {
        '5'
    } else if d == 6 {
        '6'
    } else if d == 7 {
        '7'
    } else if d == 8 {
        '8'
    } else {
        '9'
    }
}

/// `n` in decimal, without leading zeros.
pub open spec fn decimal(n: nat) -> Seq<char>
    decreases n,
{
    if n < 10 {
        seq![digit(n)]
    } else {
        decimal(n / 10).push(digit(n % 10))
    }
}

/// A signed number in decimal: a minus sign in front of the magnitude of a negative one.
pub open spec fn decimal_signed(n: int) -> Seq<char> {
    if n < 0 {
        seq!['-'] + decimal((-n) as nat)
    } else {
        decimal(n as nat)
    }
}

/// `true` or `false`.
pub open spec fn bool_text(b: bool) -> Seq<char> {
    if b {
        "true"@
    } else {
        "false"@
    }
}

fn digit_char(d: u64) -> (c: char)
    requires
        d < 10,
    ensures
        c == digit(d as nat),
{
    match d {
        0 => '0',
        1 => '1',
        2 => '2',
        3 => '3',
        4 => '4',
        5 => '5',
        6 => '6',
        7 => '7',
        8 => '8',
        _ => '9',
    }
}

/// Formats `n` in decimal.
pub fn decimal_text(n: u64) -> (r: String)
    ensures
        r@ == decimal(n as nat),
    decreases n,
{
    if n < 10 {
        let mut s = String::new();
        push_char(&mut s, digit_char(n));
        proof {
            assert(s@ =~= seq![digit(n as nat)]);
        }
        s
    } else {
        let mut s = decimal_text(n / 10);
        push_char(&mut s, digit_char(n % 10));
        s
    }
}

/// Formats a signed `n` in decimal.
pub fn decimal_signed_text(n: i64) -> (r: String)
    ensures
        r@ == decimal_signed(n as int),
{
    if n < 0 {
        let magnitude: u64 = if n == i64::MIN {
            0x8000_0000_0000_0000u64
        } else {
            (-n) as u64
        };
        let digits = decimal_text(magnitude);
        let mut s = String::new();
        push_char(&mut s, '-');
        proof {
            assert(s@ =~= seq!['-']);
        }
        s.append(digits.as_str());
        s
    } else {
        decimal_text(n as u64)
    }
}

/// Formats a flag.
pub fn bool_string(b: bool) -> (r: String)
    ensures
        r@ == bool_text(b),
{
    if b {
        "true".to_owned()
    } else {
        "false".to_owned()
    }
}

// ── Parsing numbers ──────────────────────────────────────────────────────────

/// The value of a digit in a base of at most sixteen.
pub open spec fn digit_value(c: char, radix: nat) -> Option<nat> {
    let v: nat = if '0' <= c && c <= '9' {
        (c as int - '0' as int) as nat
    } else if 'a' <= c && c <= 'f' {
        (c as int - 'a' as int + 10) as nat
    } else if 'A' <= c && c <= 'F' {
        (c as int - 'A' as int + 10) as nat
    } else {
        16
    };
    if v < radix {
        Some(v)
    } else {
        None
    }
}

/// The value of a row of digits; `None` if something else is among them.
pub open spec fn digits_value(s: Seq<char>, radix: nat) -> Option<nat>
    decreases s.len(),
{
    if s.len() == 0 {
        Some(0)
    } else {
        match (digits_value(s.drop_last(), radix), digit_value(s.last(), radix)) {
            (Some(v), Some(d)) => Some(v * radix + d),
            _ => None,
        }
    }
}

/// What follows an optional plus sign.
pub open spec fn unsigned_part(s: Seq<char>) -> Seq<char> {
    if s.len() > 0 && s[0] == '+' {
        s.drop_first()
    } else {
        s
    }
}

/// The number that a text stands for: an optional plus sign and at least one digit, with a value
/// of at most `max`.
pub open spec fn number_value(s: Seq<char>, radix: nat, max: nat) -> Option<nat> {
    let digits = unsigned_part(s);
    match digits_value(digits, radix) {
        Some(v) => if digits.len() > 0 && v <= max {
            Some(v)
        } else {
            None
        },
        None => None,
    }
}

fn digit_of(c: char, radix: u64) -> (r: Option<u64>)
    requires
        radix <= 16,
    ensures
        r matches Some(d) ==> digit_value(c, radix as nat) == Some(d as nat),
        r is None ==> digit_value(c, radix as nat) is None,
{
    let v: u64 = if '0' <= c && c <= '9' {
        (c as u64) - ('0' as u64)
    } else if 'a' <= c && c <= 'f' {
        (c as u64) - ('a' as u64) + 10
    } else if 'A' <= c && c <= 'F' {
        (c as u64) - ('A' as u64) + 10
    } else {
        16
    };
    if v < radix {
        Some(v)
    } else {
        None
    }
}

/// A row of digits that is too large stays so when digits are added.
proof fn lemma_digits_grow(s: Seq<char>, n: int, radix: nat, max: nat)
    requires
        0 <= n <= s.len(),
        radix >= 1,
        digits_value(s.take(n), radix) matches Some(v) ==> v > max,
    ensures
        digits_value(s, radix) matches Some(v) ==> v > max,
    decreases s.len() - n,
{
    if n == s.len() {
        assert(s.take(n) =~= s);
    } else {
        let next = s.take(n + 1);
        assert(next.drop_last() =~= s.take(n));
        match (digits_value(s.take(n), radix), digit_value(next.last(), radix)) {
            (Some(v), Some(d)) => {
                assert(v * radix + d >= v) by (nonlinear_arith)
                    requires
                        radix >= 1,
                ;
            },
            _ => {},
        }
        lemma_digits_grow(s, n + 1, radix, max);
    }
}

/// Parses an unsigned number of at most `max` in base `radix`.
pub fn parse_number(s: &str, radix: u64, max: u64) -> (r: Option<u64>)
    requires
        1 <= radix <= 16,
    ensures
        r matches Some(v) ==> number_value(s@, radix as nat, max as nat) == Some(v as nat),
        r is None ==> number_value(s@, radix as nat, max as nat) is None,
{
    let c = chars_of(s);
    let start: usize = if c.len() > 0 && c[0] == '+' {
        1
    } else {
        0
    };
    let ghost digits = unsigned_part(s@);
    proof {
        assert(digits =~= c@.skip(start as int));
    }
    if c.len() == start {
        return None;
    }
    let mut v: u64 = 0;
    let mut i: usize = start;
    proof {
        assert(digits.take(0) =~= Seq::empty());
    }
    while i < c.len()
        invariant
            start <= i <= c@.len(),
            1 <= radix <= 16,
            digits == c@.skip(start as int),
            digits == unsigned_part(s@),
            v <= max,
            digits_value(digits.take(i - start), radix as nat) == Some(v as nat),
        decreases c@.len() - i,
    {
        let ghost n = i - start;
        proof {
            assert(digits.take(n + 1).drop_last() =~= digits.take(n));
            assert(digits.take(n + 1).last() == c@[i as int]);
        }
        match digit_of(c[i], radix) {
            None => {
                proof {
                    lemma_digits_grow(digits, n + 1, radix as nat, max as nat);
                }
                return None;
            },
            Some(d) => {
                assert(0 <= v * radix <= 0xffff_ffff_ffff_ffff * 16) by (nonlinear_arith)
                    requires
                        v <= 0xffff_ffff_ffff_ffff,
                        radix <= 16,
                ;
                let wide: u128 = (v as u128) * (radix as u128) + (d as u128);
                if wide > max as u128 {
                    proof {
                        lemma_digits_grow(digits, n + 1, radix as nat, max as nat);
                    }
                    return None;
                }
                v = wide as u64;
            },
        }
        i = i + 1;
    }
    proof {
        assert(digits.take(digits.len() as int) =~= digits);
    }
    Some(v)
}

// ── Trimming ─────────────────────────────────────────────────────────────────

/// `s` without the leading characters for which `p` holds.
pub open spec fn trim_front(s: Seq<char>, p: spec_fn(char) -> bool) -> Seq<char>
    decreases s.len(),
{
    if s.len() > 0 && p(s[0]) {
        trim_front(s.drop_first(), p)
    } else {
        s
    }
}

/// `s` without the trailing characters for which `p` holds.
pub open spec fn trim_back(s: Seq<char>, p: spec_fn(char) -> bool) -> Seq<char>
    decreases s.len(),
{
    if s.len() > 0 && p(s.last()) {
        trim_back(s.drop_last(), p)
    } else {
        s
    }
}

/// `s` without whitespace at either end.
pub open spec fn trimmed(s: Seq<char>) -> Seq<char> {
    trim_back(trim_front(s, |c: char| whitespace(c)), |c: char| whitespace(c))
}

/// `s` without the character `q` at either end.
pub open spec fn stripped(s: Seq<char>, q: char) -> Seq<char> {
    trim_back(trim_front(s, is_char(q)), is_char(q))
}

pub open spec fn is_char(q: char) -> spec_fn(char) -> bool {
    |c: char| c == q
}

/// Trims whitespace at both ends.
pub fn trim(s: &str) -> (r: String)
    ensures
        r@ == trimmed(s@),
{
    let c = chars_of(s);
    let ghost ws = |c: char| whitespace(c);
    let mut a: usize = 0;
    proof {
        assert(c@.skip(0) =~= c@);
    }
    while a < c.len() && is_whitespace(c[a])
        invariant
            a <= c@.len(),
            ws == (|c: char| whitespace(c)),
            trim_front(c@.skip(a as int), ws) == trim_front(c@, ws),
        decreases c@.len() - a,
    {
        proof {
            assert(c@.skip(a as int).drop_first() =~= c@.skip(a as int + 1));
        }
        a = a + 1;
    }
    let ghost front = c@.skip(a as int);
    proof {
        if a < c@.len() {
            assert(front[0] == c@[a as int]);
        }
        assert(trim_front(c@, ws) == front);
    }
    let mut b: usize = c.len();
    proof {
        assert(c@.subrange(a as int, b as int) =~= front);
    }
    while b > a && is_whitespace(c[b - 1])
        invariant
            a <= b <= c@.len(),
            ws == (|c: char| whitespace(c)),
            trim_back(c@.subrange(a as int, b as int), ws) == trim_back(front, ws),
        decreases b,
    {
        proof {
            assert(c@.subrange(a as int, b as int).drop_last() =~= c@.subrange(
                a as int,
                b - 1,
            ));
            assert(c@.subrange(a as int, b as int).last() == c@[b - 1]);
        }
        b = b - 1;
    }
    proof {
        if b > a {
            assert(c@.subrange(a as int, b as int).last() == c@[b - 1]);
        }
    }
    slice_text(&c, a, b)
}

/// Trims whitespace at the end.
pub fn trim_end(s: &str) -> (r: String)
    ensures
        r@ == trim_back(s@, |c: char| whitespace(c)),
{
    let c = chars_of(s);
    let ghost ws = |c: char| whitespace(c);
    let mut b: usize = c.len();
    proof {
        assert(c@.subrange(0, b as int) =~= s@);
    }
    while b > 0 && is_whitespace(c[b - 1])
        invariant
            b <= c@.len(),
            ws == (|c: char| whitespace(c)),
            trim_back(c@.subrange(0, b as int), ws) == trim_back(s@, ws),
        decreases b,
    {
        proof {
            assert(c@.subrange(0, b as int).drop_last() =~= c@.subrange(0, b - 1));
            assert(c@.subrange(0, b as int).last() == c@[b - 1]);
        }
        b = b - 1;
    }
    proof {
        if b > 0 {
            assert(c@.subrange(0, b as int).last() == c@[b - 1]);
        }
    }
    slice_text(&c, 0, b)
}

/// Trims the character `q` at both ends.
pub fn strip_char(s: &str, q: char) -> (r: String)
    ensures
        r@ == stripped(s@, q),
{
    let c = chars_of(s);
    let ghost is_q = is_char(q);
    let mut a: usize = 0;
    proof {
        assert(c@.skip(0) =~= c@);
    }
    while a < c.len() && c[a] == q
        invariant
            a <= c@.len(),
            is_q == is_char(q),
            trim_front(c@.skip(a as int), is_q) == trim_front(c@, is_q),
        decreases c@.len() - a,
    {
        proof {
            assert(c@.skip(a as int).drop_first() =~= c@.skip(a as int + 1));
        }
        a = a + 1;
    }
    let ghost front = c@.skip(a as int);
    proof {
        if a < c@.len() {
            assert(front[0] == c@[a as int]);
        }
        assert(trim_front(c@, is_q) == front);
    }
    let mut b: usize = c.len();
    proof {
        assert(c@.subrange(a as int, b as int) =~= front);
    }
    while b > a && c[b - 1] == q
        invariant
            a <= b <= c@.len(),
            is_q == is_char(q),
            trim_back(c@.subrange(a as int, b as int), is_q) == trim_back(front, is_q),
        decreases b,
    {
        proof {
            assert(c@.subrange(a as int, b as int).drop_last() =~= c@.subrange(
                a as int,
                b - 1,
            ));
            assert(c@.subrange(a as int, b as int).last() == c@[b - 1]);
        }
        b = b - 1;
    }
    proof {
        if b > a {
            assert(c@.subrange(a as int, b as int).last() == c@[b - 1]);
        }
    }
    slice_text(&c, a, b)
}

/// A text without whitespace at its ends is not changed by trimming.
pub proof fn lemma_trimmed_unchanged(s: Seq<char>)
    requires
        s.len() > 0,
        !whitespace(s[0]),
        !whitespace(s.last()),
    ensures
        trimmed(s) == s,
{
}

/// The characters from `a` up to `b` as a string.
pub fn slice_text(c: &Vec<char>, a: usize, b: usize) -> (r: String)
    requires
        a <= b <= c@.len(),
    ensures
        r@ == c@.subrange(a as int, b as int),
{
    let mut s = String::new();
    let mut i: usize = a;
    while i < b
        invariant
            a <= i <= b <= c@.len(),
            s@ =~= c@.subrange(a as int, i as int),
        decreases b - i,
    {
        push_char(&mut s, c[i]);
        i = i + 1;
    }
    s
}

// ── Words ────────────────────────────────────────────────────────────────────

/// The views of the texts.
pub open spec fn texts(v: Seq<String>) -> Seq<Seq<char>> {
    Seq::new(v.len(), |i: int| v[i]@)
}

/// The words between whitespace: a character that is no whitespace begins a word at the start and
/// behind whitespace, and goes on with one otherwise.
pub open spec fn words(s: Seq<char>) -> Seq<Seq<char>>
    decreases s.len(),
{
    if s.len() == 0 {
        Seq::empty()
    } else {
        let before = words(s.drop_last());
        if whitespace(s.last()) {
            before
        } else if s.len() == 1 || whitespace(s[s.len() - 2]) {
            before.push(seq![s.last()])
        } else {
            before.drop_last().push(before.last().push(s.last()))
        }
    }
}

/// Splits a text at whitespace.
pub fn split_whitespace(s: &str) -> (r: Vec<String>)
    ensures
        texts(r@) == words(s@),
{
    let c = chars_of(s);
    let mut done: Vec<String> = Vec::new();
    let mut word = String::new();
    let mut inside: bool = false;
    let mut i: usize = 0;
    proof {
        assert(texts(done@) =~= words(s@.take(0)));
    }
    while i < c.len()
        invariant
            i <= c@.len(),
            c@ == s@,
            inside == (i > 0 && !whitespace(s@[i - 1])),
            !inside ==> word@ == Seq::<char>::empty(),
            words(s@.take(i as int)) == (if inside {
                texts(done@).push(word@)
            } else {
                texts(done@)
            }),
        decreases c@.len() - i,
    {
        let ch = c[i];
        let ghost before = s@.take(i as int);
        let ghost more = s@.take(i + 1);
        proof {
            assert(more.drop_last() =~= before);
            assert(more.last() == ch);
            if i > 0 {
                assert(more[more.len() - 2] == s@[i - 1]);
            }
        }
        if is_whitespace(ch) {
            if inside {
                proof {
                    assert(texts(done@.push(word)) =~= texts(done@).push(word@));
                }
                done.push(word);
                word = String::new();
                inside = false;
            }
        } else {
            let ghost started = texts(done@).push(word@);
            push_char(&mut word, ch);
            proof {
                if inside {
                    assert(started.drop_last() =~= texts(done@));
                } else {
                    assert(word@ =~= seq![ch]);
                }
            }
            inside = true;
        }
        i = i + 1;
    }
    proof {
        assert(s@.take(s@.len() as int) =~= s@);
    }
    if inside {
        proof {
            assert(texts(done@.push(word)) =~= texts(done@).push(word@));
        }
        done.push(word);
    }
    done
}

/// What follows a prefix; `None` if the text does not begin with it.
pub fn strip_prefix(text: &str, prefix: &str) -> (r: Option<String>)
    ensures
        match r {
            Some(rest) => prefix@.is_prefix_of(text@) && rest@ == text@.skip(
                prefix@.len() as int,
            ),
            None => !prefix@.is_prefix_of(text@),
        },
{
    if starts_with(text, prefix) {
        let c = chars_of(text);
        let n: usize = prefix.unicode_len();
        let rest = slice_text(&c, n, c.len());
        proof {
            assert(rest@ =~= text@.skip(prefix@.len() as int));
        }
        Some(rest)
    } else {
        None
    }
}

// ── What the helpers give ────────────────────────────────────────────────────

proof fn lemma_decimal_digits(n: nat)
    ensures
        decimal(n).len() > 0,
        '0' <= decimal(n)[0] <= '9',
        digits_value(decimal(n), 10) == Some(n),
    decreases n,
{
    if n < 10 {
        let s = seq![digit(n)];
        assert(s.drop_last() =~= Seq::empty());
        assert(s.last() == digit(n));
        assert(digits_value(Seq::empty(), 10) == Some(0nat));
    } else {
        lemma_decimal_digits(n / 10);
        let s = decimal(n / 10).push(digit(n % 10));
        assert(s.drop_last() =~= decimal(n / 10));
        assert(s.last() == digit(n % 10));
        assert(s[0] == decimal(n / 10)[0]);
    }
}

/// A number written in decimal is read as the same number, and has no needless zero in front.
pub proof fn law_decimal_reads_back(n: nat, max: nat)
    requires
        n <= max,
    ensures
        number_value(decimal(n), 10, max) == Some(n),
        n > 0 ==> decimal(n)[0] != '0',
    decreases n,
{
    lemma_decimal_digits(n);
    if n >= 10 {
        law_decimal_reads_back(n / 10, max);
        lemma_decimal_digits(n / 10);
    }
}

/// A negative number has a minus sign before its magnitude, another one has none.
pub proof fn law_signed_decimal(n: nat)
    ensures
        decimal_signed(n as int) == decimal(n),
        n > 0 ==> decimal_signed(-(n as int)) == seq!['-'] + decimal(n),
{
}

/// A number above the limit, one without digits and one with anything but digits is refused.
pub proof fn law_numbers_that_are_refused(n: nat, max: nat, s: Seq<char>, i: int)
    ensures
        max < n ==> number_value(decimal(n), 10, max) is None,
        number_value(Seq::empty(), 10, max) is None,
        0 < i < s.len() && !('0' <= s[i] <= '9') ==> number_value(s, 10, max) is None,
{
    lemma_decimal_digits(n);
    if 0 < i < s.len() && !('0' <= s[i] <= '9') {
        let digits = unsigned_part(s);
        if s[0] == '+' {
            assert(digits[i - 1] == s[i]);
            lemma_no_digit(digits, i - 1);
        } else {
            lemma_no_digit(digits, i);
        }
    }
}

proof fn lemma_no_digit(s: Seq<char>, i: int)
    requires
        0 <= i < s.len(),
        !('0' <= s[i] <= '9'),
    ensures
        digits_value(s, 10) is None,
    decreases s.len(),
{
    if i < s.len() - 1 {
        lemma_no_digit(s.drop_last(), i);
    }
}

/// A plus sign in front does not change a number.
pub proof fn law_plus_sign_is_ignored(n: nat, max: nat)
    requires
        n <= max,
    ensures
        number_value(seq!['+'] + decimal(n), 10, max) == Some(n),
{
    lemma_decimal_digits(n);
    assert((seq!['+'] + decimal(n)).drop_first() =~= decimal(n));
}

/// Letters count from ten on in base sixteen, in either case.
pub proof fn law_hexadecimal_digits(c: char)
    ensures
        '0' <= c <= '9' ==> digit_value(c, 16) == Some((c as int - '0' as int) as nat),
        'a' <= c <= 'f' ==> digit_value(c, 16) == Some((c as int - 'a' as int + 10) as nat),
        'A' <= c <= 'F' ==> digit_value(c, 16) == Some((c as int - 'A' as int + 10) as nat),
        !('0' <= c <= '9') && !('a' <= c <= 'f') && !('A' <= c <= 'F') ==> digit_value(c, 16)
            is None,
        digit_value(c, 10) is Some <==> '0' <= c <= '9',
{
}

/// The words for flags.
pub proof fn law_flags_in_words(b: bool)
    ensures
        bool_text(b) == "true"@ <==> b,
        bool_text(b) == "false"@ <==> !b,
{
    reveal_strlit("true");
    reveal_strlit("false");
    assert("true"@.len() != "false"@.len());
}

/// Among the characters of ASCII the blank, the tab and the line ends are whitespace.
pub proof fn law_ascii_whitespace(c: char)
    requires
        (c as u32) < 128,
    ensures
        whitespace(c) <==> c == ' ' || '\t' <= c <= '\r',
{
}

/// A text is found where its characters stand one after the other, and nowhere else.
pub proof fn law_found_text_stands_there(text: Seq<char>, needle: Seq<char>, i: int)
    ensures
        stands_at(text, needle, i) <==> 0 <= i && i + needle.len() <= text.len() && forall|j: int|
            0 <= j < needle.len() ==> text[i + j] == #[trigger] needle[j],
        stands_at(text, needle, i) ==> contains_text(text, needle),
{
    if 0 <= i && i + needle.len() <= text.len() && forall|j: int|
        0 <= j < needle.len() ==> text[i + j] == #[trigger] needle[j] {
        assert(text.subrange(i, i + needle.len()) =~= needle);
    }
    if stands_at(text, needle, i) {
        assert forall|j: int| 0 <= j < needle.len() implies text[i + j] == #[trigger] needle[j] by {
            assert(text.subrange(i, i + needle.len())[j] == text[i + j]);
        }
    }
}

/// A text is found in anything that holds it, whatever stands around it.
pub proof fn law_text_is_found_anywhere(before: Seq<char>, needle: Seq<char>, after: Seq<char>)
    ensures
        contains_text(before + needle + after, needle),
{
    let text = before + needle + after;
    assert(text.subrange(before.len() as int, (before.len() + needle.len()) as int) =~= needle);
    assert(stands_at(text, needle, before.len() as int));
}

/// A text that is longer than another is not found in it.
pub proof fn law_longer_text_is_not_found(text: Seq<char>, needle: Seq<char>)
    requires
        text.len() < needle.len(),
    ensures
        !contains_text(text, needle),
{
}

pub proof fn lemma_trim_front(s: Seq<char>, p: spec_fn(char) -> bool) -> (k: int)
    ensures
        0 <= k <= s.len(),
        trim_front(s, p) == s.skip(k),
        forall|i: int| 0 <= i < k ==> p(#[trigger] s[i]),
        k < s.len() ==> !p(s[k]),
    decreases s.len(),
{
    if s.len() > 0 && p(s[0]) {
        let rest = s.drop_first();
        let k = lemma_trim_front(rest, p);
        assert(rest.skip(k) =~= s.skip(k + 1));
        assert forall|i: int| 0 <= i < k + 1 implies p(#[trigger] s[i]) by {
            if i > 0 {
                assert(rest[i - 1] == s[i]);
            }
        }
        if k + 1 < s.len() {
            assert(rest[k] == s[k + 1]);
        }
        k + 1
    } else {
        assert(s.skip(0) =~= s);
        0
    }
}

pub proof fn lemma_trim_back(s: Seq<char>, p: spec_fn(char) -> bool) -> (k: int)
    ensures
        0 <= k <= s.len(),
        trim_back(s, p) == s.take(k),
        forall|i: int| k <= i < s.len() ==> p(#[trigger] s[i]),
        k > 0 ==> !p(s[k - 1]),
    decreases s.len(),
{
    if s.len() > 0 && p(s.last()) {
        let rest = s.drop_last();
        let k = lemma_trim_back(rest, p);
        assert(rest.take(k) =~= s.take(k));
        assert forall|i: int| k <= i < s.len() implies p(#[trigger] s[i]) by {
            if i < rest.len() {
                assert(rest[i] == s[i]);
            }
        }
        k
    } else {
        assert(s.take(s.len() as int) =~= s);
        s.len() as int
    }
}

/// What is left after trimming is a stretch of the text; all around it is whitespace, and its own
/// ends are not.
pub proof fn law_trimming_takes_whitespace_off_both_ends(s: Seq<char>) -> (r: (int, int))
    ensures
        0 <= r.0 <= r.1 <= s.len(),
        trimmed(s) == s.subrange(r.0, r.1),
        forall|i: int| 0 <= i < r.0 ==> whitespace(#[trigger] s[i]),
        forall|i: int| r.1 <= i < s.len() ==> whitespace(#[trigger] s[i]),
        r.0 < r.1 ==> !whitespace(s[r.0]) && !whitespace(s[r.1 - 1]),
{
    let p = |c: char| whitespace(c);
    let a = lemma_trim_front(s, p);
    let t = s.skip(a);
    let k = lemma_trim_back(t, p);
    assert(t.take(k) =~= s.subrange(a, a + k));
    assert forall|i: int| 0 <= i < a implies whitespace(#[trigger] s[i]) by {
        assert(p(s[i]));
    }
    assert forall|i: int| a + k <= i < s.len() implies whitespace(#[trigger] s[i]) by {
        assert(t[i - a] == s[i]);
        assert(p(t[i - a]));
    }
    if k > 0 {
        assert(t[0] == s[a]);
        assert(t[k - 1] == s[a + k - 1]);
    }
    (a, a + k)
}

/// What is left after stripping a character is a stretch of the text; all around it is that
/// character, and its own ends are not.
pub proof fn law_stripping_takes_the_character_off_both_ends(s: Seq<char>, q: char) -> (r: (
    int,
    int,
))
    ensures
        0 <= r.0 <= r.1 <= s.len(),
        stripped(s, q) == s.subrange(r.0, r.1),
        forall|i: int| 0 <= i < r.0 ==> #[trigger] s[i] == q,
        forall|i: int| r.1 <= i < s.len() ==> #[trigger] s[i] == q,
        r.0 < r.1 ==> s[r.0] != q && s[r.1 - 1] != q,
{
    let p = is_char(q);
    let a = lemma_trim_front(s, p);
    let t = s.skip(a);
    let k = lemma_trim_back(t, p);
    assert(t.take(k) =~= s.subrange(a, a + k));
    assert forall|i: int| 0 <= i < a implies #[trigger] s[i] == q by {
        assert(p(s[i]));
    }
    assert forall|i: int| a + k <= i < s.len() implies #[trigger] s[i] == q by {
        assert(t[i - a] == s[i]);
        assert(p(t[i - a]));
    }
    if k > 0 {
        assert(t[0] == s[a]);
        assert(t[k - 1] == s[a + k - 1]);
    }
    (a, a + k)
}

/// A stretch without whitespace behind whitespace, or at the start, is one more word, and whitespace
/// behind a text adds none.
pub proof fn law_words_are_what_whitespace_parts(s: Seq<char>, gap: char, word: Seq<char>)
    requires
        whitespace(gap),
        word.len() > 0,
        forall|i: int| 0 <= i < word.len() ==> !whitespace(#[trigger] word[i]),
    ensures
        words(Seq::empty()).len() == 0,
        words(s.push(gap)) == words(s),
        words(word) == seq![word],
        words(s.push(gap) + word) == words(s).push(word),
    decreases word.len(),
{
    assert(s.push(gap).drop_last() =~= s);
    let start = word.drop_last();
    let all = s.push(gap) + word;
    assert(all.drop_last() =~= s.push(gap) + start);
    assert(all.last() == word.last());
    assert(!whitespace(word[word.len() - 1]));
    if word.len() == 1 {
        assert(start =~= Seq::empty());
        assert(word =~= seq![word.last()]);
        assert(all[all.len() - 2] == gap);
        assert(s.push(gap) + start =~= s.push(gap));
        assert(words(start) =~= Seq::empty());
        assert(words(word) =~= seq![word]);
        assert(words(s.push(gap)) == words(s));
        assert(words(all.drop_last()) == words(s));
        assert(words(all) == words(s).push(seq![all.last()]));
    } else {
        law_words_are_what_whitespace_parts(s, gap, start);
        assert(start.push(word.last()) =~= word);
        assert(word[word.len() - 2] == start[start.len() - 1]);
        assert(all[all.len() - 2] == start[start.len() - 1]);
        assert(words(s).push(start).drop_last() =~= words(s));
        assert(seq![start].drop_last() =~= Seq::empty());
        assert(words(word) =~= seq![word]);
        assert(words(all.drop_last()) == words(s).push(start));
        assert(!whitespace(all[all.len() - 2]));
        assert(words(all) == words(s).push(start).drop_last().push(start.push(word.last())));
    }
}

/// The texts of strings, one each, in order.
pub proof fn law_texts_of_strings(v: Seq<String>, i: int)
    requires
        0 <= i < v.len(),
    ensures
        texts(v).len() == v.len(),
        texts(v)[i] == v[i]@,
{
}

/// A number in decimal has no whitespace at its ends.
pub proof fn lemma_decimal_has_no_whitespace(n: nat)
    ensures
        decimal(n).len() > 0,
        !whitespace(decimal(n)[0]),
        !whitespace(decimal(n).last()),
{
    lemma_decimal_digits(n);
}

} // verus!
