//! The pens' mapping to the panels.
//!
//! The two pen devices are mapped through the desktop's settings, each under the identification of
//! the panel that it is to point at. Nothing else of a device's settings is touched: its area may
//! hold the user's calibration.
use vstd::prelude::*;

use crate::config::{TabletMapMode, TabletMappingConfig};
use crate::session::display::{find_row, PhysicalMonitor};
use crate::text::{chars_of, join3, push_char, same};

verus! {

/// The pen device of the upper panel.
pub const TABLET_A: &'static str = "04f3:4447";

/// The pen device of the lower panel.
pub const TABLET_B: &'static str = "04f3:4448";

/// The key that holds the panel.
pub const OUTPUT_KEY: &'static str = "output";

/// Vendor, product, serial number and connector of an output.
pub struct OutputTarget {
    pub vendor: String,
    pub product: String,
    pub serial: String,
    pub connector: String,
}

/// The identification of a row.
pub open spec fn identifies(t: OutputTarget, row: PhysicalMonitor) -> bool {
    t.vendor@ == row.vendor@ && t.product@ == row.product@ && t.serial@ == row.serial@
        && t.connector@ == row.connector@
}

/// The identification of the first output with the given connector.
pub fn output_target_for_connector(physical: &Vec<PhysicalMonitor>, connector: &str) -> (r: Option<
    OutputTarget,
>)
    ensures
        match (r, crate::session::display::row_of(physical@, connector@)) {
            (Some(t), Some(row)) => identifies(t, row),
            (None, None) => true,
            _ => false,
        },
{
    match find_row(physical, connector) {
        Some(i) => Some(
            OutputTarget {
                vendor: physical[i].vendor.clone(),
                product: physical[i].product.clone(),
                serial: physical[i].serial.clone(),
                connector: physical[i].connector.clone(),
            },
        ),
        None => None,
    }
}

// ── Values of the settings ───────────────────────────────────────────────────

/// A character inside quotes.
pub open spec fn escaped_char(c: char) -> Seq<char> {
    if c == '\\' || c == '\'' {
        seq!['\\', c]
    } else {
        seq![c]
    }
}

/// A text inside quotes: backslashes and quotes each with a backslash before them.
pub open spec fn escaped(s: Seq<char>) -> Seq<char>
    decreases s.len(),
{
    if s.len() == 0 {
        Seq::empty()
    } else {
        escaped(s.drop_last()) + escaped_char(s.last())
    }
}

/// What a text inside quotes stands for.
pub open spec fn unescaped(s: Seq<char>) -> Seq<char>
    decreases s.len(),
{
    if s.len() == 0 {
        Seq::empty()
    } else if s[0] == '\\' && s.len() > 1 {
        seq![s[1]] + unescaped(s.skip(2))
    } else {
        seq![s[0]] + unescaped(s.skip(1))
    }
}

fn escape(s: &str) -> (r: String)
    ensures
        r@ == escaped(s@),
{
    let chars = chars_of(s);
    let mut text = String::new();
    let mut i: usize = 0;
    while i < chars.len()
        invariant
            i <= chars.len(),
            chars@ == s@,
            text@ == escaped(s@.take(i as int)),
        decreases chars.len() - i,
    {
        let c = chars[i];
        if c == '\\' || c == '\'' {
            push_char(&mut text, '\\');
        }
        push_char(&mut text, c);
        proof {
            let more = s@.take(i + 1);
            assert(more.drop_last() =~= s@.take(i as int));
            assert(text@ =~= escaped(more));
        }
        i = i + 1;
    }
    proof {
        assert(s@.take(s@.len() as int) =~= s@);
    }
    text
}

/// The list of the four texts.
pub open spec fn quoted_list(a: Seq<char>, b: Seq<char>, c: Seq<char>, d: Seq<char>) -> Seq<char> {
    "['"@ + escaped(a) + "','"@ + escaped(b) + "','"@ + escaped(c) + "','"@ + escaped(d) + "']"@
}

/// Writes the list of the four texts.
pub fn gvariant_output(va: &str, vb: &str, vc: &str, vd: &str) -> (r: String)
    ensures
        r@ == quoted_list(va@, vb@, vc@, vd@),
{
    let mut text = String::new();
    text.append("['");
    text.append(escape(va).as_str());
    text.append("','");
    text.append(escape(vb).as_str());
    text.append("','");
    text.append(escape(vc).as_str());
    text.append("','");
    text.append(escape(vd).as_str());
    text.append("']");
    proof {
        assert(text@ =~= quoted_list(va@, vb@, vc@, vd@));
    }
    text
}

proof fn lemma_unescaped_add(c: char, rest: Seq<char>)
    ensures
        unescaped(escaped_char(c) + rest) == seq![c] + unescaped(rest),
{
    let t = escaped_char(c) + rest;
    if c == '\\' || c == '\'' {
        assert(t.skip(2) =~= rest);
    } else {
        assert(t.skip(1) =~= rest);
    }
}

proof fn lemma_unescape(s: Seq<char>, rest: Seq<char>)
    ensures
        unescaped(escaped(s) + rest) == s + unescaped(rest),
    decreases s.len(),
{
    if s.len() == 0 {
        assert(escaped(s) + rest =~= rest);
        assert(s + unescaped(rest) =~= unescaped(rest));
    } else {
        let tail = escaped_char(s.last()) + rest;
        assert(escaped(s) + rest =~= escaped(s.drop_last()) + tail);
        lemma_unescape(s.drop_last(), tail);
        lemma_unescaped_add(s.last(), rest);
        assert(s.drop_last() + (seq![s.last()] + unescaped(rest)) =~= s + unescaped(rest));
    }
}

/// A text that was written inside quotes reads back as it was.
pub proof fn law_escaping_is_undone(s: Seq<char>)
    ensures
        unescaped(escaped(s)) == s,
{
    lemma_unescape(s, Seq::empty());
    assert(escaped(s) + Seq::<char>::empty() =~= escaped(s));
    assert(s + unescaped(Seq::empty()) =~= s);
}

/// Every quote inside the quotes has a backslash before it: none ends the text early.
pub proof fn law_no_bare_quote(s: Seq<char>, i: int)
    requires
        0 <= i < escaped(s).len(),
        escaped(s)[i] == '\'',
    ensures
        i > 0 && escaped(s)[i - 1] == '\\',
    decreases s.len(),
{
    if s.len() > 0 {
        let head = escaped(s.drop_last());
        if i < head.len() {
            law_no_bare_quote(s.drop_last(), i);
        }
    }
}

proof fn lemma_escaped_from_front(s: Seq<char>)
    requires
        s.len() > 0,
    ensures
        escaped(s) == escaped_char(s[0]) + escaped(s.skip(1)),
    decreases s.len(),
{
    if s.len() == 1 {
        assert(s.drop_last() =~= Seq::empty());
        assert(s.skip(1) =~= Seq::empty());
        assert(escaped(s) =~= escaped_char(s[0]) + escaped(s.skip(1)));
    } else {
        lemma_escaped_from_front(s.drop_last());
        assert(s.drop_last().skip(1) =~= s.skip(1).drop_last());
        assert(escaped(s) =~= escaped_char(s[0]) + escaped(s.skip(1)));
    }
}

/// The quote that ends a text can be told from those inside it.
proof fn lemma_quoted_text_ends(a: Seq<char>, b: Seq<char>, after_a: Seq<char>, after_b: Seq<char>)
    requires
        after_a.len() > 0,
        after_b.len() > 0,
        after_a[0] == '\'',
        after_b[0] == '\'',
        escaped(a) + after_a == escaped(b) + after_b,
    ensures
        a == b,
        after_a == after_b,
    decreases a.len(),
{
    let text = escaped(a) + after_a;
    if a.len() > 0 {
        lemma_escaped_from_front(a);
        assert(text == escaped_char(a[0]) + (escaped(a.skip(1)) + after_a));
        assert(text[0] == escaped_char(a[0])[0]);
    }
    if b.len() > 0 {
        lemma_escaped_from_front(b);
        assert(text == escaped_char(b[0]) + (escaped(b.skip(1)) + after_b));
        assert(text[0] == escaped_char(b[0])[0]);
    }
    if a.len() == 0 {
        assert(text =~= after_a);
        assert(b.len() == 0);
        assert(text =~= after_b);
        assert(a =~= b);
    } else if b.len() == 0 {
        assert(text =~= after_b);
        assert(false);
    } else {
        let width = escaped_char(a[0]).len();
        if a[0] == '\\' || a[0] == '\'' {
            assert(text[1] == a[0]);
            assert(text[1] == b[0]);
        }
        assert(a[0] == b[0]);
        assert(text.skip(width as int) =~= escaped(a.skip(1)) + after_a);
        assert(text.skip(width as int) =~= escaped(b.skip(1)) + after_b);
        lemma_quoted_text_ends(a.skip(1), b.skip(1), after_a, after_b);
        assert(a =~= seq![a[0]] + a.skip(1));
        assert(b =~= seq![b[0]] + b.skip(1));
    }
}

/// What follows the opening of a list with the given texts.
spec fn list_end(texts: Seq<Seq<char>>) -> Seq<char>
    decreases texts.len(),
{
    if texts.len() == 0 {
        Seq::empty()
    } else if texts.len() == 1 {
        escaped(texts[0]) + "']"@
    } else {
        escaped(texts[0]) + ("','"@ + list_end(texts.skip(1)))
    }
}

proof fn lemma_list_ends_differ(texts: Seq<Seq<char>>, others: Seq<Seq<char>>)
    requires
        texts.len() == others.len(),
        list_end(texts) == list_end(others),
    ensures
        texts == others,
    decreases texts.len(),
{
    reveal_strlit("','");
    reveal_strlit("']");
    if texts.len() == 0 {
        assert(texts =~= others);
    } else if texts.len() == 1 {
        lemma_quoted_text_ends(texts[0], others[0], "']"@, "']"@);
        assert(texts =~= others);
    } else {
        let (rest, other_rest) = (list_end(texts.skip(1)), list_end(others.skip(1)));
        lemma_quoted_text_ends(texts[0], others[0], "','"@ + rest, "','"@ + other_rest);
        assert(("','"@ + rest).skip(3) =~= rest);
        assert(("','"@ + other_rest).skip(3) =~= other_rest);
        lemma_list_ends_differ(texts.skip(1), others.skip(1));
        assert(texts =~= seq![texts[0]] + texts.skip(1));
        assert(others =~= seq![others[0]] + others.skip(1));
    }
}

proof fn lemma_associative(x: Seq<char>, y: Seq<char>, z: Seq<char>)
    ensures
        (x + y) + z == x + (y + z),
{
    assert((x + y) + z =~= x + (y + z));
}

proof fn lemma_list_regrouped(a: Seq<char>, b: Seq<char>, c: Seq<char>, d: Seq<char>)
    ensures
        quoted_list(a, b, c, d) == "['"@ + list_end(seq![a, b, c, d]),
{
    let (open, comma, close) = ("['"@, "','"@, "']"@);
    assert(seq![a, b, c, d].skip(1) =~= seq![b, c, d]);
    assert(seq![b, c, d].skip(1) =~= seq![c, d]);
    assert(seq![c, d].skip(1) =~= seq![d]);
    let from_d = list_end(seq![d]);
    let from_c = list_end(seq![c, d]);
    let from_b = list_end(seq![b, c, d]);
    assert(from_d == escaped(d) + close);
    assert(from_c == escaped(c) + (comma + from_d));
    assert(from_b == escaped(b) + (comma + from_c));
    let a1 = open + escaped(a);
    let b1 = a1 + comma + escaped(b);
    let c1 = b1 + comma + escaped(c);
    lemma_associative(c1 + comma, escaped(d), close);
    lemma_associative(c1, comma, from_d);
    lemma_associative(b1 + comma, escaped(c), comma + from_d);
    lemma_associative(b1, comma, from_c);
    lemma_associative(a1 + comma, escaped(b), comma + from_c);
    lemma_associative(a1, comma, from_b);
    lemma_associative(open, escaped(a), comma + from_b);
}

/// Different texts give different lists.
pub proof fn law_lists_are_told_apart(
    a: Seq<char>,
    b: Seq<char>,
    c: Seq<char>,
    d: Seq<char>,
    other_a: Seq<char>,
    other_b: Seq<char>,
    other_c: Seq<char>,
    other_d: Seq<char>,
)
    requires
        quoted_list(a, b, c, d) == quoted_list(other_a, other_b, other_c, other_d),
    ensures
        a == other_a,
        b == other_b,
        c == other_c,
        d == other_d,
{
    reveal_strlit("['");
    let texts = seq![a, b, c, d];
    let others = seq![other_a, other_b, other_c, other_d];
    lemma_list_regrouped(a, b, c, d);
    lemma_list_regrouped(other_a, other_b, other_c, other_d);
    assert(("['"@ + list_end(texts)).skip(2) =~= list_end(texts));
    assert(("['"@ + list_end(others)).skip(2) =~= list_end(others));
    lemma_list_ends_differ(texts, others);
    assert(a == texts[0] && b == texts[1] && c == texts[2] && d == texts[3]);
    assert(other_a == others[0] && other_b == others[1] && other_c == others[2] && other_d
        == others[3]);
}

/// The settings of a device.
pub open spec fn settings_path(usb_id: Seq<char>) -> Seq<char> {
    "org.gnome.desktop.peripherals.tablet:/org/gnome/desktop/peripherals/tablets/"@ + usb_id + "/"@
}

/// Where the settings of a device stand.
pub fn tablet_schema_path(usb_id: &str) -> (r: String)
    ensures
        r@ == settings_path(usb_id@),
{
    join3(
        "org.gnome.desktop.peripherals.tablet:/org/gnome/desktop/peripherals/tablets/",
        usb_id,
        "/",
    )
}

// ── The mapping ──────────────────────────────────────────────────────────────

/// A device and the value to write for it.
pub struct PenMapping {
    pub usb_id: &'static str,
    pub output: String,
}

/// The value for an output.
pub open spec fn output_value(row: PhysicalMonitor) -> Seq<char> {
    quoted_list(row.vendor@, row.product@, row.serial@, row.connector@)
}

/// What is to be written: nothing while the mapping is off or the upper panel is unknown; with a
/// panel for each pen, nothing unless both panels are known; otherwise both pens point at the
/// panel that is to be primary, if it is known.
pub open spec fn pen_targets(
    cfg: TabletMappingConfig,
    primary: Seq<char>,
    physical: Seq<PhysicalMonitor>,
) -> Option<(PhysicalMonitor, PhysicalMonitor)> {
    let upper = crate::session::display::row_of(physical, "eDP-1"@);
    let lower = crate::session::display::row_of(physical, "eDP-2"@);
    if !cfg.enable || upper is None {
        None
    } else {
        match cfg.mode {
            TabletMapMode::OneToOne => match lower {
                Some(l) => Some((upper->0, l)),
                None => None,
            },
            TabletMapMode::AllToPrimary => if primary == "eDP-2"@ && lower is Some {
                Some((lower->0, lower->0))
            } else {
                Some((upper->0, upper->0))
            },
        }
    }
}

fn value_of(t: &OutputTarget) -> (r: String)
    ensures
        r@ == quoted_list(t.vendor@, t.product@, t.serial@, t.connector@),
{
    gvariant_output(t.vendor.as_str(), t.product.as_str(), t.serial.as_str(), t.connector.as_str())
}

fn both(a: &OutputTarget, b: &OutputTarget) -> (r: Vec<PenMapping>)
    ensures
        r.len() == 2,
        r[0].usb_id@ == TABLET_A@,
        r[0].output@ == quoted_list(a.vendor@, a.product@, a.serial@, a.connector@),
        r[1].usb_id@ == TABLET_B@,
        r[1].output@ == quoted_list(b.vendor@, b.product@, b.serial@, b.connector@),
{
    let mut writes: Vec<PenMapping> = Vec::new();
    writes.push(PenMapping { usb_id: TABLET_A, output: value_of(a) });
    writes.push(PenMapping { usb_id: TABLET_B, output: value_of(b) });
    writes
}

/// What is to be written after the layout has become as it should be.
pub fn reapply_after_reconcile(
    cfg: &TabletMappingConfig,
    desired_primary_connector: &str,
    physical: &Vec<PhysicalMonitor>,
) -> (r: Vec<PenMapping>)
    ensures
        match pen_targets(*cfg, desired_primary_connector@, physical@) {
            None => r.len() == 0,
            Some((a, b)) => {
                &&& r.len() == 2
                &&& r[0].usb_id@ == TABLET_A@
                &&& r[0].output@ == output_value(a)
                &&& r[1].usb_id@ == TABLET_B@
                &&& r[1].output@ == output_value(b)
            },
        },
{
    if !cfg.enable {
        return Vec::new();
    }
    let upper = match output_target_for_connector(physical, "eDP-1") {
        Some(t) => t,
        None => {
            return Vec::new();
        },
    };
    let lower = output_target_for_connector(physical, "eDP-2");
    match cfg.mode {
        TabletMapMode::OneToOne => match &lower {
            Some(l) => both(&upper, l),
            None => Vec::new(),
        },
        TabletMapMode::AllToPrimary => if same(desired_primary_connector, "eDP-2") {
            match &lower {
                Some(l) => both(l, l),
                None => both(&upper, &upper),
            }
        } else {
            both(&upper, &upper)
        },
    }
}

// ── Which pen points where ───────────────────────────────────────────────────

/// The devices and the settings, in words.
pub proof fn law_pens_in_words(usb_id: Seq<char>)
    ensures
        TABLET_A@ == "04f3:4447"@,
        TABLET_B@ == "04f3:4448"@,
        OUTPUT_KEY@ == "output"@,
        settings_path(usb_id)
            == "org.gnome.desktop.peripherals.tablet:/org/gnome/desktop/peripherals/tablets/"@
            + usb_id + "/"@,
{
}

/// A backslash and a quote get a backslash before them, and nothing else does.
pub proof fn law_escaped_characters(s: Seq<char>, c: char)
    ensures
        c == '\\' || c == '\'' ==> escaped_char(c) =~= seq!['\\', c],
        c != '\\' && c != '\'' ==> escaped_char(c) =~= seq![c],
        escaped(Seq::empty()).len() == 0,
        escaped(s.push(c)) == escaped(s) + escaped_char(c),
{
    assert(s.push(c).drop_last() =~= s);
}

/// A pen is not mapped while the mapping is off or eDP-1 is unknown.
pub proof fn law_pens_without_a_panel(
    cfg: TabletMappingConfig,
    primary: Seq<char>,
    physical: Seq<PhysicalMonitor>,
)
    requires
        !cfg.enable || crate::session::display::row_of(physical, "eDP-1"@) is None,
    ensures
        pen_targets(cfg, primary, physical) is None,
{
}

/// One to one, the first pen points at eDP-1 and the second at eDP-2, and neither at anything unless
/// both are known.
pub proof fn law_each_pen_at_its_panel(
    cfg: TabletMappingConfig,
    primary: Seq<char>,
    physical: Seq<PhysicalMonitor>,
    upper: PhysicalMonitor,
)
    requires
        cfg.enable,
        cfg.mode == TabletMapMode::OneToOne,
        crate::session::display::row_of(physical, "eDP-1"@) == Some(upper),
    ensures
        crate::session::display::row_of(physical, "eDP-2"@) matches Some(lower) ==> pen_targets(
            cfg,
            primary,
            physical,
        ) == Some((upper, lower)),
        crate::session::display::row_of(physical, "eDP-2"@) is None ==> pen_targets(
            cfg,
            primary,
            physical,
        ) is None,
{
}

/// All to primary, both pens point at the panel that is to be primary: eDP-2 if that is asked for and
/// known, and eDP-1 otherwise.
pub proof fn law_both_pens_at_the_primary(
    cfg: TabletMappingConfig,
    primary: Seq<char>,
    physical: Seq<PhysicalMonitor>,
    upper: PhysicalMonitor,
)
    requires
        cfg.enable,
        cfg.mode == TabletMapMode::AllToPrimary,
        crate::session::display::row_of(physical, "eDP-1"@) == Some(upper),
    ensures
        primary != "eDP-2"@ ==> pen_targets(cfg, primary, physical) == Some((upper, upper)),
        primary == "eDP-2"@ ==> (match crate::session::display::row_of(physical, "eDP-2"@) {
            Some(lower) => pen_targets(cfg, primary, physical) == Some((lower, lower)),
            None => pen_targets(cfg, primary, physical) == Some((upper, upper)),
        }),
{
}

/// A panel is written by its vendor, product, serial number and connector, in this order.
pub proof fn law_panels_are_identified(row: PhysicalMonitor, t: OutputTarget)
    ensures
        output_value(row) == "['"@ + escaped(row.vendor@) + "','"@ + escaped(row.product@) + "','"@
            + escaped(row.serial@) + "','"@ + escaped(row.connector@) + "']"@,
        identifies(t, row) <==> t.vendor@ == row.vendor@ && t.product@ == row.product@ && t.serial@
            == row.serial@ && t.connector@ == row.connector@,
{
}

} // verus!
