//! Classification of the present layout: which outputs take part, and whether the internal panels
//! show the same picture.
use vstd::prelude::*;
use vstd::hash_map::StringHashMap;

use crate::session::display::{ConfigRow, LogicalMonitor, MonitorMode, PhysicalMonitor};
use crate::text::same;

verus! {

pub const ATTACH_BUILTIN_ONLY: &'static str = "builtin_only";

pub const ATTACH_EXTERNAL_ONLY: &'static str = "external_only";

pub const ATTACH_ALL_CONNECTED: &'static str = "all_connected";

pub const LAYOUT_JOINED: &'static str = "joined";

pub const LAYOUT_MIRROR: &'static str = "mirror";

/// The connector is one of the two internal panels.
pub open spec fn internal(name: Seq<char>) -> bool {
    name == "eDP-1"@ || name == "eDP-2"@
}

/// Whether a connector is one of the two internal panels.
pub fn is_internal_connector(name: &str) -> (r: bool)
    ensures
        r == internal(name@),
{
    same(name, "eDP-1") || same(name, "eDP-2")
}

/// All outputs of all logical monitors, in order.
pub open spec fn bound_connectors(logical: Seq<LogicalMonitor>) -> Seq<Seq<char>>
    decreases logical.len(),
{
    if logical.len() == 0 {
        Seq::empty()
    } else {
        bound_connectors(logical.drop_last()) + crate::text::texts(logical.last().connectors@)
    }
}

/// Every output listed under any logical monitor.
pub fn connectors_bound_in_logical(logical: &Vec<LogicalMonitor>) -> (out: Vec<String>)
    ensures
        crate::text::texts(out@) == bound_connectors(logical@),
{
    let mut out: Vec<String> = Vec::new();
    let mut i: usize = 0;
    proof {
        assert(crate::text::texts(out@) =~= bound_connectors(logical@.take(0)));
    }
    while i < logical.len()
        invariant
            i <= logical@.len(),
            crate::text::texts(out@) == bound_connectors(logical@.take(i as int)),
        decreases logical@.len() - i,
    {
        let connectors = &logical[i].connectors;
        let ghost before = crate::text::texts(out@);
        let mut j: usize = 0;
        proof {
            assert(crate::text::texts(out@) =~= before + crate::text::texts(connectors@.take(0)));
        }
        while j < connectors.len()
            invariant
                j <= connectors@.len(),
                crate::text::texts(out@) == before + crate::text::texts(connectors@.take(j as int)),
            decreases connectors@.len() - j,
        {
            let ghost prev = out@;
            out.push(connectors[j].clone());
            proof {
                assert(crate::text::texts(out@) =~= crate::text::texts(prev).push(connectors@[j as int]@));
                assert(crate::text::texts(connectors@.take(j as int + 1)) =~= crate::text::texts(
                    connectors@.take(j as int),
                ).push(connectors@[j as int]@));
            }
            j = j + 1;
        }
        proof {
            assert(connectors@.take(connectors@.len() as int) =~= connectors@);
            assert(logical@.take(i as int + 1).drop_last() =~= logical@.take(i as int));
            assert(logical@.take(i as int + 1).last() == logical@[i as int]);
        }
        i = i + 1;
    }
    proof {
        assert(logical@.take(logical@.len() as int) =~= logical@);
    }
    out
}

/// Whether the lower panel may lose its power: no logical monitor shows on it.
pub fn secondary_poweroff_ready(logical: &Vec<LogicalMonitor>) -> (r: bool)
    ensures
        r == !bound_connectors(logical@).contains("eDP-2"@),
{
    let bound = connectors_bound_in_logical(logical);
    let used = lists(&bound, "eDP-2");
    proof {
        let names = crate::text::texts(bound@);
        if used {
            let j = choose|j: int| 0 <= j < bound@.len() && (#[trigger] bound@[j])@ == "eDP-2"@;
            assert(names[j] == "eDP-2"@);
        }
        if names.contains("eDP-2"@) {
            let j = choose|j: int| 0 <= j < names.len() && names[j] == "eDP-2"@;
            assert(bound@[j]@ == "eDP-2"@);
        }
    }
    !used
}

/// Some output of the layout is an external one.
pub open spec fn uses_external(logical: Seq<LogicalMonitor>) -> bool {
    exists|i: int, j: int|
        0 <= i < logical.len() && 0 <= j < logical[i].connectors@.len() && !internal(
            (#[trigger] logical[i].connectors@[j])@,
        )
}

/// Some output of the layout is an internal panel.
pub open spec fn uses_internal(logical: Seq<LogicalMonitor>) -> bool {
    exists|i: int, j: int|
        0 <= i < logical.len() && 0 <= j < logical[i].connectors@.len() && internal(
            (#[trigger] logical[i].connectors@[j])@,
        )
}

/// `all_connected`, `external_only` or `builtin_only`, by the outputs in use.
pub open spec fn attachment_of(logical: Seq<LogicalMonitor>) -> Seq<char> {
    if uses_external(logical) && uses_internal(logical) {
        ATTACH_ALL_CONNECTED@
    } else if uses_external(logical) {
        ATTACH_EXTERNAL_ONLY@
    } else {
        ATTACH_BUILTIN_ONLY@
    }
}

/// Classifies a layout by the outputs in use.
pub fn classify_attachment(logical: &Vec<LogicalMonitor>) -> (r: &'static str)
    ensures
        r@ == attachment_of(logical@),
{
    let mut ext = false;
    let mut edp = false;
    let mut i: usize = 0;
    while i < logical.len()
        invariant
            i <= logical@.len(),
            ext == (exists|a: int, b: int|
                0 <= a < i && 0 <= b < logical@[a].connectors@.len() && !internal(
                    (#[trigger] logical@[a].connectors@[b])@,
                )),
            edp == (exists|a: int, b: int|
                0 <= a < i && 0 <= b < logical@[a].connectors@.len() && internal(
                    (#[trigger] logical@[a].connectors@[b])@,
                )),
        decreases logical@.len() - i,
    {
        let connectors = &logical[i].connectors;
        let mut j: usize = 0;
        while j < connectors.len()
            invariant
                i < logical@.len(),
                *connectors == logical@[i as int].connectors,
                j <= connectors@.len(),
                ext == (exists|a: int, b: int|
                    0 <= a <= i && 0 <= b < logical@[a].connectors@.len() && (a == i ==> b < j)
                        && !internal((#[trigger] logical@[a].connectors@[b])@)),
                edp == (exists|a: int, b: int|
                    0 <= a <= i && 0 <= b < logical@[a].connectors@.len() && (a == i ==> b < j)
                        && internal((#[trigger] logical@[a].connectors@[b])@)),
            decreases connectors@.len() - j,
        {
            proof {
                assert(connectors@[j as int] == logical@[i as int].connectors@[j as int]);
            }
            if is_internal_connector(connectors[j].as_str()) {
                edp = true;
            } else {
                ext = true;
            }
            j = j + 1;
        }
        i = i + 1;
    }
    if ext && edp {
        ATTACH_ALL_CONNECTED
    } else if ext {
        ATTACH_EXTERNAL_ONLY
    } else {
        ATTACH_BUILTIN_ONLY
    }
}

/// A logical monitor shows on the named output.
pub open spec fn shown_on(lm: LogicalMonitor, connector: Seq<char>) -> bool {
    exists|j: int| 0 <= j < lm.connectors@.len() && (#[trigger] lm.connectors@[j])@ == connector
}

/// `mirror` if both internal panels belong to one logical monitor, else `joined`.
pub open spec fn layout_of(logical: Seq<LogicalMonitor>) -> Seq<char> {
    if exists|i: int|
        0 <= i < logical.len() && shown_on(#[trigger] logical[i], "eDP-1"@) && shown_on(
            logical[i],
            "eDP-2"@,
        ) {
        LAYOUT_MIRROR@
    } else {
        LAYOUT_JOINED@
    }
}

fn lists(connectors: &Vec<String>, connector: &str) -> (r: bool)
    ensures
        r == (exists|j: int|
            0 <= j < connectors@.len() && (#[trigger] connectors@[j])@ == connector@),
{
    let mut j: usize = 0;
    while j < connectors.len()
        invariant
            j <= connectors@.len(),
            forall|k: int| 0 <= k < j ==> (#[trigger] connectors@[k])@ != connector@,
        decreases connectors@.len() - j,
    {
        if same(connectors[j].as_str(), connector) {
            return true;
        }
        j = j + 1;
    }
    false
}

/// Classifies a layout by whether the internal panels show the same picture.
pub fn classify_layout(logical: &Vec<LogicalMonitor>) -> (r: &'static str)
    ensures
        r@ == layout_of(logical@),
{
    let mut i: usize = 0;
    while i < logical.len()
        invariant
            i <= logical@.len(),
            forall|k: int|
                0 <= k < i ==> !(shown_on(#[trigger] logical@[k], "eDP-1"@) && shown_on(
                    logical@[k],
                    "eDP-2"@,
                )),
        decreases logical@.len() - i,
    {
        if lists(&logical[i].connectors, "eDP-1") && lists(&logical[i].connectors, "eDP-2") {
            proof {
                assert(shown_on(logical@[i as int], "eDP-1"@));
            }
            return LAYOUT_MIRROR;
        }
        i = i + 1;
    }
    LAYOUT_JOINED
}

/// `before` with every one of `names` mapped to `row`.
pub open spec fn with_rows(
    before: Map<Seq<char>, ConfigRow>,
    names: Seq<Seq<char>>,
    row: ConfigRow,
) -> Map<Seq<char>, ConfigRow> {
    before.union_prefer_right(Map::new(|c: Seq<char>| names.contains(c), |c: Seq<char>| row))
}

/// The present layout by output, with all outputs of each logical monitor; of two rows with one
/// output the later counts.
pub open spec fn rows_of(logical: Seq<LogicalMonitor>) -> Map<Seq<char>, ConfigRow>
    decreases logical.len(),
{
    if logical.len() == 0 {
        Map::empty()
    } else {
        with_rows(
            rows_of(logical.drop_last()),
            crate::text::texts(logical.last().connectors@),
            crate::session::display::config_row(logical.last()),
        )
    }
}

proof fn lemma_rows_domain(logical: Seq<LogicalMonitor>, c: Seq<char>)
    ensures
        rows_of(logical).contains_key(c) <==> bound_connectors(logical).contains(c),
    decreases logical.len(),
{
    if logical.len() > 0 {
        let before = logical.drop_last();
        let added = crate::text::texts(logical.last().connectors@);
        lemma_rows_domain(before, c);
        lemma_contains_concat(bound_connectors(before), added, c);
    }
}

proof fn lemma_contains_concat(a: Seq<Seq<char>>, b: Seq<Seq<char>>, c: Seq<char>)
    ensures
        (a + b).contains(c) <==> a.contains(c) || b.contains(c),
{
    let ab = a + b;
    if ab.contains(c) {
        let k = choose|k: int| 0 <= k < ab.len() && ab[k] == c;
        if k < a.len() {
            assert(a[k] == c);
        } else {
            assert(b[k - a.len()] == c);
        }
    }
    if a.contains(c) {
        let k = choose|k: int| 0 <= k < a.len() && a[k] == c;
        assert(ab[k] == c);
    }
    if b.contains(c) {
        let k = choose|k: int| 0 <= k < b.len() && b[k] == c;
        assert(ab[a.len() + k] == c);
    }
}

proof fn lemma_push_duplicates(s: Seq<Seq<char>>, c: Seq<char>)
    ensures
        s.push(c).no_duplicates() <==> s.no_duplicates() && !s.contains(c),
{
    let t = s.push(c);
    if t.no_duplicates() {
        assert forall|i: int, j: int| 0 <= i < s.len() && 0 <= j < s.len() && i != j implies s[i]
            != s[j] by {
            assert(t[i] == s[i] && t[j] == s[j]);
        }
        if s.contains(c) {
            let k = choose|k: int| 0 <= k < s.len() && s[k] == c;
            assert(t[k] == t[s.len() as int]);
        }
    } else if s.no_duplicates() {
        let (i, j) = choose|i: int, j: int|
            0 <= i < t.len() && 0 <= j < t.len() && i != j && t[i] == t[j];
        if i == s.len() {
            assert(s[j] == c);
        } else if j == s.len() {
            assert(s[i] == c);
        } else {
            assert(s[i] == s[j]);
        }
    }
}

/// Reads the present layout with all outputs of each logical monitor. The flag says that an
/// output is listed twice.
pub fn read_current_logical_rows(logical: &Vec<LogicalMonitor>) -> (r: (
    StringHashMap<ConfigRow>,
    bool,
))
    ensures
        r.0@ == rows_of(logical@),
        r.1 == !bound_connectors(logical@).no_duplicates(),
{
    let mut map: StringHashMap<ConfigRow> = StringHashMap::new();
    let mut corrupted = false;
    let mut i: usize = 0;
    while i < logical.len()
        invariant
            i <= logical@.len(),
            map@ == rows_of(logical@.take(i as int)),
            corrupted == !bound_connectors(logical@.take(i as int)).no_duplicates(),
        decreases logical@.len() - i,
    {
        let lm = &logical[i];
        let row = ConfigRow {
            x: lm.x,
            y: lm.y,
            scale_matches: lm.scale_matches,
            transform: lm.transform,
            primary: lm.primary,
        };
        let ghost before = logical@.take(i as int);
        let ghost bound = bound_connectors(before);
        let mut j: usize = 0;
        proof {
            assert(with_rows(rows_of(before), crate::text::texts(lm.connectors@.take(0)), row) =~= rows_of(
                before,
            ));
            assert(bound + crate::text::texts(lm.connectors@.take(0)) =~= bound);
        }
        while j < lm.connectors.len()
            invariant
                j <= lm.connectors@.len(),
                bound == bound_connectors(before),
                map@ == with_rows(rows_of(before), crate::text::texts(lm.connectors@.take(j as int)), row),
                corrupted == !(bound + crate::text::texts(lm.connectors@.take(j as int))).no_duplicates(),
            decreases lm.connectors@.len() - j,
        {
            let connector = lm.connectors[j].clone();
            let ghost done = crate::text::texts(lm.connectors@.take(j as int));
            let ghost more = crate::text::texts(lm.connectors@.take(j as int + 1));
            proof {
                assert(more =~= done.push(connector@));
                assert(bound + more =~= (bound + done).push(connector@));
                lemma_push_duplicates(bound + done, connector@);
                lemma_contains_concat(bound, done, connector@);
                lemma_rows_domain(before, connector@);
                assert forall|c: Seq<char>| more.contains(c) <==> (done.contains(c) || c
                    == connector@) by {
                    if more.contains(c) {
                        let k = choose|k: int| 0 <= k < more.len() && more[k] == c;
                        if k < done.len() {
                            assert(done[k] == c);
                        }
                    }
                    if done.contains(c) {
                        let k = choose|k: int| 0 <= k < done.len() && done[k] == c;
                        assert(more[k] == c);
                    }
                    assert(more[done.len() as int] == connector@);
                }
                assert(with_rows(rows_of(before), more, row) =~= with_rows(
                    rows_of(before),
                    done,
                    row,
                ).insert(connector@, row));
            }
            if map.contains_key(connector.as_str()) {
                corrupted = true;
            }
            map.insert(connector, row);
            j = j + 1;
        }
        proof {
            assert(lm.connectors@.take(lm.connectors@.len() as int) =~= lm.connectors@);
            assert(logical@.take(i as int + 1).drop_last() =~= before);
            assert(logical@.take(i as int + 1).last() == logical@[i as int]);
        }
        i = i + 1;
    }
    proof {
        assert(logical@.take(logical@.len() as int) =~= logical@);
    }
    (map, corrupted)
}

/// The external outputs with a mode, each once, in the order in which they are listed first.
pub open spec fn externals(
    physical: Seq<PhysicalMonitor>,
    modes: Map<Seq<char>, MonitorMode>,
) -> Seq<Seq<char>>
    decreases physical.len(),
{
    if physical.len() == 0 {
        Seq::empty()
    } else {
        let before = externals(physical.drop_last(), modes);
        let name = physical.last().connector@;
        if !internal(name) && modes.contains_key(name) && !before.contains(name) {
            before.push(name)
        } else {
            before
        }
    }
}

/// External outputs that have a mode, in the order of the physical list, without repetitions.
pub fn external_connectors_ordered(
    physical: &Vec<PhysicalMonitor>,
    all_modes: &StringHashMap<MonitorMode>,
) -> (out: Vec<String>)
    ensures
        crate::text::texts(out@) == externals(physical@, all_modes@),
{
    let mut out: Vec<String> = Vec::new();
    let mut i: usize = 0;
    proof {
        assert(crate::text::texts(out@) =~= externals(physical@.take(0), all_modes@));
    }
    while i < physical.len()
        invariant
            i <= physical@.len(),
            crate::text::texts(out@) == externals(physical@.take(i as int), all_modes@),
        decreases physical@.len() - i,
    {
        let name = physical[i].connector.as_str();
        proof {
            assert(physical@.take(i as int + 1).drop_last() =~= physical@.take(i as int));
            assert(physical@.take(i as int + 1).last() == physical@[i as int]);
        }
        let seen = lists(&out, name);
        proof {
            if seen {
                let j = choose|j: int| 0 <= j < out@.len() && (#[trigger] out@[j])@ == name@;
                assert(crate::text::texts(out@)[j] == name@);
            } else if crate::text::texts(out@).contains(name@) {
                let j = choose|j: int| 0 <= j < crate::text::texts(out@).len() && crate::text::texts(out@)[j] == name@;
                assert(out@[j]@ == name@);
            }
        }
        if !is_internal_connector(name) && all_modes.contains_key(name) && !seen {
            let ghost before = out@;
            out.push(physical[i].connector.clone());
            proof {
                assert(crate::text::texts(out@) =~= crate::text::texts(before).push(name@));
            }
        }
        i = i + 1;
    }
    proof {
        assert(physical@.take(physical@.len() as int) =~= physical@);
    }
    out
}

/// The ordered externals are exactly the external outputs that have a mode, each once.
pub proof fn law_externals_are_complete(
    physical: Seq<PhysicalMonitor>,
    modes: Map<Seq<char>, MonitorMode>,
    name: Seq<char>,
)
    ensures
        externals(physical, modes).no_duplicates(),
        externals(physical, modes).contains(name) <==> !internal(name) && modes.contains_key(name)
            && exists|i: int| 0 <= i < physical.len() && (#[trigger] physical[i]).connector@ == name,
    decreases physical.len(),
{
    if physical.len() > 0 {
        let before = physical.drop_last();
        let last = physical.last().connector@;
        law_externals_are_complete(before, modes, name);
        law_externals_are_complete(before, modes, last);
        lemma_push_duplicates(externals(before, modes), last);
        lemma_contains_concat(externals(before, modes), seq![last], name);
        assert(externals(before, modes).push(last) =~= externals(before, modes) + seq![last]);
        assert(seq![last].contains(name) <==> name == last) by {
            assert(seq![last][0] == last);
        }
        if exists|i: int| 0 <= i < before.len() && (#[trigger] before[i]).connector@ == name {
            let i = choose|i: int| 0 <= i < before.len() && (#[trigger] before[i]).connector@ == name;
            assert(physical[i].connector@ == name);
        }
        if name == last {
            assert(physical[physical.len() - 1].connector@ == name);
        }
        if exists|i: int| 0 <= i < physical.len() && (#[trigger] physical[i]).connector@ == name {
            let i = choose|i: int|
                0 <= i < physical.len() && (#[trigger] physical[i]).connector@ == name;
            if i < before.len() {
                assert(before[i].connector@ == name);
            }
        }
    }
}

/// The ordered externals stand in the order of their first rows: every row of the later of two has
/// a row of the earlier one before it.
pub proof fn law_externals_keep_their_order(
    physical: Seq<PhysicalMonitor>,
    modes: Map<Seq<char>, MonitorMode>,
    i: int,
    j: int,
    row: int,
)
    requires
        0 <= i < j < externals(physical, modes).len(),
        0 <= row < physical.len(),
        physical[row].connector@ == externals(physical, modes)[j],
    ensures
        exists|k: int|
            0 <= k < row && (#[trigger] physical[k]).connector@ == externals(physical, modes)[i],
    decreases physical.len(),
{
    let before = physical.drop_last();
    let listed = externals(before, modes);
    let all = externals(physical, modes);
    law_externals_are_complete(before, modes, all[j]);
    law_externals_are_complete(physical, modes, all[j]);
    assert(all.contains(all[j]));
    if row < before.len() {
        assert(before[row].connector@ == all[j]);
        assert(j < listed.len());
        law_externals_keep_their_order(before, modes, i, j, row);
        let k = choose|k: int| 0 <= k < row && (#[trigger] before[k]).connector@ == listed[i];
        assert(physical[k].connector@ == all[i]);
    } else {
        assert(all[i] == listed[i]);
        law_externals_are_complete(before, modes, listed[i]);
        assert(listed.contains(listed[i]));
        let k = choose|k: int|
            0 <= k < before.len() && (#[trigger] before[k]).connector@ == listed[i];
        assert(physical[k].connector@ == all[i]);
    }
}

/// `mirror` is reported only where an internal panel is in use, so never with `external_only`.
pub proof fn law_mirror_needs_internal(logical: Seq<LogicalMonitor>)
    ensures
        layout_of(logical) == LAYOUT_MIRROR@ ==> attachment_of(logical) != ATTACH_EXTERNAL_ONLY@,
{
    reveal_strlit("joined");
    reveal_strlit("mirror");
    reveal_strlit("external_only");
    reveal_strlit("all_connected");
    reveal_strlit("builtin_only");
    assert("joined"@[0] != "mirror"@[0]);
    assert("external_only"@[0] != "all_connected"@[0]);
    assert("external_only"@[0] != "builtin_only"@[0]);
    if layout_of(logical) == LAYOUT_MIRROR@ {
        let i = choose|i: int|
            0 <= i < logical.len() && shown_on(#[trigger] logical[i], "eDP-1"@) && shown_on(
                logical[i],
                "eDP-2"@,
            );
        let j = choose|j: int|
            0 <= j < logical[i].connectors@.len() && (#[trigger] logical[i].connectors@[j])@
                == "eDP-1"@;
        assert(internal(logical[i].connectors@[j]@));
    }
}

/// The two internal panels, and nothing else.
pub proof fn law_internal_panels(name: Seq<char>)
    ensures
        internal("eDP-1"@) && internal("eDP-2"@),
        internal(name) ==> name == "eDP-1"@ || name == "eDP-2"@,
        ATTACH_BUILTIN_ONLY@ == "builtin_only"@,
        ATTACH_EXTERNAL_ONLY@ == "external_only"@,
        ATTACH_ALL_CONNECTED@ == "all_connected"@,
        LAYOUT_JOINED@ == "joined"@,
        LAYOUT_MIRROR@ == "mirror"@,
{
}

/// The outputs are listed monitor by monitor, each monitor's in its own order.
pub proof fn law_outputs_are_listed_in_order(a: Seq<LogicalMonitor>, lm: LogicalMonitor)
    ensures
        bound_connectors(Seq::empty()).len() == 0,
        bound_connectors(a.push(lm)).len() == bound_connectors(a).len() + lm.connectors@.len(),
        forall|i: int|
            0 <= i < bound_connectors(a).len() ==> #[trigger] bound_connectors(a.push(lm))[i]
                == bound_connectors(a)[i],
        forall|j: int|
            0 <= j < lm.connectors@.len() ==> bound_connectors(a.push(lm))[bound_connectors(a).len()
                + j] == (#[trigger] lm.connectors@[j])@,
{
    assert(a.push(lm).drop_last() =~= a);
    let names = crate::text::texts(lm.connectors@);
    assert forall|j: int| 0 <= j < lm.connectors@.len() implies bound_connectors(
        a.push(lm),
    )[bound_connectors(a).len() + j] == (#[trigger] lm.connectors@[j])@ by {
        assert(names[j] == lm.connectors@[j]@);
    }
}

/// What outputs a layout uses decides its attachment: external ones beside internal ones, external
/// ones alone, or neither.
pub proof fn law_attachment_by_outputs(logical: Seq<LogicalMonitor>, i: int, j: int, k: int, l: int)
    requires
        0 <= i < logical.len(),
        0 <= j < logical[i].connectors@.len(),
        0 <= k < logical.len(),
        0 <= l < logical[k].connectors@.len(),
    ensures
        ({
            let a = logical[i].connectors@[j]@;
            let b = logical[k].connectors@[l]@;
            &&& (a == "eDP-1"@ || a == "eDP-2"@) && b != "eDP-1"@ && b != "eDP-2"@
                ==> attachment_of(logical) == "all_connected"@
            &&& a == "eDP-1"@ || a == "eDP-2"@ ==> attachment_of(logical) != "external_only"@
            &&& b != "eDP-1"@ && b != "eDP-2"@ ==> attachment_of(logical) != "builtin_only"@
        }),
{
    reveal_strlit("external_only");
    reveal_strlit("all_connected");
    reveal_strlit("builtin_only");
    assert("external_only"@[0] != "all_connected"@[0]);
    assert("external_only"@[0] != "builtin_only"@[0]);
    assert("builtin_only"@[0] != "all_connected"@[0]);
    let a = logical[i].connectors@[j]@;
    let b = logical[k].connectors@[l]@;
    if a == "eDP-1"@ || a == "eDP-2"@ {
        assert(internal(logical[i].connectors@[j]@));
        assert(uses_internal(logical));
    }
    if b != "eDP-1"@ && b != "eDP-2"@ {
        assert(!internal(logical[k].connectors@[l]@));
        assert(uses_external(logical));
    }
}

/// A layout of internal panels only is the internal one, and a layout without them the external one.
pub proof fn law_uniform_attachment(logical: Seq<LogicalMonitor>)
    ensures
        (forall|i: int, j: int|
            0 <= i < logical.len() && 0 <= j < logical[i].connectors@.len() ==> (
            #[trigger] logical[i].connectors@[j])@ == "eDP-1"@ || logical[i].connectors@[j]@
                == "eDP-2"@) ==> attachment_of(logical) == "builtin_only"@,
        (exists|i: int| 0 <= i < logical.len() && (#[trigger] logical[i]).connectors@.len() > 0)
            && (forall|i: int, j: int|
            0 <= i < logical.len() && 0 <= j < logical[i].connectors@.len() ==> (
            #[trigger] logical[i].connectors@[j])@ != "eDP-1"@ && logical[i].connectors@[j]@
                != "eDP-2"@) ==> attachment_of(logical) == "external_only"@,
{
    if exists|i: int| 0 <= i < logical.len() && (#[trigger] logical[i]).connectors@.len() > 0 {
        let i = choose|i: int|
            0 <= i < logical.len() && (#[trigger] logical[i]).connectors@.len() > 0;
        let first = logical[i].connectors@[0];
        if forall|i: int, j: int|
            0 <= i < logical.len() && 0 <= j < logical[i].connectors@.len() ==> (
            #[trigger] logical[i].connectors@[j])@ != "eDP-1"@ && logical[i].connectors@[j]@
                != "eDP-2"@ {
            assert(!internal(logical[i].connectors@[0]@));
            assert(uses_external(logical));
            assert(!uses_internal(logical));
        }
    }
}

/// The internal panels are mirrored exactly where one logical monitor shows on both.
pub proof fn law_mirror_is_one_monitor_on_both_panels(
    logical: Seq<LogicalMonitor>,
    i: int,
    j: int,
    k: int,
)
    requires
        0 <= i < logical.len(),
        0 <= j < logical[i].connectors@.len(),
        0 <= k < logical[i].connectors@.len(),
    ensures
        logical[i].connectors@[j]@ == "eDP-1"@ && logical[i].connectors@[k]@ == "eDP-2"@
            ==> layout_of(logical) == "mirror"@,
        (forall|a: int, b: int|
            0 <= a < logical.len() && 0 <= b < logical[a].connectors@.len() ==> (
            #[trigger] logical[a].connectors@[b])@ != "eDP-1"@) ==> layout_of(logical)
            == "joined"@,
        (forall|a: int, b: int|
            0 <= a < logical.len() && 0 <= b < logical[a].connectors@.len() ==> (
            #[trigger] logical[a].connectors@[b])@ != "eDP-2"@) ==> layout_of(logical)
            == "joined"@,
        (forall|a: int| 0 <= a < logical.len() ==> (#[trigger] logical[a]).connectors@.len() <= 1)
            ==> layout_of(logical) == "joined"@,
{
    reveal_strlit("eDP-1");
    reveal_strlit("eDP-2");
    assert("eDP-1"@[4] != "eDP-2"@[4]);
    if logical[i].connectors@[j]@ == "eDP-1"@ && logical[i].connectors@[k]@ == "eDP-2"@ {
        assert(shown_on(logical[i], "eDP-1"@));
        assert(shown_on(logical[i], "eDP-2"@));
    }
}

/// An output of the last logical monitor has the layout of that monitor, and an output that it does
/// not show on has the one it had.
pub proof fn law_rows_cover_all_outputs(a: Seq<LogicalMonitor>, lm: LogicalMonitor, c: Seq<char>)
    ensures
        ({
            let rows = rows_of(a.push(lm));
            &&& (exists|j: int|
                0 <= j < lm.connectors@.len() && (#[trigger] lm.connectors@[j])@ == c)
                ==> rows.contains_key(c) && rows[c].x == lm.x && rows[c].y == lm.y
                && rows[c].transform == lm.transform && rows[c].primary == lm.primary
                && rows[c].scale_matches == lm.scale_matches
            &&& (forall|j: int|
                0 <= j < lm.connectors@.len() ==> (#[trigger] lm.connectors@[j])@ != c) ==> (
            rows.contains_key(c) <==> rows_of(a).contains_key(c)) && (rows_of(a).contains_key(c)
                ==> rows[c] == rows_of(a)[c])
        }),
        !rows_of(Seq::empty()).contains_key(c),
{
    assert(a.push(lm).drop_last() =~= a);
    let names = crate::text::texts(lm.connectors@);
    if exists|j: int| 0 <= j < lm.connectors@.len() && (#[trigger] lm.connectors@[j])@ == c {
        let j = choose|j: int| 0 <= j < lm.connectors@.len() && (#[trigger] lm.connectors@[j])@ == c;
        assert(names[j] == c);
    }
    if forall|j: int| 0 <= j < lm.connectors@.len() ==> (#[trigger] lm.connectors@[j])@ != c {
        if names.contains(c) {
            let j = choose|j: int| 0 <= j < names.len() && names[j] == c;
            assert(lm.connectors@[j]@ == c);
        }
    }
}

} // verus!
