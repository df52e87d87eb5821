//! Layout of the two internal panels and the sequence of compositor calls that brings it about.
//!
//! A monitor's scale is a floating-point number that the caller keeps: a mode carries its size
//! already divided by the reference scale and rounded down, and a logical monitor only says
//! whether its own scale equals the reference.
use vstd::prelude::*;
use vstd::hash_map::StringHashMap;

use crate::session::display_mode::read_current_logical_rows;
use crate::text::same;

verus! {

/// Delay between the two applies of a move to an eDP-2 primary.
pub const EDPTWO_PRIMARY_PHASE1_STABILITY_MS: u64 = 300;

/// A video mode of an output.
pub struct MonitorMode {
    pub id: String,
    pub width: i32,
    pub height: i32,
    /// `width` divided by the reference scale, rounded down.
    pub logical_width: i32,
    /// `height` divided by the reference scale, rounded down.
    pub logical_height: i32,
    pub is_current: bool,
    pub is_preferred: bool,
}

impl Clone for MonitorMode {
    fn clone(&self) -> (r: Self)
        ensures
            r == *self,
    {
        MonitorMode {
            id: self.id.clone(),
            width: self.width,
            height: self.height,
            logical_width: self.logical_width,
            logical_height: self.logical_height,
            is_current: self.is_current,
            is_preferred: self.is_preferred,
        }
    }
}

/// An output with its identification and its modes.
pub struct PhysicalMonitor {
    pub connector: String,
    pub vendor: String,
    pub product: String,
    pub serial: String,
    pub modes: Vec<MonitorMode>,
}

/// A region of the desktop with the outputs that show it.
pub struct LogicalMonitor {
    pub x: i32,
    pub y: i32,
    /// The scale of this monitor differs from the reference scale by less than a hundredth.
    pub scale_matches: bool,
    pub transform: u32,
    pub primary: bool,
    pub connectors: Vec<String>,
}

/// One logical monitor of a layout that is asked for.
pub struct ApplyLm {
    pub x: i32,
    pub y: i32,
    pub transform: u32,
    pub primary: bool,
    pub connector: String,
    pub mode_id: String,
}

pub struct ApplyLmView {
    pub x: int,
    pub y: int,
    pub transform: u32,
    pub primary: bool,
    pub connector: Seq<char>,
    pub mode_id: Seq<char>,
}

impl View for ApplyLm {
    type V = ApplyLmView;

    open spec fn view(&self) -> ApplyLmView {
        ApplyLmView {
            x: self.x as int,
            y: self.y as int,
            transform: self.transform,
            primary: self.primary,
            connector: self.connector@,
            mode_id: self.mode_id@,
        }
    }
}

/// The layout that a list of requested monitors stands for.
pub open spec fn layout_view(lms: Seq<ApplyLm>) -> Seq<ApplyLmView> {
    Seq::new(lms.len(), |i: int| lms[i]@)
}

impl Clone for ApplyLm {
    fn clone(&self) -> (r: Self)
        ensures
            r == *self,
    {
        ApplyLm {
            x: self.x,
            y: self.y,
            transform: self.transform,
            primary: self.primary,
            connector: self.connector.clone(),
            mode_id: self.mode_id.clone(),
        }
    }
}

/// Position, rotation and role of an output in the present layout.
#[derive(Clone, Copy, PartialEq, Eq, Structural)]
pub struct ConfigRow {
    pub x: i32,
    pub y: i32,
    pub scale_matches: bool,
    pub transform: u32,
    pub primary: bool,
}

// ── Sizes and placement ──────────────────────────────────────────────────────

/// Whether a transform turns a panel on its side.
pub open spec fn sideways(transform: u32) -> bool {
    transform == 1 || transform == 3
}

/// Width and height that a mode covers on the desktop under a transform.
pub open spec fn logical_extent(mode: MonitorMode, transform: u32) -> (int, int) {
    if sideways(transform) {
        (mode.logical_height as int, mode.logical_width as int)
    } else {
        (mode.logical_width as int, mode.logical_height as int)
    }
}

/// The size that a mode covers on the desktop: sideways transforms exchange width and height.
pub fn logical_size(mode: &MonitorMode, transform: u32) -> (r: (i32, i32))
    ensures
        (r.0 as int, r.1 as int) == logical_extent(*mode, transform),
{
    if transform == 1 || transform == 3 {
        (mode.logical_height, mode.logical_width)
    } else {
        (mode.logical_width, mode.logical_height)
    }
}

/// Extent of a panel along the global X axis.
pub fn edp_logical_extent_x(mode: &MonitorMode, transform: u32) -> (r: i32)
    ensures
        r as int == logical_extent(*mode, transform).0,
{
    let (lw, _lh) = logical_size(mode, transform);
    lw
}

/// Positions of a top panel and a bottom panel under a transform: the top panel is above the
/// bottom one when upright, and the pair turns with the machine.
pub open spec fn pair_positions(top: MonitorMode, bottom: MonitorMode, transform: u32) -> (
    (int, int),
    (int, int),
) {
    if transform == 1 {
        ((logical_extent(bottom, transform).0, 0int), (0int, 0int))
    } else if transform == 2 {
        ((0int, logical_extent(bottom, transform).1), (0int, 0int))
    } else if transform == 3 {
        ((0int, 0int), (logical_extent(top, transform).0, 0int))
    } else {
        ((0int, 0int), (0int, logical_extent(top, transform).1))
    }
}

fn place_pair(top: &MonitorMode, bottom: &MonitorMode, transform: u32) -> (r: (
    (i32, i32),
    (i32, i32),
))
    ensures
        ((r.0.0 as int, r.0.1 as int), (r.1.0 as int, r.1.1 as int)) == pair_positions(
            *top,
            *bottom,
            transform,
        ),
{
    let (tw, th) = logical_size(top, transform);
    let (bw, bh) = logical_size(bottom, transform);
    match transform {
        1 => ((bw, 0i32), (0i32, 0i32)),
        2 => ((0i32, bh), (0i32, 0i32)),
        3 => ((0i32, 0i32), (tw, 0i32)),
        _ => ((0i32, 0i32), (0i32, th)),
    }
}

/// The two internal panels are the pair at hand.
pub open spec fn is_duo_pair(a: Seq<char>, b: Seq<char>) -> bool {
    (a == "eDP-1"@ && b == "eDP-2"@) || (a == "eDP-2"@ && b == "eDP-1"@)
}

pub open spec fn lm_at(
    pos: (int, int),
    transform: u32,
    primary: bool,
    connector: Seq<char>,
    mode: MonitorMode,
) -> ApplyLmView {
    ApplyLmView { x: pos.0, y: pos.1, transform, primary, connector, mode_id: mode.id@ }
}

/// The layout of a primary output and an optional second one. With both internal panels eDP-1 is
/// the top panel whichever is primary; otherwise the primary output is the top one. The primary
/// output comes last.
pub open spec fn duo_layout(
    primary: Seq<char>,
    primary_mode: MonitorMode,
    secondary: Option<(Seq<char>, MonitorMode)>,
    transform: u32,
) -> Seq<ApplyLmView> {
    match secondary {
        None => seq![lm_at((0, 0), transform, true, primary, primary_mode)],
        Some((sc, sm)) => {
            let primary_on_top = !(is_duo_pair(primary, sc) && primary == "eDP-2"@);
            let (top, bottom) = if primary_on_top {
                (primary_mode, sm)
            } else {
                (sm, primary_mode)
            };
            let (top_pos, bottom_pos) = pair_positions(top, bottom, transform);
            let (primary_pos, secondary_pos) = if primary_on_top {
                (top_pos, bottom_pos)
            } else {
                (bottom_pos, top_pos)
            };
            seq![
                lm_at(secondary_pos, transform, false, sc, sm),
                lm_at(primary_pos, transform, true, primary, primary_mode),
            ]
        },
    }
}

/// The secondary output of [`build_duo_lms`] as its contract speaks of it.
pub open spec fn secondary_view(secondary: Option<(&str, &MonitorMode)>) -> Option<
    (Seq<char>, MonitorMode),
> {
    match secondary {
        Some((c, m)) => Some((c@, *m)),
        None => None,
    }
}

/// Builds the logical monitors for a primary output and an optional second one.
///
/// Placement of the internal panels is fixed whichever of them is primary:
/// normal has eDP-2 below eDP-1, left-up has it to the left, bottom-up above and right-up to the
/// right. The primary monitor is last, which the compositor needs.
pub fn build_duo_lms(
    primary_connector: &str,
    primary_mode: &MonitorMode,
    secondary: Option<(&str, &MonitorMode)>,
    transform: u32,
) -> (lms: Vec<ApplyLm>)
    ensures
        layout_view(lms@) == duo_layout(
            primary_connector@,
            *primary_mode,
            secondary_view(secondary),
            transform,
        ),
{
    let mut lms: Vec<ApplyLm> = Vec::new();
    match secondary {
        None => {
            lms.push(
                ApplyLm {
                    x: 0,
                    y: 0,
                    transform,
                    primary: true,
                    connector: primary_connector.to_owned(),
                    mode_id: primary_mode.id.clone(),
                },
            );
        },
        Some((sc, sm)) => {
            let duo = (same(primary_connector, "eDP-1") && same(sc, "eDP-2")) || (same(
                primary_connector,
                "eDP-2",
            ) && same(sc, "eDP-1"));
            let primary_on_top = !(duo && same(primary_connector, "eDP-2"));
            let (primary_pos, secondary_pos) = if primary_on_top {
                place_pair(primary_mode, sm, transform)
            } else {
                let (s, p) = place_pair(sm, primary_mode, transform);
                (p, s)
            };
            lms.push(
                ApplyLm {
                    x: secondary_pos.0,
                    y: secondary_pos.1,
                    transform,
                    primary: false,
                    connector: sc.to_owned(),
                    mode_id: sm.id.clone(),
                },
            );
            lms.push(
                ApplyLm {
                    x: primary_pos.0,
                    y: primary_pos.1,
                    transform,
                    primary: true,
                    connector: primary_connector.to_owned(),
                    mode_id: primary_mode.id.clone(),
                },
            );
        },
    }
    proof {
        assert(layout_view(lms@) =~= duo_layout(
            primary_connector@,
            *primary_mode,
            secondary_view(secondary),
            transform,
        ));
    }
    lms
}

/// The primary monitor of a layout is its last one, and the only primary one.
pub proof fn law_primary_is_last(
    primary: Seq<char>,
    primary_mode: MonitorMode,
    secondary: Option<(Seq<char>, MonitorMode)>,
    transform: u32,
)
    ensures
        ({
            let layout = duo_layout(primary, primary_mode, secondary, transform);
            &&& layout.len() > 0
            &&& layout.last().primary
            &&& layout.last().connector == primary
            &&& forall|i: int| 0 <= i < layout.len() - 1 ==> !(#[trigger] layout[i]).primary
        }),
{
}

/// Each internal panel is at the same place whichever of them is primary.
pub proof fn law_placement_ignores_primary(edp1: MonitorMode, edp2: MonitorMode, transform: u32)
    ensures
        ({
            let upper = duo_layout("eDP-1"@, edp1, Some(("eDP-2"@, edp2)), transform);
            let lower = duo_layout("eDP-2"@, edp2, Some(("eDP-1"@, edp1)), transform);
            &&& upper[1].connector == "eDP-1"@ && lower[0].connector == "eDP-1"@
            &&& (upper[1].x, upper[1].y) == (lower[0].x, lower[0].y)
            &&& upper[0].connector == "eDP-2"@ && lower[1].connector == "eDP-2"@
            &&& (upper[0].x, upper[0].y) == (lower[1].x, lower[1].y)
        }),
{
    reveal_strlit("eDP-1");
    reveal_strlit("eDP-2");
    assert("eDP-1"@[4] != "eDP-2"@[4]);
}

/// One panel begins where the other ends, along the axis on which they are placed, and both begin
/// at zero on the other axis.
pub proof fn law_panels_touch(
    primary: Seq<char>,
    primary_mode: MonitorMode,
    secondary: Seq<char>,
    secondary_mode: MonitorMode,
    transform: u32,
)
    ensures
        ({
            let layout = duo_layout(
                primary,
                primary_mode,
                Some((secondary, secondary_mode)),
                transform,
            );
            let (s, p) = (layout[0], layout[1]);
            let s_size = logical_extent(secondary_mode, transform);
            let p_size = logical_extent(primary_mode, transform);
            if sideways(transform) {
                s.y == 0 && p.y == 0 && ((p.x == 0 && s.x == p_size.0) || (s.x == 0 && p.x
                    == s_size.0))
            } else {
                s.x == 0 && p.x == 0 && ((p.y == 0 && s.y == p_size.1) || (s.y == 0 && p.y
                    == s_size.1))
            }
        }),
{
}

// ── Reading the compositor's state ───────────────────────────────────────────

/// The mode that stands for an output: the current one, else the preferred one, else the first.
pub open spec fn chosen_mode(modes: Seq<MonitorMode>) -> Option<MonitorMode> {
    let current = crate::seqs::first_where(modes, |m: MonitorMode| m.is_current);
    let preferred = crate::seqs::first_where(modes, |m: MonitorMode| m.is_preferred);
    if current is Some {
        current
    } else if preferred is Some {
        preferred
    } else if modes.len() > 0 {
        Some(modes[0])
    } else {
        None
    }
}

fn choose_mode(modes: &Vec<MonitorMode>) -> (r: Option<usize>)
    ensures
        match r {
            Some(i) => i < modes@.len() && chosen_mode(modes@) == Some(modes@[i as int]),
            None => chosen_mode(modes@) is None,
        },
{
    let ghost is_current = |m: MonitorMode| m.is_current;
    let ghost is_preferred = |m: MonitorMode| m.is_preferred;
    let mut i: usize = 0;
    while i < modes.len()
        invariant
            i <= modes@.len(),
            is_current == (|m: MonitorMode| m.is_current),
            forall|j: int| 0 <= j < i ==> !is_current(#[trigger] modes@[j]),
        decreases modes@.len() - i,
    {
        if modes[i].is_current {
            proof {
                crate::seqs::lemma_first_where_found(modes@, is_current, i as int);
            }
            return Some(i);
        }
        i = i + 1;
    }
    proof {
        crate::seqs::lemma_first_where_absent(modes@, is_current);
    }
    let mut k: usize = 0;
    while k < modes.len()
        invariant
            k <= modes@.len(),
            crate::seqs::first_where(modes@, |m: MonitorMode| m.is_current) is None,
            is_preferred == (|m: MonitorMode| m.is_preferred),
            forall|j: int| 0 <= j < k ==> !is_preferred(#[trigger] modes@[j]),
        decreases modes@.len() - k,
    {
        if modes[k].is_preferred {
            proof {
                crate::seqs::lemma_first_where_found(modes@, is_preferred, k as int);
            }
            return Some(k);
        }
        k = k + 1;
    }
    proof {
        crate::seqs::lemma_first_where_absent(modes@, is_preferred);
    }
    if modes.len() > 0 {
        Some(0)
    } else {
        None
    }
}

/// The chosen mode of every output that has one; of two rows with one connector the later counts.
pub open spec fn modes_by_connector(physical: Seq<PhysicalMonitor>) -> Map<Seq<char>, MonitorMode>
    decreases physical.len(),
{
    if physical.len() == 0 {
        Map::empty()
    } else {
        let before = modes_by_connector(physical.drop_last());
        match chosen_mode(physical.last().modes@) {
            Some(m) => before.insert(physical.last().connector@, m),
            None => before,
        }
    }
}

/// Picks a mode for every output.
pub fn extract_all_modes(physical: &Vec<PhysicalMonitor>) -> (map: StringHashMap<MonitorMode>)
    ensures
        map@ == modes_by_connector(physical@),
{
    let mut map: StringHashMap<MonitorMode> = StringHashMap::new();
    let mut i: usize = 0;
    while i < physical.len()
        invariant
            i <= physical@.len(),
            map@ == modes_by_connector(physical@.take(i as int)),
        decreases physical@.len() - i,
    {
        let p = &physical[i];
        proof {
            assert(physical@.take(i as int + 1).drop_last() =~= physical@.take(i as int));
            assert(physical@.take(i as int + 1).last() == physical@[i as int]);
        }
        match choose_mode(&p.modes) {
            Some(k) => map.insert(p.connector.clone(), p.modes[k].clone()),
            None => {},
        }
        i = i + 1;
    }
    proof {
        assert(physical@.take(physical@.len() as int) =~= physical@);
    }
    map
}

/// The mode of `modes` with the given size, else the first one.
pub open spec fn sized_mode(modes: Seq<MonitorMode>, width: i32, height: i32) -> Option<
    MonitorMode,
> {
    let sized = crate::seqs::first_where(
        modes,
        |m: MonitorMode| m.width == width && m.height == height,
    );
    if sized is Some {
        sized
    } else if modes.len() > 0 {
        Some(modes[0])
    } else {
        None
    }
}

/// The first physical row with the given connector.
pub open spec fn row_of(physical: Seq<PhysicalMonitor>, connector: Seq<char>) -> Option<
    PhysicalMonitor,
> {
    crate::seqs::first_where(physical, |p: PhysicalMonitor| p.connector@ == connector)
}

/// Index of the first physical row with the given connector.
pub fn find_row(physical: &Vec<PhysicalMonitor>, connector: &str) -> (r: Option<usize>)
    ensures
        match r {
            Some(i) => i < physical@.len() && row_of(physical@, connector@) == Some(
                physical@[i as int],
            ) && physical@[i as int].connector@ == connector@,
            None => row_of(physical@, connector@) is None,
        },
{
    let ghost named = |p: PhysicalMonitor| p.connector@ == connector@;
    let mut i: usize = 0;
    while i < physical.len()
        invariant
            i <= physical@.len(),
            named == (|p: PhysicalMonitor| p.connector@ == connector@),
            forall|j: int| 0 <= j < i ==> !named(#[trigger] physical@[j]),
        decreases physical@.len() - i,
    {
        if same(physical[i].connector.as_str(), connector) {
            proof {
                crate::seqs::lemma_first_where_found(physical@, named, i as int);
            }
            return Some(i);
        }
        i = i + 1;
    }
    proof {
        crate::seqs::lemma_first_where_absent(physical@, named);
    }
    None
}

/// The mode that [`find_mode_matching_size`] gives.
pub open spec fn mode_matching_size(
    physical: Seq<PhysicalMonitor>,
    connector: Seq<char>,
    width: i32,
    height: i32,
) -> Option<MonitorMode> {
    match row_of(physical, connector) {
        Some(p) => sized_mode(p.modes@, width, height),
        None => None,
    }
}

/// The mode of an output with the given size, else its first mode.
pub fn find_mode_matching_size(
    physical: &Vec<PhysicalMonitor>,
    connector: &str,
    width: i32,
    height: i32,
) -> (r: Option<MonitorMode>)
    ensures
        r == mode_matching_size(physical@, connector@, width, height),
{
    let row: usize = match find_row(physical, connector) {
        Some(row) => row,
        None => return None,
    };
    let modes = &physical[row].modes;
    let ghost sized = |m: MonitorMode| m.width == width && m.height == height;
    let mut i: usize = 0;
    while i < modes.len()
        invariant
            i <= modes@.len(),
            row < physical@.len(),
            row_of(physical@, connector@) == Some(physical@[row as int]),
            *modes == physical@[row as int].modes,
            sized == (|m: MonitorMode| m.width == width && m.height == height),
            forall|j: int| 0 <= j < i ==> !sized(#[trigger] modes@[j]),
        decreases modes@.len() - i,
    {
        if modes[i].width == width && modes[i].height == height {
            proof {
                crate::seqs::lemma_first_where_found(modes@, sized, i as int);
            }
            return Some(modes[i].clone());
        }
        i = i + 1;
    }
    proof {
        crate::seqs::lemma_first_where_absent(modes@, sized);
    }
    if modes.len() > 0 {
        Some(modes[0].clone())
    } else {
        None
    }
}

/// The first output of a logical monitor.
pub open spec fn lead(lm: LogicalMonitor) -> Option<Seq<char>> {
    if lm.connectors@.len() > 0 {
        Some(lm.connectors@[0]@)
    } else {
        None
    }
}

pub open spec fn config_row(lm: LogicalMonitor) -> ConfigRow {
    ConfigRow {
        x: lm.x,
        y: lm.y,
        scale_matches: lm.scale_matches,
        transform: lm.transform,
        primary: lm.primary,
    }
}

/// The present layout by first output; of two rows with one output the later counts.
pub open spec fn config_of(logical: Seq<LogicalMonitor>) -> Map<Seq<char>, ConfigRow>
    decreases logical.len(),
{
    if logical.len() == 0 {
        Map::empty()
    } else {
        let before = config_of(logical.drop_last());
        match lead(logical.last()) {
            Some(c) => before.insert(c, config_row(logical.last())),
            None => before,
        }
    }
}

/// The same output appears twice among the outputs of the logical monitors.
pub open spec fn corrupted(logical: Seq<LogicalMonitor>) -> bool {
    !crate::session::display_mode::bound_connectors(logical).no_duplicates()
}

/// Reads the present layout by first output. The flag says that the same output appears twice,
/// in whatever place of whichever logical monitors.
pub fn read_current_config(logical: &Vec<LogicalMonitor>) -> (r: (StringHashMap<ConfigRow>, bool))
    ensures
        r.0@ == config_of(logical@),
        r.1 == corrupted(logical@),
{
    let mut config: StringHashMap<ConfigRow> = StringHashMap::new();
    let mut i: usize = 0;
    while i < logical.len()
        invariant
            i <= logical@.len(),
            config@ == config_of(logical@.take(i as int)),
        decreases logical@.len() - i,
    {
        let lm = &logical[i];
        proof {
            assert(logical@.take(i as int + 1).drop_last() =~= logical@.take(i as int));
            assert(logical@.take(i as int + 1).last() == logical@[i as int]);
        }
        if lm.connectors.len() > 0 {
            config.insert(
                lm.connectors[0].clone(),
                ConfigRow {
                    x: lm.x,
                    y: lm.y,
                    scale_matches: lm.scale_matches,
                    transform: lm.transform,
                    primary: lm.primary,
                },
            );
        }
        i = i + 1;
    }
    proof {
        assert(logical@.take(logical@.len() as int) =~= logical@);
    }
    let (_, is_corrupted) = read_current_logical_rows(logical);
    (config, is_corrupted)
}

/// The row whose scale is the reference: the one led by eDP-1, else the primary one.
pub open spec fn reference_row(logical: Seq<LogicalMonitor>) -> Option<LogicalMonitor> {
    let edp1 = crate::seqs::first_where(
        logical,
        |lm: LogicalMonitor| lead(lm) == Some("eDP-1"@),
    );
    if edp1 is Some {
        edp1
    } else {
        primary_row(logical)
    }
}

/// The first primary row.
pub open spec fn primary_row(logical: Seq<LogicalMonitor>) -> Option<LogicalMonitor> {
    crate::seqs::first_where(logical, |lm: LogicalMonitor| lm.primary)
}

fn find_primary_row(logical: &Vec<LogicalMonitor>) -> (r: Option<usize>)
    ensures
        match r {
            Some(i) => i < logical@.len() && primary_row(logical@) == Some(logical@[i as int]),
            None => primary_row(logical@) is None,
        },
{
    let ghost is_primary = |lm: LogicalMonitor| lm.primary;
    let mut i: usize = 0;
    while i < logical.len()
        invariant
            i <= logical@.len(),
            is_primary == (|lm: LogicalMonitor| lm.primary),
            forall|j: int| 0 <= j < i ==> !is_primary(#[trigger] logical@[j]),
        decreases logical@.len() - i,
    {
        if logical[i].primary {
            proof {
                crate::seqs::lemma_first_where_found(logical@, is_primary, i as int);
            }
            return Some(i);
        }
        i = i + 1;
    }
    proof {
        crate::seqs::lemma_first_where_absent(logical@, is_primary);
    }
    None
}

/// Index of the row whose scale is the reference scale; `None` asks for the default scale.
/// eDP-1 is the reference because it is always active and never changes mode by itself.
pub fn read_edp1_scale(logical: &Vec<LogicalMonitor>) -> (r: Option<usize>)
    ensures
        match r {
            Some(i) => i < logical@.len() && reference_row(logical@) == Some(logical@[i as int]),
            None => reference_row(logical@) is None,
        },
{
    let ghost led = |lm: LogicalMonitor| lead(lm) == Some("eDP-1"@);
    let mut i: usize = 0;
    while i < logical.len()
        invariant
            i <= logical@.len(),
            led == (|lm: LogicalMonitor| lead(lm) == Some("eDP-1"@)),
            forall|j: int| 0 <= j < i ==> !led(#[trigger] logical@[j]),
        decreases logical@.len() - i,
    {
        let lm = &logical[i];
        if lm.connectors.len() > 0 && same(lm.connectors[0].as_str(), "eDP-1") {
            proof {
                crate::seqs::lemma_first_where_found(logical@, led, i as int);
            }
            return Some(i);
        }
        i = i + 1;
    }
    proof {
        crate::seqs::lemma_first_where_absent(logical@, led);
    }
    find_primary_row(logical)
}

/// Transform of an orientation reported by the accelerometer.
pub open spec fn transform_of(orientation: Seq<char>) -> u32 {
    if orientation == "left-up"@ {
        1
    } else if orientation == "bottom-up"@ {
        2
    } else if orientation == "right-up"@ {
        3
    } else {
        0
    }
}

/// Maps an orientation to a transform; an unknown one counts as upright.
pub fn orientation_to_transform(orientation: &str) -> (r: u32)
    ensures
        r == transform_of(orientation@),
        r <= 3,
{
    if same(orientation, "left-up") {
        1
    } else if same(orientation, "bottom-up") {
        2
    } else if same(orientation, "right-up") {
        3
    } else {
        0
    }
}

/// The transform to aim for: that of the reported orientation, else the one the primary monitor
/// has now.
pub fn current_desired_transform(
    orientation: Option<&str>,
    logical: &Vec<LogicalMonitor>,
) -> (r: u32)
    ensures
        r == (match orientation {
            Some(o) => transform_of(o@),
            None => match primary_row(logical@) {
                Some(lm) => lm.transform,
                None => 0,
            },
        }),
{
    match orientation {
        Some(o) => orientation_to_transform(o),
        None => match find_primary_row(logical) {
            Some(i) => logical[i].transform,
            None => 0,
        },
    }
}

// ── Adjacency correction ─────────────────────────────────────────────────────

/// The refusal that a one-pixel shift may cure: its text, in lower case, speaks of adjacency.
pub open spec fn non_adjacent(lowered: Seq<char>) -> bool {
    crate::text::contains_text(lowered, "adjacent"@)
}

/// Whether a lower-case refusal says that the displays are not adjacent.
pub fn mentions_adjacency(lowered: &str) -> (r: bool)
    ensures
        r == non_adjacent(lowered@),
{
    crate::text::contains(lowered, "adjacent")
}

/// Whether a refusal, in any case, says that the displays are not adjacent.
pub fn is_non_adjacent_error(error: &str) -> (r: bool)
    ensures
        r == non_adjacent(crate::text::lowercase(error@)),
{
    let lowered = crate::text::to_lowercase(error);
    mentions_adjacency(lowered.as_str())
}

/// A monitor shifted by `delta` along the axis on which the panels sit side by side, unless it is
/// at the origin of that axis.
pub open spec fn shifted(lm: ApplyLmView, transform: u32, delta: int) -> ApplyLmView {
    if sideways(transform) {
        ApplyLmView {
            x: if lm.x != 0 {
                lm.x + delta
            } else {
                lm.x
            },
            ..lm
        }
    } else {
        ApplyLmView {
            y: if lm.y != 0 {
                lm.y + delta
            } else {
                lm.y
            },
            ..lm
        }
    }
}

pub open spec fn shifted_layout(
    layout: Seq<ApplyLmView>,
    transform: u32,
    delta: int,
) -> Seq<ApplyLmView> {
    layout.map_values(|lm: ApplyLmView| shifted(lm, transform, delta))
}

/// Every coordinate of a layout is a 32-bit number.
pub open spec fn fits(layout: Seq<ApplyLmView>) -> bool {
    forall|i: int|
        0 <= i < layout.len() ==> i32::MIN <= (#[trigger] layout[i]).x <= i32::MAX && i32::MIN
            <= layout[i].y <= i32::MAX
}

/// Shifts the monitor that is not at the origin by `delta` pixels: along X when the panels are
/// side by side, along Y when they are stacked.
pub fn adjust_offset_pixel(lms: &Vec<ApplyLm>, transform: u32, delta: i32) -> (r: Vec<ApplyLm>)
    requires
        fits(shifted_layout(layout_view(lms@), transform, delta as int)),
    ensures
        layout_view(r@) == shifted_layout(layout_view(lms@), transform, delta as int),
{
    let mut out: Vec<ApplyLm> = Vec::new();
    let ghost goal = shifted_layout(layout_view(lms@), transform, delta as int);
    let mut i: usize = 0;
    while i < lms.len()
        invariant
            i <= lms@.len(),
            goal == shifted_layout(layout_view(lms@), transform, delta as int),
            fits(goal),
            layout_view(out@) == goal.take(i as int),
        decreases lms@.len() - i,
    {
        let lm = &lms[i];
        proof {
            assert(goal[i as int] == shifted(lm@, transform, delta as int));
        }
        let mut moved = lm.clone();
        if transform == 1 || transform == 3 {
            if lm.x != 0 {
                moved.x = lm.x + delta;
            }
        } else if lm.y != 0 {
            moved.y = lm.y + delta;
        }
        let ghost before = out@;
        let ghost moved_view = moved@;
        out.push(moved);
        proof {
            assert(moved_view == goal[i as int]);
            assert(layout_view(out@) =~= layout_view(before).push(moved_view));
            assert(goal.take(i as int + 1) =~= goal.take(i as int).push(goal[i as int]));
        }
        i = i + 1;
    }
    proof {
        assert(goal.take(lms@.len() as int) =~= goal);
    }
    out
}

// ── Comparing a request with the present layout ──────────────────────────────

/// A requested monitor is present as asked.
pub open spec fn lm_matches(
    lm: ApplyLmView,
    config: Map<Seq<char>, ConfigRow>,
    modes: Map<Seq<char>, MonitorMode>,
) -> bool {
    &&& config.contains_key(lm.connector)
    &&& modes.contains_key(lm.connector)
    &&& lm.x == config[lm.connector].x
    &&& lm.y == config[lm.connector].y
    &&& config[lm.connector].scale_matches
    &&& lm.transform == config[lm.connector].transform
    &&& lm.primary == config[lm.connector].primary
    &&& lm.mode_id == modes[lm.connector].id@
}

/// The present layout has as many monitors as asked for, and each one asked for.
pub open spec fn layout_matches(
    requested: Seq<ApplyLmView>,
    config: Map<Seq<char>, ConfigRow>,
    modes: Map<Seq<char>, MonitorMode>,
) -> bool {
    requested.len() == config.len() && forall|i: int|
        0 <= i < requested.len() ==> lm_matches(#[trigger] requested[i], config, modes)
}

/// Compares a requested layout with the present one.
pub fn requested_layout_matches_full(
    requested: &Vec<ApplyLm>,
    actual_config: &StringHashMap<ConfigRow>,
    actual_modes: &StringHashMap<MonitorMode>,
) -> (r: bool)
    ensures
        r == layout_matches(layout_view(requested@), actual_config@, actual_modes@),
{
    let ghost goal = layout_view(requested@);
    if requested.len() != actual_config.len() {
        return false;
    }
    let mut i: usize = 0;
    while i < requested.len()
        invariant
            i <= requested@.len(),
            goal == layout_view(requested@),
            requested@.len() == actual_config@.len(),
            forall|j: int|
                0 <= j < i ==> lm_matches(#[trigger] goal[j], actual_config@, actual_modes@),
        decreases requested@.len() - i,
    {
        let lm = &requested[i];
        proof {
            assert(goal[i as int] == lm@);
        }
        let row: ConfigRow = match actual_config.get(lm.connector.as_str()) {
            Some(row) => *row,
            None => {
                return false;
            },
        };
        let mode = match actual_modes.get(lm.connector.as_str()) {
            Some(mode) => mode,
            None => {
                return false;
            },
        };
        if !(lm.x == row.x && lm.y == row.y && row.scale_matches && lm.transform == row.transform
            && lm.primary == row.primary && same(lm.mode_id.as_str(), mode.id.as_str())) {
            return false;
        }
        i = i + 1;
    }
    true
}

// ── What the layouts are ─────────────────────────────────────────────────────

/// Every monitor of a layout is turned as asked, and shows its own output in its own mode: the
/// primary one last, the other one, if any, before it.
pub proof fn law_layout_is_as_asked(
    primary: Seq<char>,
    primary_mode: MonitorMode,
    secondary: Option<(Seq<char>, MonitorMode)>,
    transform: u32,
)
    ensures
        ({
            let layout = duo_layout(primary, primary_mode, secondary, transform);
            &&& forall|i: int|
                0 <= i < layout.len() ==> (#[trigger] layout[i]).transform == transform
            &&& layout.last().connector == primary
            &&& layout.last().mode_id == primary_mode.id@
            &&& secondary is None ==> layout.len() == 1 && layout[0].x == 0 && layout[0].y == 0
            &&& secondary matches Some((c, m)) ==> layout.len() == 2 && layout[0].connector == c
                && layout[0].mode_id == m.id@ && !layout[0].primary
        }),
{
}

/// Where the internal panels are, with eDP-1 at the origin when upright: eDP-2 is below it when
/// upright, left of it when left-up, above it when bottom-up and right of it when right-up. A panel
/// on its side is as wide as it is high when upright.
pub proof fn law_internal_panels_turn_with_the_machine(
    edp1: MonitorMode,
    edp2: MonitorMode,
    transform: u32,
)
    ensures
        ({
            let layout = duo_layout("eDP-1"@, edp1, Some(("eDP-2"@, edp2)), transform);
            let (lower, upper) = (layout[0], layout[1]);
            &&& transform == 0 ==> upper.x == 0 && upper.y == 0 && lower.x == 0 && lower.y
                == edp1.logical_height
            &&& transform == 1 ==> lower.x == 0 && lower.y == 0 && upper.x == edp2.logical_height
                && upper.y == 0
            &&& transform == 2 ==> lower.x == 0 && lower.y == 0 && upper.x == 0 && upper.y
                == edp2.logical_height
            &&& transform == 3 ==> upper.x == 0 && upper.y == 0 && lower.x == edp1.logical_height
                && lower.y == 0
            &&& transform > 3 ==> upper.x == 0 && upper.y == 0 && lower.x == 0 && lower.y
                == edp1.logical_height
        }),
{
    reveal_strlit("eDP-1");
    reveal_strlit("eDP-2");
    assert("eDP-1"@[4] != "eDP-2"@[4]);
}

/// In any pair but that of the internal panels the primary output is the top one.
pub proof fn law_other_pairs_have_the_primary_on_top(
    primary: Seq<char>,
    primary_mode: MonitorMode,
    secondary: Seq<char>,
    secondary_mode: MonitorMode,
    transform: u32,
)
    requires
        primary != "eDP-2"@ || secondary != "eDP-1"@,
    ensures
        ({
            let layout = duo_layout(
                primary,
                primary_mode,
                Some((secondary, secondary_mode)),
                transform,
            );
            let (s, p) = (layout[0], layout[1]);
            &&& transform == 1 ==> s.x == 0 && s.y == 0 && p.x == secondary_mode.logical_height
                && p.y == 0
            &&& transform == 2 ==> s.x == 0 && s.y == 0 && p.x == 0 && p.y
                == secondary_mode.logical_height
            &&& transform == 3 ==> p.x == 0 && p.y == 0 && s.x == primary_mode.logical_height
                && s.y == 0
            &&& transform == 0 || transform > 3 ==> p.x == 0 && p.y == 0 && s.x == 0 && s.y
                == primary_mode.logical_height
        }),
{
    reveal_strlit("eDP-1");
    reveal_strlit("eDP-2");
    assert("eDP-1"@[4] != "eDP-2"@[4]);
}

/// A quarter turn exchanges width and height, a half turn keeps them.
pub proof fn law_quarter_turns_exchange_width_and_height(mode: MonitorMode, transform: u32)
    ensures
        transform == 1 || transform == 3 ==> logical_extent(mode, transform).0
            == mode.logical_height && logical_extent(mode, transform).1 == mode.logical_width,
        transform != 1 && transform != 3 ==> logical_extent(mode, transform).0 == mode.logical_width
            && logical_extent(mode, transform).1 == mode.logical_height,
{
}

/// The transforms of the four orientations; all else counts as upright.
pub proof fn law_orientations(orientation: Seq<char>)
    ensures
        transform_of("normal"@) == 0,
        transform_of(orientation) == 1 <==> orientation == "left-up"@,
        transform_of(orientation) == 2 <==> orientation == "bottom-up"@,
        transform_of(orientation) == 3 <==> orientation == "right-up"@,
        transform_of(orientation) <= 3,
{
    reveal_strlit("normal");
    reveal_strlit("left-up");
    reveal_strlit("bottom-up");
    reveal_strlit("right-up");
    assert("left-up"@.len() == 7 && "bottom-up"@.len() == 9 && "right-up"@.len() == 8
        && "normal"@.len() == 6);
}

/// The first current mode stands for an output whatever else it has.
pub proof fn law_current_mode_is_chosen(modes: Seq<MonitorMode>, i: int)
    requires
        0 <= i < modes.len(),
        modes[i].is_current,
        forall|j: int| 0 <= j < i ==> !(#[trigger] modes[j]).is_current,
    ensures
        chosen_mode(modes) == Some(modes[i]),
{
    let p = |m: MonitorMode| m.is_current;
    assert forall|j: int| 0 <= j < i implies !p(#[trigger] modes[j]) by {}
    crate::seqs::lemma_first_where_found(modes, p, i);
}

/// Without a current mode the first preferred one stands for an output.
pub proof fn law_preferred_mode_is_chosen(modes: Seq<MonitorMode>, i: int)
    requires
        0 <= i < modes.len(),
        modes[i].is_preferred,
        forall|j: int| 0 <= j < i ==> !(#[trigger] modes[j]).is_preferred,
        forall|j: int| 0 <= j < modes.len() ==> !(#[trigger] modes[j]).is_current,
    ensures
        chosen_mode(modes) == Some(modes[i]),
{
    let current = |m: MonitorMode| m.is_current;
    let preferred = |m: MonitorMode| m.is_preferred;
    assert forall|j: int| 0 <= j < modes.len() implies !current(#[trigger] modes[j]) by {}
    assert forall|j: int| 0 <= j < i implies !preferred(#[trigger] modes[j]) by {}
    crate::seqs::lemma_first_where_absent(modes, current);
    crate::seqs::lemma_first_where_found(modes, preferred, i);
}

/// Without a current and a preferred mode the first one stands for an output; an output without
/// modes has none.
pub proof fn law_first_mode_is_the_last_resort(modes: Seq<MonitorMode>)
    requires
        forall|j: int|
            0 <= j < modes.len() ==> !(#[trigger] modes[j]).is_current && !modes[j].is_preferred,
    ensures
        modes.len() > 0 ==> chosen_mode(modes) == Some(modes[0]),
        modes.len() == 0 ==> chosen_mode(modes) is None,
{
    let current = |m: MonitorMode| m.is_current;
    let preferred = |m: MonitorMode| m.is_preferred;
    assert forall|j: int| 0 <= j < modes.len() implies !current(#[trigger] modes[j]) by {}
    assert forall|j: int| 0 <= j < modes.len() implies !preferred(#[trigger] modes[j]) by {}
    crate::seqs::lemma_first_where_absent(modes, current);
    crate::seqs::lemma_first_where_absent(modes, preferred);
}

proof fn lemma_mode_is_chosen_of_some(modes: Seq<MonitorMode>)
    ensures
        chosen_mode(modes) is Some <==> modes.len() > 0,
{
    crate::seqs::lemma_first_where_is_first(modes, |m: MonitorMode| m.is_current);
    crate::seqs::lemma_first_where_is_first(modes, |m: MonitorMode| m.is_preferred);
}

/// An output is used in the mode chosen of its last row with modes.
pub proof fn law_outputs_have_their_own_modes(physical: Seq<PhysicalMonitor>, i: int)
    requires
        0 <= i < physical.len(),
        physical[i].modes@.len() > 0,
        forall|j: int|
            i < j < physical.len() ==> (#[trigger] physical[j]).connector@
                != physical[i].connector@ || physical[j].modes@.len() == 0,
    ensures
        modes_by_connector(physical).contains_key(physical[i].connector@),
        chosen_mode(physical[i].modes@) == Some(
            modes_by_connector(physical)[physical[i].connector@],
        ),
    decreases physical.len(),
{
    lemma_mode_is_chosen_of_some(physical.last().modes@);
    if i < physical.len() - 1 {
        let before = physical.drop_last();
        assert(physical.last() == physical[physical.len() - 1]);
        assert forall|j: int| i < j < before.len() implies (#[trigger] before[j]).connector@
            != before[i].connector@ || before[j].modes@.len() == 0 by {
            assert(before[j] == physical[j]);
        }
        law_outputs_have_their_own_modes(before, i);
    }
}

/// Only an output that is listed with modes is used.
pub proof fn law_only_listed_outputs_have_modes(physical: Seq<PhysicalMonitor>, connector: Seq<char>)
    requires
        forall|i: int|
            0 <= i < physical.len() ==> (#[trigger] physical[i]).connector@ != connector
                || physical[i].modes@.len() == 0,
    ensures
        !modes_by_connector(physical).contains_key(connector),
    decreases physical.len(),
{
    if physical.len() > 0 {
        let before = physical.drop_last();
        lemma_mode_is_chosen_of_some(physical.last().modes@);
        assert(physical.last() == physical[physical.len() - 1]);
        assert forall|i: int| 0 <= i < before.len() implies (#[trigger] before[i]).connector@
            != connector || before[i].modes@.len() == 0 by {
            assert(before[i] == physical[i]);
        }
        law_only_listed_outputs_have_modes(before, connector);
    }
}

proof fn lemma_row_found(physical: Seq<PhysicalMonitor>, connector: Seq<char>, row: int)
    requires
        0 <= row < physical.len(),
        physical[row].connector@ == connector,
        forall|j: int| 0 <= j < row ==> (#[trigger] physical[j]).connector@ != connector,
    ensures
        row_of(physical, connector) == Some(physical[row]),
    decreases row,
{
    if row > 0 {
        let rest = physical.drop_first();
        assert(physical[0].connector@ != connector);
        assert forall|j: int| 0 <= j < row - 1 implies (#[trigger] rest[j]).connector@
            != connector by {
            assert(rest[j] == physical[j + 1]);
        }
        assert(rest[row - 1] == physical[row]);
        lemma_row_found(rest, connector, row - 1);
    }
}

/// A mode of the size asked for is found where the first row of the output has one; else its first
/// mode is.
pub proof fn law_mode_has_the_size_asked_for(
    physical: Seq<PhysicalMonitor>,
    row: int,
    width: i32,
    height: i32,
)
    requires
        0 <= row < physical.len(),
        forall|j: int|
            0 <= j < row ==> (#[trigger] physical[j]).connector@ != physical[row].connector@,
    ensures
        ({
            let found = mode_matching_size(physical, physical[row].connector@, width, height);
            let modes = physical[row].modes@;
            &&& modes.len() == 0 ==> found is None
            &&& modes.len() > 0 ==> found is Some && modes.contains(found->0)
            &&& (exists|k: int|
                0 <= k < modes.len() && (#[trigger] modes[k]).width == width && modes[k].height
                    == height) ==> found is Some && found->0.width == width && found->0.height == height
            &&& modes.len() > 0 && (forall|k: int|
                0 <= k < modes.len() ==> (#[trigger] modes[k]).width != width || modes[k].height
                    != height) ==> found == Some(modes[0])
        }),
{
    let connector = physical[row].connector@;
    lemma_row_found(physical, connector, row);
    let modes = physical[row].modes@;
    let sized = |m: MonitorMode| m.width == width && m.height == height;
    crate::seqs::lemma_first_where_is_first(modes, sized);
    if exists|k: int|
        0 <= k < modes.len() && (#[trigger] modes[k]).width == width && modes[k].height == height {
        let k = choose|k: int|
            0 <= k < modes.len() && (#[trigger] modes[k]).width == width && modes[k].height
                == height;
        assert(sized(modes[k]));
    }
    let found = mode_matching_size(physical, connector, width, height);
    assert(found == sized_mode(modes, width, height));
    if modes.len() > 0 {
        assert(modes.contains(modes[0]));
    }
    match crate::seqs::first_where(modes, sized) {
        Some(m) => {
            assert(found == Some(m));
            let k = choose|k: int| 0 <= k < modes.len() && #[trigger] modes[k] == m && sized(m);
            assert(modes.contains(m));
            assert(modes[k].width == width && modes[k].height == height);
        },
        None => {},
    }
}

/// The present layout of an output is that of the last logical monitor which it leads.
pub proof fn law_config_is_that_of_the_last_row(logical: Seq<LogicalMonitor>, i: int)
    requires
        0 <= i < logical.len(),
        logical[i].connectors@.len() > 0,
        forall|j: int|
            i < j < logical.len() && (#[trigger] logical[j]).connectors@.len() > 0
                ==> logical[j].connectors@[0]@ != logical[i].connectors@[0]@,
    ensures
        ({
            let c = logical[i].connectors@[0]@;
            &&& config_of(logical).contains_key(c)
            &&& config_of(logical)[c].x == logical[i].x
            &&& config_of(logical)[c].y == logical[i].y
            &&& config_of(logical)[c].scale_matches == logical[i].scale_matches
            &&& config_of(logical)[c].transform == logical[i].transform
            &&& config_of(logical)[c].primary == logical[i].primary
        }),
    decreases logical.len(),
{
    if i < logical.len() - 1 {
        let before = logical.drop_last();
        assert(logical.last() == logical[logical.len() - 1]);
        assert forall|j: int|
            i < j < before.len() && (#[trigger] before[j]).connectors@.len() > 0 implies before[j].connectors@[0]@
            != before[i].connectors@[0]@ by {
            assert(before[j] == logical[j]);
        }
        law_config_is_that_of_the_last_row(before, i);
    }
}

/// Only an output that leads a logical monitor is in the present layout, and their number is finite.
pub proof fn law_config_holds_only_leading_outputs(
    logical: Seq<LogicalMonitor>,
    connector: Seq<char>,
)
    requires
        forall|i: int|
            0 <= i < logical.len() && (#[trigger] logical[i]).connectors@.len() > 0
                ==> logical[i].connectors@[0]@ != connector,
    ensures
        !config_of(logical).contains_key(connector),
    decreases logical.len(),
{
    if logical.len() > 0 {
        let before = logical.drop_last();
        assert(logical.last() == logical[logical.len() - 1]);
        assert forall|i: int|
            0 <= i < before.len() && (#[trigger] before[i]).connectors@.len() > 0 implies before[i].connectors@[0]@
            != connector by {
            assert(before[i] == logical[i]);
        }
        law_config_holds_only_leading_outputs(before, connector);
    }
}

/// The scale of the first logical monitor led by eDP-1 is the reference; without one that of the
/// first primary one is.
pub proof fn law_reference_is_edp1(logical: Seq<LogicalMonitor>, i: int)
    requires
        0 <= i < logical.len(),
    ensures
        logical[i].connectors@.len() > 0 && logical[i].connectors@[0]@ == "eDP-1"@ && (forall|j: int|
            0 <= j < i && (#[trigger] logical[j]).connectors@.len() > 0
                ==> logical[j].connectors@[0]@ != "eDP-1"@) ==> reference_row(logical) == Some(
            logical[i],
        ),
        logical[i].primary && (forall|j: int| 0 <= j < i ==> !(#[trigger] logical[j]).primary)
            ==> primary_row(logical) == Some(logical[i]),
        (forall|j: int|
            0 <= j < logical.len() && (#[trigger] logical[j]).connectors@.len() > 0
                ==> logical[j].connectors@[0]@ != "eDP-1"@) ==> reference_row(logical)
            == primary_row(logical),
        (forall|j: int| 0 <= j < logical.len() ==> !(#[trigger] logical[j]).primary)
            ==> primary_row(logical) is None,
{
    let led = |lm: LogicalMonitor| lead(lm) == Some("eDP-1"@);
    let primary = |lm: LogicalMonitor| lm.primary;
    if led(logical[i]) && (forall|j: int|
        0 <= j < i && (#[trigger] logical[j]).connectors@.len() > 0
            ==> logical[j].connectors@[0]@ != "eDP-1"@) {
        assert forall|j: int| 0 <= j < i implies !led(#[trigger] logical[j]) by {}
        crate::seqs::lemma_first_where_found(logical, led, i);
    }
    if logical[i].primary && (forall|j: int| 0 <= j < i ==> !(#[trigger] logical[j]).primary) {
        assert forall|j: int| 0 <= j < i implies !primary(#[trigger] logical[j]) by {}
        crate::seqs::lemma_first_where_found(logical, primary, i);
    }
    if forall|j: int|
        0 <= j < logical.len() && (#[trigger] logical[j]).connectors@.len() > 0
            ==> logical[j].connectors@[0]@ != "eDP-1"@ {
        assert forall|j: int| 0 <= j < logical.len() implies !led(#[trigger] logical[j]) by {}
        crate::seqs::lemma_first_where_absent(logical, led);
    }
    if forall|j: int| 0 <= j < logical.len() ==> !(#[trigger] logical[j]).primary {
        assert forall|j: int| 0 <= j < logical.len() implies !primary(#[trigger] logical[j]) by {}
        crate::seqs::lemma_first_where_absent(logical, primary);
    }
}

/// A shift moves what is off the origin, on the axis on which the panels touch, by the given number
/// of pixels, and leaves all else as it was.
pub proof fn law_shift_moves_one_axis(
    layout: Seq<ApplyLmView>,
    transform: u32,
    delta: int,
    i: int,
)
    requires
        0 <= i < layout.len(),
    ensures
        ({
            let before = layout[i];
            let after = shifted_layout(layout, transform, delta)[i];
            let turned = transform == 1 || transform == 3;
            &&& shifted_layout(layout, transform, delta).len() == layout.len()
            &&& turned && before.x != 0 ==> after.x == before.x + delta
            &&& !turned || before.x == 0 ==> after.x == before.x
            &&& !turned && before.y != 0 ==> after.y == before.y + delta
            &&& turned || before.y == 0 ==> after.y == before.y
            &&& after.transform == before.transform
            &&& after.primary == before.primary
            &&& after.connector == before.connector
            &&& after.mode_id == before.mode_id
        }),
{
}

/// A layout that matches has every monitor at its place, turned, scaled, in its role and in its mode
/// as asked, and no other output.
pub proof fn law_match_is_equality(
    requested: Seq<ApplyLmView>,
    config: Map<Seq<char>, ConfigRow>,
    modes: Map<Seq<char>, MonitorMode>,
)
    ensures
        layout_matches(requested, config, modes) <==> requested.len() == config.len() && forall|
            i: int,
        |
            0 <= i < requested.len() ==> config.contains_key((#[trigger] requested[i]).connector)
                && modes.contains_key(requested[i].connector)
                && config[requested[i].connector].x == requested[i].x
                && config[requested[i].connector].y == requested[i].y
                && config[requested[i].connector].transform == requested[i].transform
                && config[requested[i].connector].primary == requested[i].primary
                && config[requested[i].connector].scale_matches
                && modes[requested[i].connector].id@ == requested[i].mode_id,
{
    if requested.len() == config.len() && forall|i: int|
        0 <= i < requested.len() ==> config.contains_key((#[trigger] requested[i]).connector)
            && modes.contains_key(requested[i].connector) && config[requested[i].connector].x
            == requested[i].x && config[requested[i].connector].y == requested[i].y
            && config[requested[i].connector].transform == requested[i].transform
            && config[requested[i].connector].primary == requested[i].primary
            && config[requested[i].connector].scale_matches
            && modes[requested[i].connector].id@ == requested[i].mode_id {
        assert(layout_matches(requested, config, modes));
    }
}

/// A layout is corrupted exactly where the outputs of its logical monitors, listed one after the
/// other, hold one of them twice.
pub proof fn law_corruption_is_a_repeated_output(logical: Seq<LogicalMonitor>)
    ensures
        ({
            let listed = crate::session::display_mode::bound_connectors(logical);
            corrupted(logical) <==> exists|i: int, j: int|
                0 <= i < j < listed.len() && #[trigger] listed[i] == #[trigger] listed[j]
        }),
{
    let listed = crate::session::display_mode::bound_connectors(logical);
    if corrupted(logical) {
        let (i, j) = choose|i: int, j: int|
            0 <= i < listed.len() && 0 <= j < listed.len() && i != j && listed[i] == listed[j];
        if i < j {
            assert(listed[i] == listed[j]);
        } else {
            assert(listed[j] == listed[i]);
        }
    }
}

/// The compositor is given three tenths of a second between two applies.
pub proof fn law_phase_delay()
    ensures
        EDPTWO_PRIMARY_PHASE1_STABILITY_MS == 300,
{
}

/// A requested layout is seen monitor by monitor, each as it is.
pub proof fn law_layouts_are_seen_as_they_are(
    lms: Seq<ApplyLm>,
    i: int,
    connector: &str,
    mode: MonitorMode,
)
    requires
        0 <= i < lms.len(),
    ensures
        layout_view(lms).len() == lms.len(),
        layout_view(lms)[i].x == lms[i].x,
        layout_view(lms)[i].y == lms[i].y,
        layout_view(lms)[i].transform == lms[i].transform,
        layout_view(lms)[i].primary == lms[i].primary,
        layout_view(lms)[i].connector == lms[i].connector@,
        layout_view(lms)[i].mode_id == lms[i].mode_id@,
        secondary_view(Some((connector, &mode))) == Some((connector@, mode)),
        secondary_view(None) is None,
{
}

} // verus!
