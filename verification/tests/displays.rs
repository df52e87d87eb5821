use zenbook_duo_daemon::session::display::{
    adjust_offset_pixel, build_duo_lms, current_desired_transform, edp_logical_extent_x,
    extract_all_modes, find_mode_matching_size, is_non_adjacent_error, logical_size,
    mentions_adjacency, orientation_to_transform, read_current_config, read_edp1_scale,
    requested_layout_matches_full, LogicalMonitor, MonitorMode, PhysicalMonitor,
};
use zenbook_duo_daemon::session::display_mode::{
    classify_attachment, classify_layout, connectors_bound_in_logical, external_connectors_ordered,
    secondary_poweroff_ready,
    is_internal_connector, read_current_logical_rows,
};

fn mode(id: &str, width: i32, height: i32, scale: f64) -> MonitorMode {
    MonitorMode {
        id: id.to_string(),
        width,
        height,
        logical_width: (width as f64 / scale).floor() as i32,
        logical_height: (height as f64 / scale).floor() as i32,
        is_current: true,
        is_preferred: true,
    }
}

fn phys(name: &str, modes: Vec<MonitorMode>) -> PhysicalMonitor {
    PhysicalMonitor {
        connector: name.to_string(),
        vendor: String::new(),
        product: String::new(),
        serial: String::new(),
        modes,
    }
}

fn logical(x: i32, y: i32, primary: bool, connectors: &[&str]) -> LogicalMonitor {
    LogicalMonitor {
        x,
        y,
        scale_matches: true,
        transform: 0,
        primary,
        connectors: connectors.iter().map(|c| c.to_string()).collect(),
    }
}

#[test]
fn orders_externals_skips_internals_and_missing_modes() {
    let physical = vec![
        phys("eDP-1", vec![mode("m0", 2880, 1800, 1.0)]),
        phys("HDMI-A-1", vec![mode("m1", 1920, 1080, 1.0)]),
        phys("eDP-2", vec![mode("m2", 2880, 1800, 1.0)]),
        phys("DP-1", vec![mode("m3", 2560, 1440, 1.0)]),
        phys("Unknown-1", vec![]),
    ];
    let modes = extract_all_modes(&physical);

    let v = external_connectors_ordered(&physical, &modes);
    assert_eq!(v, vec!["HDMI-A-1", "DP-1"]);
}

#[test]
fn dedupes_duplicate_physical_rows() {
    let physical = vec![
        phys("DP-1", vec![mode("m", 1920, 1080, 1.0)]),
        phys("DP-1", vec![]),
    ];
    let modes = extract_all_modes(&physical);

    let v = external_connectors_ordered(&physical, &modes);
    assert_eq!(v, vec!["DP-1"]);
}

#[test]
fn edp_logical_extent_x_matches_logical_size_width_for_rotations() {
    let pw = 2880i32;
    let ph = 1800i32;
    let scale = 5.0 / 3.0;
    let m = mode("m", pw, ph, scale);
    for transform in [0u32, 1, 2, 3] {
        let (lw, _) = logical_size(&m, transform);
        assert_eq!(edp_logical_extent_x(&m, transform), lw, "transform {transform}");
    }
}

#[test]
fn sideways_panels_exchange_width_and_height() {
    let m = mode("m", 2880, 1800, 2.0);
    assert_eq!(logical_size(&m, 0), (1440, 900));
    assert_eq!(logical_size(&m, 1), (900, 1440));
    assert_eq!(logical_size(&m, 2), (1440, 900));
    assert_eq!(logical_size(&m, 3), (900, 1440));
    assert_eq!(edp_logical_extent_x(&m, 3), 900);
}

#[test]
fn lower_panel_stays_below_whichever_is_primary() {
    let top = mode("a", 2880, 1800, 2.0);
    let bottom = mode("b", 2880, 1800, 2.0);
    let upright = build_duo_lms("eDP-1", &top, Some(("eDP-2", &bottom)), 0);
    assert_eq!(upright.len(), 2);
    assert_eq!(upright[0].connector, "eDP-2");
    assert_eq!((upright[0].x, upright[0].y), (0, 900));
    assert!(!upright[0].primary);
    assert_eq!(upright[1].connector, "eDP-1");
    assert_eq!((upright[1].x, upright[1].y), (0, 0));
    assert!(upright[1].primary);

    let swapped = build_duo_lms("eDP-2", &bottom, Some(("eDP-1", &top)), 0);
    assert_eq!(swapped[0].connector, "eDP-1");
    assert_eq!((swapped[0].x, swapped[0].y), (0, 0));
    assert_eq!(swapped[1].connector, "eDP-2");
    assert_eq!((swapped[1].x, swapped[1].y), (0, 900));
    assert!(swapped[1].primary);
    assert_eq!(swapped[1].mode_id, "b");
}

#[test]
fn pair_turns_with_the_machine() {
    let top = mode("a", 2880, 1800, 2.0);
    let bottom = mode("b", 2880, 1800, 2.0);
    let left = build_duo_lms("eDP-1", &top, Some(("eDP-2", &bottom)), 1);
    assert_eq!((left[0].x, left[0].y), (0, 0));
    assert_eq!((left[1].x, left[1].y), (900, 0));
    let down = build_duo_lms("eDP-1", &top, Some(("eDP-2", &bottom)), 2);
    assert_eq!((down[0].x, down[0].y), (0, 0));
    assert_eq!((down[1].x, down[1].y), (0, 900));
    let right = build_duo_lms("eDP-1", &top, Some(("eDP-2", &bottom)), 3);
    assert_eq!((right[0].x, right[0].y), (900, 0));
    assert_eq!((right[1].x, right[1].y), (0, 0));
    let alone = build_duo_lms("eDP-1", &top, None, 2);
    assert_eq!(alone.len(), 1);
    assert!(alone[0].primary);
    assert_eq!(alone[0].transform, 2);
}

#[test]
fn mode_of_the_given_size_or_the_first_is_found() {
    let physical = vec![phys(
        "eDP-2",
        vec![mode("big", 2880, 1800, 1.0), mode("small", 1920, 1200, 1.0)],
    )];
    let found = find_mode_matching_size(&physical, "eDP-2", 1920, 1200);
    assert_eq!(found.map(|m| m.id), Some("small".to_string()));
    let first = find_mode_matching_size(&physical, "eDP-2", 800, 600);
    assert_eq!(first.map(|m| m.id), Some("big".to_string()));
    assert!(find_mode_matching_size(&physical, "eDP-1", 1920, 1200).is_none());
}

#[test]
fn orientation_names_are_transforms() {
    assert_eq!(orientation_to_transform("normal"), 0);
    assert_eq!(orientation_to_transform("left-up"), 1);
    assert_eq!(orientation_to_transform("bottom-up"), 2);
    assert_eq!(orientation_to_transform("right-up"), 3);
    assert_eq!(orientation_to_transform("sideways"), 0);
    let rows = vec![logical(0, 0, true, &["eDP-1"])];
    assert_eq!(current_desired_transform(Some("bottom-up"), &rows), 2);
    assert_eq!(current_desired_transform(None, &rows), 0);
}

#[test]
fn adjacency_errors_are_recognised_in_any_case() {
    assert!(mentions_adjacency("logical monitors not adjacent"));
    assert!(is_non_adjacent_error("Logical monitors not ADJACENT"));
    assert!(!is_non_adjacent_error("Invalid mode"));
}

#[test]
fn offset_moves_the_lower_panel_only() {
    let top = mode("a", 2880, 1800, 2.0);
    let bottom = mode("b", 2880, 1800, 2.0);
    let lms = build_duo_lms("eDP-1", &top, Some(("eDP-2", &bottom)), 0);
    let moved = adjust_offset_pixel(&lms, 0, 1);
    let upper = moved.iter().find(|l| l.connector == "eDP-1").unwrap();
    let lower = moved.iter().find(|l| l.connector == "eDP-2").unwrap();
    assert_eq!((upper.x, upper.y), (0, 0));
    assert_eq!((lower.x, lower.y), (0, 901));
}

#[test]
fn present_layout_is_compared_with_the_requested_one() {
    let physical = vec![
        phys("eDP-1", vec![mode("a", 2880, 1800, 2.0)]),
        phys("eDP-2", vec![mode("b", 2880, 1800, 2.0)]),
    ];
    let modes = extract_all_modes(&physical);
    let rows = vec![
        logical(0, 0, true, &["eDP-1"]),
        logical(0, 900, false, &["eDP-2"]),
    ];
    let (config, corrupted) = read_current_config(&rows);
    assert!(!corrupted);
    let wanted = build_duo_lms(
        "eDP-1",
        &physical[0].modes[0],
        Some(("eDP-2", &physical[1].modes[0])),
        0,
    );
    assert!(requested_layout_matches_full(&wanted, &config, &modes));
    let other = build_duo_lms(
        "eDP-2",
        &physical[1].modes[0],
        Some(("eDP-1", &physical[0].modes[0])),
        0,
    );
    assert!(!requested_layout_matches_full(&other, &config, &modes));
}

#[test]
fn duplicates_make_a_layout_corrupted() {
    let twice = vec![
        logical(0, 0, true, &["eDP-1"]),
        logical(0, 900, false, &["eDP-1"]),
    ];
    assert!(read_current_config(&twice).1);
    let once = vec![
        logical(0, 0, true, &["eDP-1"]),
        logical(0, 900, false, &["eDP-2"]),
    ];
    assert!(!read_current_config(&once).1);
    let second_then_first = vec![
        logical(0, 0, true, &["HDMI-A-1", "eDP-2"]),
        logical(0, 900, false, &["eDP-2"]),
    ];
    let (config, corrupted) = read_current_config(&second_then_first);
    assert!(corrupted);
    assert!(config.contains_key("HDMI-A-1") && config.contains_key("eDP-2"));
    assert!(read_current_config(&vec![logical(0, 0, true, &["eDP-1", "eDP-1"])]).1);
    assert!(!read_current_config(&vec![logical(0, 0, true, &["eDP-1", "eDP-2"])]).1);
    assert_eq!(read_edp1_scale(&twice), Some(0));
    assert_eq!(read_edp1_scale(&vec![]), None);
}

#[test]
fn attachment_and_layout_are_classified() {
    let builtin = vec![
        logical(0, 0, true, &["eDP-1"]),
        logical(0, 900, false, &["eDP-2"]),
    ];
    assert_eq!(classify_attachment(&builtin), "builtin_only");
    assert_eq!(classify_layout(&builtin), "joined");
    let external = vec![logical(0, 0, true, &["HDMI-A-1"])];
    assert_eq!(classify_attachment(&external), "external_only");
    let both = vec![
        logical(0, 0, true, &["eDP-1"]),
        logical(1440, 0, false, &["HDMI-A-1"]),
    ];
    assert_eq!(classify_attachment(&both), "all_connected");
    assert_eq!(classify_layout(&both), "joined");
    let mirror = vec![logical(0, 0, true, &["eDP-1", "eDP-2"])];
    assert_eq!(classify_layout(&mirror), "mirror");
    let shared = vec![logical(0, 0, true, &["eDP-1", "HDMI-A-1"])];
    assert_eq!(classify_layout(&shared), "joined");
    assert_eq!(
        connectors_bound_in_logical(&both),
        vec!["eDP-1", "HDMI-A-1"]
    );
    assert!(is_internal_connector("eDP-2"));
    assert!(!is_internal_connector("DP-1"));
    assert!(!read_current_logical_rows(&both).1);
}

#[test]
fn lower_panel_keeps_its_power_while_it_shows() {
    assert!(secondary_poweroff_ready(&vec![logical(0, 0, true, &["eDP-1"])]));
    assert!(!secondary_poweroff_ready(&vec![logical(0, 0, true, &["eDP-1", "eDP-2"])]));
    assert!(!secondary_poweroff_ready(&vec![
        logical(0, 0, true, &["eDP-1"]),
        logical(0, 1080, false, &["eDP-2"]),
    ]));
}
