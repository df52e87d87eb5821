use zenbook_duo_daemon::session::ambient::{
    parse_bool, parse_monitor_line, setting_text, AmbientSync,
};
use zenbook_duo_daemon::session::orientation::OrientationFilter;
use zenbook_duo_daemon::session::osk::osk_setting;
use zenbook_duo_daemon::session::tablet_mapping::{
    gvariant_output, output_target_for_connector, reapply_after_reconcile, tablet_schema_path,
};
use zenbook_duo_daemon::config::{TabletMapMode, TabletMappingConfig};
use zenbook_duo_daemon::session::display::PhysicalMonitor;
use zenbook_duo_daemon::text::{
    bool_string, contains, decimal_signed_text, decimal_text, is_whitespace, parse_number,
    split_whitespace, starts_with, strip_char, strip_prefix, trim, trim_end,
};

#[test]
fn gvariant_escapes_single_quote_in_edid_field() {
    assert_eq!(
        gvariant_output("x", "y", "a'b", "eDP-2"),
        r"['x','y','a\'b','eDP-2']"
    );
}

#[test]
fn gvariant_escapes_backslashes_first() {
    assert_eq!(gvariant_output("\\", "\\'", "", "z"), r"['\\','\\\'','','z']");
    assert_ne!(gvariant_output("a','b", "", "", ""), gvariant_output("a", "b", "", ""));
    assert_ne!(gvariant_output("a\\", "b", "", ""), gvariant_output("a", "\\b", "", ""));
}

#[test]
fn whitespace_is_that_of_std() {
    for n in 0..=0x10ffffu32 {
        if let Some(c) = char::from_u32(n) {
            assert_eq!(is_whitespace(c), c.is_whitespace(), "{n:x}");
        }
    }
}

#[test]
fn numbers_are_written_as_std_does() {
    for n in [0u64, 7, 10, 99, 100, 12345, u64::MAX] {
        assert_eq!(decimal_text(n), n.to_string());
    }
    for n in [0i64, -1, 42, -12345, i64::MAX, i64::MIN + 1] {
        assert_eq!(decimal_signed_text(n), n.to_string());
    }
    assert_eq!(bool_string(true), "true");
    assert_eq!(bool_string(false), "false");
}

#[test]
fn numbers_are_read_as_std_does() {
    for text in ["0", "7", "+12", "18446744073709551615", "18446744073709551616", "", "+", "-1", "1 ", "1a"] {
        assert_eq!(parse_number(text, 10, u64::MAX), text.parse::<u64>().ok(), "{text}");
    }
    for text in ["0b05", "FFFF", "10000", "g", "+a"] {
        assert_eq!(
            parse_number(text, 16, u16::MAX as u64),
            u16::from_str_radix(text, 16).ok().map(u64::from),
            "{text}"
        );
    }
}

#[test]
fn texts_are_cut_as_std_does() {
    for text in ["", " ", "a", " a b ", "\t\u{a0}x y\n", "no-space", "\u{2003}z"] {
        assert_eq!(trim(text), text.trim());
        assert_eq!(trim_end(text), text.trim_end());
        let words: Vec<String> = text.split_whitespace().map(String::from).collect();
        assert_eq!(split_whitespace(text), words);
    }
    assert_eq!(strip_char("''a'b''", '\''), "a'b");
    assert!(starts_with("event12", "event"));
    assert!(!starts_with("ev", "event"));
    assert!(contains("abcde", "cd"));
    assert!(contains("abc", ""));
    assert!(!contains("abc", "ac"));
    assert_eq!(strip_prefix("session_ready:5", "session_ready:").as_deref(), Some("5"));
    assert_eq!(strip_prefix("x", "session_ready:"), None);
}

#[test]
fn settings_are_read_with_and_without_quotes() {
    assert_eq!(parse_bool(" 'true'\n"), Some(true));
    assert_eq!(parse_bool("false"), Some(false));
    assert_eq!(parse_bool("yes"), None);
    assert_eq!(parse_monitor_line("ambient-enabled: true"), Some(true));
    assert_eq!(parse_monitor_line("  "), None);
    assert_eq!(setting_text(true), "true");
    assert_eq!(parse_bool(setting_text(false)), Some(false));
    assert_eq!(osk_setting(true), "false");
    assert_eq!(osk_setting(false), "true");
}

#[test]
fn setting_is_written_only_when_it_differs() {
    let mut sync = AmbientSync::new(None);
    assert!(sync.must_set(false));
    assert_eq!(sync.on_line("ambient-enabled: false"), Some(false));
    assert!(!sync.must_set(false));
    assert!(sync.must_set(true));
    sync.on_set(true, false);
    assert!(sync.must_set(true));
    sync.on_set(true, true);
    assert!(!sync.must_set(true));
}

#[test]
fn orientation_is_not_repeated() {
    let (mut filter, first) = OrientationFilter::start("normal".to_string());
    assert_eq!(first, None);
    assert_eq!(filter.on_change("normal".to_string()), None);
    assert_eq!(filter.on_change("left-up".to_string()).as_deref(), Some("left-up"));
    assert_eq!(filter.on_change("left-up".to_string()), None);
    let (_, first) = OrientationFilter::start("bottom-up".to_string());
    assert_eq!(first.as_deref(), Some("bottom-up"));
}

fn panel(connector: &str, product: &str) -> PhysicalMonitor {
    PhysicalMonitor {
        connector: connector.to_string(),
        vendor: "SDC".to_string(),
        product: product.to_string(),
        serial: "0x1".to_string(),
        modes: vec![],
    }
}

#[test]
fn pens_follow_their_panels() {
    let physical = vec![panel("eDP-1", "top"), panel("eDP-2", "bottom")];
    let one = TabletMappingConfig { enable: true, mode: TabletMapMode::OneToOne };
    let all = TabletMappingConfig { enable: true, mode: TabletMapMode::AllToPrimary };
    let off = TabletMappingConfig { enable: false, mode: TabletMapMode::OneToOne };
    let writes = reapply_after_reconcile(&one, "eDP-1", &physical);
    assert_eq!(writes.len(), 2);
    assert_eq!(writes[0].usb_id, "04f3:4447");
    assert_eq!(writes[0].output, "['SDC','top','0x1','eDP-1']");
    assert_eq!(writes[1].usb_id, "04f3:4448");
    assert_eq!(writes[1].output, "['SDC','bottom','0x1','eDP-2']");
    let writes = reapply_after_reconcile(&all, "eDP-2", &physical);
    assert_eq!(writes[0].output, "['SDC','bottom','0x1','eDP-2']");
    assert_eq!(writes[1].output, writes[0].output);
    let upper_only = vec![panel("eDP-1", "top")];
    assert!(reapply_after_reconcile(&one, "eDP-1", &upper_only).is_empty());
    let writes = reapply_after_reconcile(&all, "eDP-2", &upper_only);
    assert_eq!(writes[0].output, "['SDC','top','0x1','eDP-1']");
    assert!(reapply_after_reconcile(&off, "eDP-1", &physical).is_empty());
    assert!(reapply_after_reconcile(&all, "eDP-1", &vec![]).is_empty());
    let target = output_target_for_connector(&physical, "eDP-2").unwrap();
    assert_eq!(target.product, "bottom");
    assert!(output_target_for_connector(&physical, "DP-1").is_none());
    assert_eq!(
        tablet_schema_path("04f3:4447"),
        "org.gnome.desktop.peripherals.tablet:/org/gnome/desktop/peripherals/tablets/04f3:4447/"
    );
}
