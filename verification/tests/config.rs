use mangohudlib::color::{parse_color, Rgb};
use mangohudlib::enums::{FcatOverlayEdge, FpsLimitMethod, HudPosition, HudPreset, VSync};
use mangohudlib::model::MangoHudConfig;
use mangohudlib::text::{parse_dec, parse_sint, split_text, str_eq, str_ieq, trim_str, SepMode};
use mangohudlib::value::{
    decode_flag, parse_elapsed, parse_list, parse_milli, parse_u8_pair, parse_word_list,
    Milli, NANOS_PER_MILLI, NANOS_PER_SEC,
};

#[test]
fn defaults_are_declared_values() {
    let m = MangoHudConfig::new();
    assert_eq!(m.legacy_layout, true);
    assert_eq!(m.gpu_stats, true);
    assert_eq!(m.fps, true);
    assert_eq!(m.fps_limit, vec![0u16]);
    assert_eq!(m.fps_value, (30, 60));
    assert_eq!(m.gpu_load_value, (60, 90));
    assert_eq!(m.time_format, "%T");
    assert_eq!(m.fps_sampling_period.nanos, 500_000_000);
    assert_eq!(m.height.thousandths, 140_000);
    assert_eq!(m.cellpadding_y.thousandths, -85);
    assert_eq!(m.table_columns, 3);
    assert_eq!(m.fcat_overlay_width, 24);
    assert_eq!(m.gpu_color, Rgb { r: 0x2e, g: 0x97, b: 0x62 });
    assert_eq!(m.benchmark_percentiles, "97+AVG");
    assert!(m.vsync.is_none());
    assert!(m.blacklist.is_empty());
}

#[test]
fn enum_round_trips() {
    for v in [VSync::Adaptive, VSync::Off, VSync::Mailbox, VSync::On] {
        assert_eq!(VSync::from_text(v.name()), Some(v));
        assert_eq!(VSync::from_text(&v.ordinal().to_string()), Some(v));
    }
    for v in [
        HudPreset::Unset,
        HudPreset::Off,
        HudPreset::FpsOnly,
        HudPreset::Horizontal,
        HudPreset::Extended,
        HudPreset::Detailed,
    ] {
        assert_eq!(HudPreset::from_text(v.name()), Some(v));
        assert_eq!(HudPreset::from_text(&v.ordinal().to_string()), Some(v));
    }
    for v in [FpsLimitMethod::Early, FpsLimitMethod::Late] {
        assert_eq!(FpsLimitMethod::from_text(v.name()), Some(v));
    }
    assert_eq!(FpsLimitMethod::from_text("LATE"), Some(FpsLimitMethod::Late));
    assert_eq!(FpsLimitMethod::from_text("0"), None);
    assert_eq!(FpsLimitMethod::from_text("1"), None);
    for v in [
        FcatOverlayEdge::Left,
        FcatOverlayEdge::Bottom,
        FcatOverlayEdge::Right,
        FcatOverlayEdge::Top,
    ] {
        assert_eq!(FcatOverlayEdge::from_text(v.name()), Some(v));
        assert_eq!(FcatOverlayEdge::from_text(&v.ordinal().to_string()), Some(v));
    }
    for v in [
        HudPosition::TopLeft,
        HudPosition::TopCenter,
        HudPosition::TopRight,
        HudPosition::MiddleLeft,
        HudPosition::MiddleRight,
        HudPosition::BottomLeft,
        HudPosition::BottomRight,
    ] {
        assert_eq!(HudPosition::from_text(v.name()), Some(v));
    }
    assert_eq!(HudPreset::from_text("-1"), Some(HudPreset::Unset));
    assert_eq!(VSync::from_text("MAILBOX"), Some(VSync::Mailbox));
    assert_eq!(HudPosition::from_text("Top-Left"), Some(HudPosition::TopLeft));
    assert_eq!(VSync::from_text("7"), None);
    assert_eq!(VSync::from_text("nonsense"), None);
}

#[test]
fn flags_decode_bare_and_zero() {
    assert_eq!(decode_flag(None), true);
    assert_eq!(decode_flag(Some(&String::from("0"))), false);
    assert_eq!(decode_flag(Some(&String::from("1"))), true);
    assert_eq!(decode_flag(Some(&String::from("yes"))), true);
}

#[test]
fn pair_arity_is_exact() {
    assert_eq!(parse_u8_pair("30"), None);
    assert_eq!(parse_u8_pair("30,60"), Some((30, 60)));
    assert_eq!(parse_u8_pair("30,60,90"), None);
    assert_eq!(parse_u8_pair("30,"), None);
}

#[test]
fn chord_splits_in_order() {
    let chord = parse_word_list("Shift_L+F12");
    assert_eq!(chord, vec!["Shift_L".to_string(), "F12".to_string()]);
}

#[test]
fn u16_lists_reject_whole_field() {
    assert_eq!(parse_list("30,60"), Some(vec![30, 60]));
    assert_eq!(parse_list("0"), Some(vec![0]));
    assert_eq!(parse_list("30,x"), None);
    assert_eq!(parse_list("70000"), None);
}

#[test]
fn durations_scale_by_field_unit() {
    assert_eq!(parse_elapsed("500", NANOS_PER_MILLI).unwrap().nanos, 500_000_000);
    assert_eq!(parse_elapsed("2", NANOS_PER_SEC).unwrap().nanos, 2_000_000_000);
    assert_eq!(parse_elapsed("abc", NANOS_PER_SEC), None);
}

#[test]
fn fixed_point_parses_thousandths() {
    assert_eq!(parse_milli("1.5"), Some(Milli { thousandths: 1500 }));
    assert_eq!(parse_milli("-0.085"), Some(Milli { thousandths: -85 }));
    assert_eq!(parse_milli("24"), Some(Milli { thousandths: 24000 }));
    assert_eq!(parse_milli("1."), None);
    assert_eq!(parse_milli("1.0005"), None);
}

#[test]
fn colors_parse_hex() {
    assert_eq!(parse_color("2e9762"), Some(Rgb { r: 0x2e, g: 0x97, b: 0x62 }));
    assert_eq!(parse_color("2E9762"), Some(Rgb { r: 0x2e, g: 0x97, b: 0x62 }));
    assert_eq!(parse_color("12345"), None);
    assert_eq!(parse_color("zzzzzz"), None);
}

#[test]
fn text_primitives() {
    assert!(str_eq("fps_limit", "fps_limit"));
    assert!(!str_eq("fps", "fps_limit"));
    assert!(str_ieq("MailBox", "mailbox"));
    assert_eq!(trim_str("  x \t"), "x");
    assert_eq!(parse_dec("123", 1000), Some(123));
    assert_eq!(parse_dec("1234", 1000), None);
    assert_eq!(parse_sint("-16", -16, 16), Some(-16));
    assert_eq!(parse_sint("-17", -16, 16), None);
    assert_eq!(
        split_text(SepMode::ListSep, "a,b+c"),
        vec!["a".to_string(), "b".to_string(), "c".to_string()]
    );
}

#[test]
fn update_if_some_keeps_or_replaces() {
    let mut x: u32 = 5;
    mangohudlib::update_if_some(&mut x, None);
    assert_eq!(x, 5);
    mangohudlib::update_if_some(&mut x, Some(9));
    assert_eq!(x, 9);
}

