use opendeck_k1pro::commands::TransportCommand;
use opendeck_k1pro::protocol::{color_report, commit_report};
use opendeck_k1pro::backlight::{
    snap_color, color_preset, dial_target, find_closest_color_preset, hex_to_rgb, is_backlight_action,
    press_action, rgb_to_hex, BacklightCommand, BacklightSettings, BacklightState, DialTarget,
    PressAction, PRESET_COUNT,
};

fn settings(mode: &str, press: &str) -> BacklightSettings {
    BacklightSettings {
        mode: mode.to_string(),
        brightness_value: 2,
        color_value: "#ff0000".to_string(),
        effect_value: 5,
        speed_value: 6,
        press_action: press.to_string(),
    }
}

#[test]
fn settings_defaults() {
    let s = BacklightSettings::default();
    assert_eq!(s.mode, "brightness");
    assert_eq!(s.brightness_value, 4);
    assert_eq!(s.color_value, "#0096ff");
    assert_eq!(s.effect_value, 0);
    assert_eq!(s.speed_value, 3);
    assert_eq!(s.press_action, "toggle");
}

#[test]
fn hex_colors_parse() {
    assert_eq!(hex_to_rgb("#0096ff"), Some((0, 150, 255)));
    assert_eq!(hex_to_rgb("0096FF"), Some((0, 150, 255)));
    assert_eq!(hex_to_rgb("###a0B1c2"), Some((0xa0, 0xb1, 0xc2)));
    assert_eq!(hex_to_rgb("#+f+f+f"), Some((15, 15, 15)));
    assert_eq!(hex_to_rgb("#-10000"), None);
    assert_eq!(hex_to_rgb("#12345"), None);
    assert_eq!(hex_to_rgb("#1234567"), None);
    assert_eq!(hex_to_rgb("#gg0000"), None);
    assert_eq!(hex_to_rgb(""), None);
    assert_eq!(hex_to_rgb("ééé"), None);
}

#[test]
fn hex_colors_are_written_lowercase() {
    assert_eq!(rgb_to_hex((0, 150, 255)), "#0096ff");
    assert_eq!(rgb_to_hex((255, 127, 0)), "#ff7f00");
    assert_eq!(rgb_to_hex((0, 0, 0)), "#000000");
    for c in [(1u8, 2u8, 3u8), (171, 205, 239), (255, 255, 255)] {
        assert_eq!(hex_to_rgb(&rgb_to_hex(c)), Some(c));
    }
}

#[test]
fn closest_preset_is_found() {
    for i in 0..PRESET_COUNT {
        assert_eq!(find_closest_color_preset(color_preset(i)), i);
    }
    assert_eq!(find_closest_color_preset((0, 150, 255)), 4);
    assert_eq!(find_closest_color_preset((250, 10, 10)), 0);
    assert_eq!(find_closest_color_preset((0, 0, 0)), 0);
    assert_eq!(find_closest_color_preset((200, 200, 210)), 8);
}

#[test]
fn names_select_targets_and_actions() {
    assert_eq!(dial_target("brightness"), DialTarget::Brightness);
    assert_eq!(dial_target("color"), DialTarget::Color);
    assert_eq!(dial_target("effect"), DialTarget::Effect);
    assert_eq!(dial_target("speed"), DialTarget::Speed);
    assert_eq!(dial_target("Speed"), DialTarget::Other);
    assert_eq!(press_action("toggle"), PressAction::Toggle);
    assert_eq!(press_action("set"), PressAction::Apply);
    assert_eq!(press_action("cycle"), PressAction::Cycle);
    assert_eq!(press_action(""), PressAction::Other);
    assert!(is_backlight_action("st.lynx.plugins.opendeck-k1pro.backlight"));
    assert!(!is_backlight_action("st.lynx.plugins.opendeck-k1pro"));
}

#[test]
fn press_toggles_applies_or_cycles() {
    let mut s = BacklightState::initial();
    assert_eq!(s.press(&settings("brightness", "toggle")), BacklightCommand::Toggle);
    assert_eq!(s, BacklightState::initial());
    assert_eq!(s.press(&settings("brightness", "cycle")), BacklightCommand::SetBrightness(5));
    s.brightness = 6;
    assert_eq!(s.press(&settings("brightness", "cycle")), BacklightCommand::SetBrightness(0));
    assert_eq!(s.press(&settings("color", "cycle")), BacklightCommand::SetColor(0, 0, 255));
    s.color = (255, 255, 255);
    assert_eq!(s.press(&settings("color", "cycle")), BacklightCommand::SetColor(255, 0, 0));
    s.effect = 9;
    assert_eq!(s.press(&settings("effect", "cycle")), BacklightCommand::SetEffect(0));
    s.speed = 7;
    assert_eq!(s.press(&settings("speed", "cycle")), BacklightCommand::SetSpeed(0));
    assert_eq!(s.press(&settings("other", "cycle")), BacklightCommand::Nothing);
    assert_eq!(s.press(&settings("brightness", "hold")), BacklightCommand::Nothing);

    let mut t = BacklightState::initial();
    assert_eq!(t.press(&settings("brightness", "set")), BacklightCommand::ApplyAll);
    assert_eq!(
        t,
        BacklightState { brightness: 2, last_non_zero_brightness: 2, speed: 6, effect: 5, color: (255, 0, 0) }
    );
}

#[test]
fn apply_keeps_color_on_invalid_text_and_remembers_brightness() {
    let mut s = BacklightState::initial();
    let mut set = settings("brightness", "set");
    set.brightness_value = 0;
    set.color_value = "blue".to_string();
    s.apply(&set);
    assert_eq!(
        s,
        BacklightState { brightness: 0, last_non_zero_brightness: 4, speed: 6, effect: 5, color: (0, 150, 255) }
    );
}

#[test]
fn dial_clamps_or_wraps() {
    let s = BacklightState::initial();
    assert_eq!(s.dial(&settings("brightness", "toggle"), 1), BacklightCommand::SetBrightness(5));
    assert_eq!(s.dial(&settings("brightness", "toggle"), 10), BacklightCommand::SetBrightness(6));
    assert_eq!(s.dial(&settings("brightness", "toggle"), -10), BacklightCommand::SetBrightness(0));
    assert_eq!(s.dial(&settings("speed", "toggle"), 10), BacklightCommand::SetSpeed(7));
    assert_eq!(s.dial(&settings("speed", "toggle"), -4), BacklightCommand::SetSpeed(0));
    assert_eq!(s.dial(&settings("effect", "toggle"), -1), BacklightCommand::SetEffect(9));
    assert_eq!(s.dial(&settings("effect", "toggle"), 23), BacklightCommand::SetEffect(3));
    assert_eq!(s.dial(&settings("color", "toggle"), 1), BacklightCommand::SetColor(0, 0, 255));
    assert_eq!(s.dial(&settings("color", "toggle"), -5), BacklightCommand::SetColor(255, 255, 255));
    assert_eq!(s.dial(&settings("color", "toggle"), -32768), BacklightCommand::SetColor(0, 0, 255));
    assert_eq!(s.dial(&settings("x", "toggle"), 1), BacklightCommand::Nothing);
}

#[test]
fn state_is_reported_back() {
    let s = BacklightState { brightness: 1, last_non_zero_brightness: 1, speed: 2, effect: 3, color: (171, 205, 239) };
    let updated = s.sync_settings(&settings("color", "cycle"));
    assert_eq!(updated.mode, "color");
    assert_eq!(updated.press_action, "cycle");
    assert_eq!(updated.brightness_value, 1);
    assert_eq!(updated.speed_value, 2);
    assert_eq!(updated.effect_value, 3);
    assert_eq!(updated.color_value, "#abcdef");
}

#[test]
fn colors_snap_to_saturated_ones() {
    assert_eq!(snap_color((0, 0, 0)), (255, 255, 255));
    assert_eq!(snap_color((200, 180, 170)), (255, 255, 255));
    assert_eq!(snap_color((255, 0, 0)), (255, 0, 0));
    assert_eq!(snap_color((255, 0, 20)), (255, 0, 0));
    assert_eq!(snap_color((255, 127, 0)), (255, 255, 0));
    assert_eq!(snap_color((0, 255, 0)), (0, 255, 0));
    assert_eq!(snap_color((0, 150, 255)), (0, 255, 255));
    assert_eq!(snap_color((0, 0, 255)), (0, 0, 255));
    assert_eq!(snap_color((127, 0, 255)), (255, 0, 255));
    assert_eq!(snap_color((255, 0, 255)), (255, 0, 255));
    // hue exactly 15 degrees: 60 * g / 255 == 15 when g is 63.75; g = 64 is past it
    assert_eq!(snap_color((255, 63, 0)), (255, 0, 0));
    assert_eq!(snap_color((255, 64, 0)), (255, 255, 0));
}

#[test]
fn commands_change_state_and_reach_the_device() {
    let mut s = BacklightState::initial();
    let e = s.execute(BacklightCommand::Toggle);
    assert_eq!(e.commands, vec![TransportCommand::SetKeyboardBacklightBrightness(0)]);
    assert!(e.raw_reports.is_empty());
    assert_eq!(s.brightness, 0);
    assert_eq!(s.last_non_zero_brightness, 4);
    let e = s.execute(BacklightCommand::Toggle);
    assert_eq!(e.commands, vec![TransportCommand::SetKeyboardBacklightBrightness(4)]);
    assert_eq!(s, BacklightState::initial());

    let e = s.execute(BacklightCommand::SetColor(127, 0, 255));
    assert!(e.commands.is_empty());
    assert_eq!(e.raw_reports, vec![color_report((255, 0, 255)), commit_report()]);
    assert_eq!(s.color, (127, 0, 255));

    s.execute(BacklightCommand::SetBrightness(6));
    s.execute(BacklightCommand::SetEffect(2));
    s.execute(BacklightCommand::SetSpeed(1));
    assert_eq!(
        s,
        BacklightState { brightness: 6, last_non_zero_brightness: 6, speed: 1, effect: 2, color: (127, 0, 255) }
    );
    let e = s.execute(BacklightCommand::ApplyAll);
    assert_eq!(
        e.commands,
        vec![
            TransportCommand::SetKeyboardBacklightBrightness(6),
            TransportCommand::SetKeyboardLightingSpeed(1),
            TransportCommand::SetKeyboardLightingEffects(2),
        ]
    );
    assert_eq!(e.raw_reports.len(), 2);
    let e = s.execute(BacklightCommand::Nothing);
    assert!(e.commands.is_empty() && e.raw_reports.is_empty());
    let report = color_report((0, 255, 255));
    assert_eq!(&report[6..15], &[b'C', b'O', b'L', b'O', b'R', 150, 0, 255, 255]);
}

#[test]
fn applied_settings_are_reported_back() {
    let mut s = BacklightState::initial();
    let mut set = settings("speed", "set");
    set.color_value = "#A0B1C2".to_string();
    s.apply(&set);
    let reported = s.sync_settings(&set);
    assert_eq!(reported.brightness_value, set.brightness_value);
    assert_eq!(reported.speed_value, set.speed_value);
    assert_eq!(reported.effect_value, set.effect_value);
    assert_eq!(reported.color_value, "#a0b1c2");
    assert_eq!(hex_to_rgb(&reported.color_value), hex_to_rgb(&set.color_value));
}
