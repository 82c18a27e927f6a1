use rusty_keys::cli::{decide, parse_args, ParsedArgs, Request};
use rusty_keys::config::{default_config_candidates, next_probe, push_env_value, Config, ProbeStep};
use rusty_keys::device::{Device, KEY_CAPSLOCK, KEY_LEFTSHIFT, KEY_RIGHTSHIFT};
use rusty_keys::event::{
    event_kind, event_or_null, key_event_mask, CGEventMaskBit, DeviceRet, EventKind, InputEvent,
    KeyState, kCGEventFlagsChanged, kCGEventKeyDown, kCGEventKeyUp, kCGEventTapDisabledByTimeout,
};

fn strings(items: &[&str]) -> Vec<String> {
    items.iter().map(|s| s.to_string()).collect()
}

#[test]
fn mask_bit_sets_one_bit() {
    assert_eq!(CGEventMaskBit(0), 1);
    assert_eq!(CGEventMaskBit(3), 8);
    assert_eq!(CGEventMaskBit(kCGEventKeyDown), 0x400);
    assert_eq!(CGEventMaskBit(63), 1u64 << 63);
}

#[test]
fn key_event_mask_is_down_and_up() {
    assert_eq!(key_event_mask(), 0xC00);
}

#[test]
fn event_kinds() {
    assert_eq!(event_kind(kCGEventKeyDown), EventKind::KeyDown);
    assert_eq!(event_kind(kCGEventKeyUp), EventKind::KeyUp);
    assert_eq!(event_kind(kCGEventFlagsChanged), EventKind::FlagsChanged);
    assert_eq!(event_kind(kCGEventTapDisabledByTimeout), EventKind::TapDisabledByTimeout);
    assert_eq!(event_kind(0), EventKind::Unknown);
}

#[test]
fn input_event_value_and_code() {
    let down = InputEvent::new(kCGEventKeyDown, 0x38, 7u64);
    assert_eq!(down.value(), KeyState::DOWN);
    assert_eq!(down.code(), 0x38);
    let up = InputEvent::new(kCGEventKeyUp, 0x00, 7u64);
    assert_eq!(up.value(), KeyState::UP);
    let flags = InputEvent::new(kCGEventFlagsChanged, 0x39, 7u64);
    assert_eq!(flags.value(), KeyState::OTHER);
    let timeout = InputEvent::new(kCGEventTapDisabledByTimeout, 0, 7u64);
    assert_eq!(timeout.value(), KeyState::OTHER);
}

#[test]
fn device_passes_events_through() {
    let device = Device;
    let mut event = InputEvent::new(kCGEventKeyDown, 12, 42u64);
    assert_eq!(device.send(&mut event).unwrap(), Some(42));
    assert_eq!(event.event, 42);
    assert_eq!(event.key_code, 12);
}

#[test]
fn device_swallows_everything_else() {
    let device = Device;
    let mut event = InputEvent::new(kCGEventKeyUp, 12, 42u64);
    assert_eq!(device.send_mod_code(KEY_LEFTSHIFT, &mut event).unwrap(), None);
    assert_eq!(device.send_mod_code_value(KEY_LEFTSHIFT, true, &mut event).unwrap(), None);
    assert_eq!(device.synchronize::<u64>().unwrap(), None);
    assert_eq!(device.block_key::<u64>().unwrap(), None);
    assert_eq!(event.event, 42);
}

#[test]
fn device_key_codes() {
    let device = Device;
    assert_eq!(device.left_shift_code(), 0x38);
    assert_eq!(device.right_shift_code(), 0x3C);
    assert_eq!(device.caps_lock_code(), 0x39);
    assert_eq!(KEY_LEFTSHIFT, 0x38);
    assert_eq!(KEY_RIGHTSHIFT, 0x3C);
    assert_eq!(KEY_CAPSLOCK, 0x39);
}

#[test]
fn null_for_swallowed_events() {
    assert_eq!(event_or_null(Some(5u64), 0), 5);
    assert_eq!(event_or_null(None, 0u64), 0);
    match DeviceRet::EVENT(3u8) {
        DeviceRet::EVENT(e) => assert_eq!(e, 3),
        DeviceRet::NULL => panic!("wrong variant"),
    }
}

#[test]
fn env_value_appended_with_suffix() {
    let mut v = strings(&["a"]);
    push_env_value(Some("C:\\Users\\me".to_string()), "\\keymap.toml", &mut v);
    assert_eq!(v, strings(&["a", "C:\\Users\\me\\keymap.toml"]));
    push_env_value(None, "\\keymap.toml", &mut v);
    assert_eq!(v, strings(&["a", "C:\\Users\\me\\keymap.toml"]));
}

#[test]
fn default_candidates_in_order() {
    assert_eq!(
        default_config_candidates(Some("U".to_string()), Some("A".to_string())),
        strings(&["U\\keymap.toml", "A\\keymap.toml", "keymap.toml"])
    );
    assert_eq!(
        default_config_candidates(None, Some("A".to_string())),
        strings(&["A\\keymap.toml", "keymap.toml"])
    );
    assert_eq!(default_config_candidates(None, None), strings(&["keymap.toml"]));
}

#[test]
fn config_new_keeps_file() {
    assert_eq!(Config::new("k.toml".to_string()).config_file, "k.toml");
}

#[test]
fn probe_tries_in_order_and_stops_at_first_open() {
    let c = strings(&["a", "b", "c"]);
    assert_eq!(next_probe(&c, &vec![]), ProbeStep::Try(0));
    assert_eq!(next_probe(&c, &vec![false]), ProbeStep::Try(1));
    assert_eq!(next_probe(&c, &vec![false, true]), ProbeStep::Found(1));
    assert_eq!(next_probe(&c, &vec![false, false, false]), ProbeStep::NotFound);
    assert_eq!(next_probe(&c, &vec![true, true]), ProbeStep::Found(0));
}

#[test]
fn probe_law_on_fixed_outcomes() {
    let c = strings(&["a", "b", "c", "d"]);
    let opens = [false, false, true, true];
    let mut tried = Vec::new();
    let found = loop {
        match next_probe(&c, &tried) {
            ProbeStep::Try(i) => tried.push(opens[i]),
            ProbeStep::Found(i) => break Some(i),
            ProbeStep::NotFound => break None,
        }
    };
    assert_eq!(found, Some(2));
    assert_eq!(tried, vec![false, false, true]);
}

#[test]
fn decide_precedence() {
    let p = |help, version, config: Option<&str>, free: &[&str]| ParsedArgs {
        help,
        version,
        config: config.map(|s| s.to_string()),
        free: strings(free),
    };
    assert_eq!(decide(None), Request::BadArguments);
    assert_eq!(decide(Some(p(true, true, Some("x"), &["y"]))), Request::Help);
    assert_eq!(decide(Some(p(false, true, Some("x"), &["y"]))), Request::Version);
    assert_eq!(decide(Some(p(false, false, Some("x"), &["y"]))), Request::UseConfig("x".to_string()));
    assert_eq!(decide(Some(p(false, false, None, &["y", "z"]))), Request::UseConfig("y".to_string()));
    assert_eq!(decide(Some(p(false, false, None, &[]))), Request::SearchDefaults);
}

#[test]
fn parse_args_config_option() {
    let cl = parse_args(&strings(&["prog", "-c", "my.toml", "other.toml"]), None, None);
    assert_eq!(cl.request, Request::UseConfig("my.toml".to_string()));
    let cl = parse_args(&strings(&["prog", "--config=long.toml"]), None, None);
    assert_eq!(cl.request, Request::UseConfig("long.toml".to_string()));
}

#[test]
fn parse_args_free_argument() {
    let cl = parse_args(&strings(&["prog", "other.toml"]), None, None);
    assert_eq!(cl.request, Request::UseConfig("other.toml".to_string()));
}

#[test]
fn parse_args_defaults() {
    let cl = parse_args(&strings(&["prog"]), Some("U".to_string()), None);
    assert_eq!(cl.request, Request::SearchDefaults);
    assert_eq!(cl.default_configs, strings(&["U\\keymap.toml", "keymap.toml"]));
}

#[test]
fn parse_args_help_and_version() {
    let cl = parse_args(&strings(&["prog", "-v", "--help"]), None, None);
    assert_eq!(cl.request, Request::Help);
    let cl = parse_args(&strings(&["prog", "--version", "x.toml"]), None, None);
    assert_eq!(cl.request, Request::Version);
}

#[test]
fn parse_args_errors() {
    assert_eq!(parse_args(&strings(&["prog", "--bogus"]), None, None).request, Request::BadArguments);
    assert_eq!(parse_args(&strings(&["prog", "-c"]), None, None).request, Request::BadArguments);
    assert_eq!(parse_args(&strings(&["prog", "-h", "-h"]), None, None).request, Request::BadArguments);
}

#[test]
fn parse_args_usage_text() {
    let cl = parse_args(&strings(&["prog"]), None, None);
    assert!(cl.usage.starts_with("Usage: prog [options] [keymap.toml]\n\nOptions:\n"));
    assert!(cl.usage.contains("-h, --help"));
    assert!(cl.usage.contains("-c, --config FILE"));
    assert!(cl.usage.contains("specify the keymap config file to use"));
    assert!(cl.usage.contains("[\"keymap.toml\"])"));
}
