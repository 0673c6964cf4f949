use lib::backlight::{
    applied_color, change_brightness, default_state, format_state, next_color, palette_entry,
    parse_command, parse_state, scale_color, set_brightness, set_color, set_zone_raw, toggle,
    zone_code, zone_commands, Command, Rgb, State,
};

fn rgb(r: u8, g: u8, b: u8) -> Rgb {
    Rgb { r, g, b }
}

fn args(words: &[&str]) -> Vec<String> {
    words.iter().map(|w| w.to_string()).collect()
}

#[test]
fn initial_state_is_white() {
    let s = default_state();
    assert_eq!(s.color, rgb(255, 255, 255));
    assert_eq!(s.brightness, 100);
    assert_eq!(s.last_brightness, 100);
    assert!(s.enabled);
    assert_eq!(s.palette_index, 0);
}

#[test]
fn reads_saved_states() {
    let s = parse_state("255 120 0 55 40 1 7\n");
    assert_eq!(s, State { color: rgb(255, 120, 0), brightness: 55, last_brightness: 40, enabled: true, palette_index: 7 });
    let t = parse_state("1 2 3 200 5 9 17");
    assert_eq!(t, State { color: rgb(1, 2, 3), brightness: 100, last_brightness: 10, enabled: true, palette_index: 1 });
    let u = parse_state("1 2 3 50 250 0 8");
    assert_eq!(u, State { color: rgb(1, 2, 3), brightness: 50, last_brightness: 100, enabled: false, palette_index: 0 });
}

#[test]
fn reads_older_state_files() {
    let s = parse_state("10 20 30 0\n");
    assert_eq!(s, State { color: rgb(10, 20, 30), brightness: 0, last_brightness: 100, enabled: false, palette_index: 0 });
    let t = parse_state("10 20 30 150");
    assert_eq!(t, State { color: rgb(10, 20, 30), brightness: 100, last_brightness: 100, enabled: true, palette_index: 0 });
    let u = parse_state("10 20 30 42");
    assert_eq!(u.last_brightness, 42);
}

#[test]
fn unreadable_states_give_the_initial_one() {
    assert_eq!(parse_state(""), default_state());
    assert_eq!(parse_state("1 2 3"), default_state());
    assert_eq!(parse_state("1 2 3 4 5"), default_state());
    assert_eq!(parse_state("1 2 300 4"), default_state());
    assert_eq!(parse_state("1 2 3 4 5 6 -1"), default_state());
    assert_eq!(parse_state("1 2 3 4 5 256 0"), default_state());
}

#[test]
fn saved_text_and_read_back() {
    let s = State { color: rgb(255, 120, 0), brightness: 55, last_brightness: 40, enabled: false, palette_index: 7 };
    assert_eq!(format_state(&s), "255 120 0 55 40 0 7\n");
    assert_eq!(parse_state(&format_state(&s)), s);
    assert_eq!(format_state(&default_state()), "255 255 255 100 100 1 0\n");
    assert_eq!(parse_state(&format_state(&default_state())), default_state());
    let low = State { last_brightness: 5, ..s };
    assert_eq!(parse_state(&format_state(&low)).last_brightness, 10);
}

#[test]
fn scaling_colors() {
    assert_eq!(scale_color(rgb(255, 120, 7), 100), rgb(255, 120, 7));
    assert_eq!(scale_color(rgb(255, 120, 7), 50), rgb(127, 60, 3));
    assert_eq!(scale_color(rgb(255, 120, 7), 0), rgb(0, 0, 0));
    assert_eq!(scale_color(rgb(255, 255, 255), 255), rgb(138, 138, 138));
    let off = State { enabled: false, ..default_state() };
    assert_eq!(applied_color(&off), rgb(0, 0, 0));
    let half = State { brightness: 50, ..default_state() };
    assert_eq!(applied_color(&half), rgb(127, 127, 127));
}

#[test]
fn choosing_colors() {
    let off = State { brightness: 0, last_brightness: 5, enabled: false, ..default_state() };
    let s = set_color(off, rgb(1, 2, 3), Some(10));
    assert_eq!(s, State { color: rgb(1, 2, 3), brightness: 10, last_brightness: 5, enabled: true, palette_index: 2 });
    let t = set_color(default_state(), rgb(9, 9, 9), None);
    assert_eq!(t.palette_index, 0);
    assert_eq!(t.brightness, 100);
}

#[test]
fn brightness_rules() {
    let s = set_brightness(default_state(), 40);
    assert_eq!((s.brightness, s.last_brightness, s.enabled), (40, 40, true));
    let o = set_brightness(s, 0);
    assert_eq!((o.brightness, o.last_brightness, o.enabled), (0, 40, false));
    let up = change_brightness(o, 10);
    assert_eq!((up.brightness, up.last_brightness, up.enabled), (50, 50, true));
    let top = change_brightness(default_state(), 10);
    assert_eq!(top.brightness, 100);
    let down = change_brightness(set_brightness(default_state(), 5), -10);
    assert_eq!((down.brightness, down.last_brightness, down.enabled), (0, 5, false));
    let back = change_brightness(change_brightness(set_brightness(default_state(), 70), 10), -10);
    assert_eq!(back.brightness, 70);
}

#[test]
fn palette_steps() {
    let (s, name) = next_color(default_state());
    assert_eq!(name, "blue");
    assert_eq!(s.color, rgb(0, 0, 255));
    assert_eq!(s.palette_index, 1);
    let mut t = default_state();
    let mut names = Vec::new();
    for _ in 0..8 {
        let (n, nm) = next_color(t);
        t = n;
        names.push(nm);
    }
    assert_eq!(names, vec!["blue", "red", "green", "cyan", "magenta", "yellow", "orange", "white"]);
    assert_eq!(t.palette_index, 0);
    assert_eq!(palette_entry(7), ("orange", rgb(255, 120, 0)));
}

#[test]
fn switching_on_and_off() {
    let s = set_brightness(default_state(), 60);
    let off = toggle(s);
    assert!(!off.enabled);
    assert_eq!(off.last_brightness, 60);
    let on = toggle(off);
    assert!(on.enabled);
    assert_eq!(on.brightness, 60);
    let dark = State { brightness: 0, last_brightness: 3, enabled: false, ..default_state() };
    assert_eq!(toggle(dark).brightness, 10);
}

#[test]
fn controller_calls() {
    assert_eq!(
        set_zone_raw(3, rgb(200, 0, 0)),
        "\\_SB.PC00.LPCB.EC.ECMD {0x05, 0x00, 0xCA, 0x03, 0x00, 0xC8, 0x00, 0x00}"
    );
    assert_eq!(
        set_zone_raw(5, rgb(0xAB, 0x0F, 0xC8)),
        "\\_SB.PC00.LPCB.EC.ECMD {0x05, 0x00, 0xCA, 0x05, 0xC8, 0xAB, 0x0F, 0x00}"
    );
    assert_eq!(zone_code(1), Some(3));
    assert_eq!(zone_code(3), Some(5));
    assert_eq!(zone_code(0), None);
    assert_eq!(zone_code(4), None);
    let calls = zone_commands(&State { brightness: 50, ..default_state() });
    assert_eq!(calls.len(), 3);
    assert_eq!(calls[1], "\\_SB.PC00.LPCB.EC.ECMD {0x05, 0x00, 0xCA, 0x04, 0x7F, 0x7F, 0x7F, 0x00}");
}

#[test]
fn command_lines() {
    assert_eq!(parse_command(&args(&["kbd", "red"])), Command::SetColor(rgb(255, 0, 0), Some(2)));
    assert_eq!(parse_command(&args(&["kbd", "green"])), Command::SetColor(rgb(0, 255, 0), Some(3)));
    assert_eq!(parse_command(&args(&["kbd", "blue"])), Command::SetColor(rgb(0, 0, 255), Some(1)));
    assert_eq!(parse_command(&args(&["kbd", "white"])), Command::SetColor(rgb(255, 255, 255), Some(0)));
    assert_eq!(parse_command(&args(&["kbd", "off"])), Command::SetBrightness(0));
    assert_eq!(parse_command(&args(&["kbd", "rgb", "255", "120", "0"])), Command::SetColor(rgb(255, 120, 0), None));
    assert_eq!(parse_command(&args(&["kbd", "rgb", "1", "x", "0"])), Command::InvalidValue(3));
    assert_eq!(parse_command(&args(&["kbd", "rgb", "1", "2"])), Command::Usage);
    assert_eq!(parse_command(&args(&["kbd", "zone", "2", "0", "255", "0"])), Command::Zone(4, rgb(0, 255, 0)));
    assert_eq!(parse_command(&args(&["kbd", "zone", "4", "0", "255", "0"])), Command::InvalidZone(4));
    assert_eq!(parse_command(&args(&["kbd", "zone", "z", "0", "255", "0"])), Command::InvalidValue(2));
    assert_eq!(parse_command(&args(&["kbd", "zone", "1", "0", "256", "0"])), Command::InvalidValue(4));
    assert_eq!(parse_command(&args(&["kbd", "next"])), Command::Next);
    assert_eq!(parse_command(&args(&["kbd", "toggle"])), Command::Toggle);
    assert_eq!(parse_command(&args(&["kbd", "brightness", "50"])), Command::SetBrightness(50));
    assert_eq!(parse_command(&args(&["kbd", "brightness", "101"])), Command::InvalidBrightness(101));
    assert_eq!(parse_command(&args(&["kbd", "brightness", "300"])), Command::InvalidValue(2));
    assert_eq!(parse_command(&args(&["kbd", "brightness"])), Command::Usage);
    assert_eq!(parse_command(&args(&["kbd", "brightness-up"])), Command::ChangeBrightness(10));
    assert_eq!(parse_command(&args(&["kbd", "brightness-down"])), Command::ChangeBrightness(-10));
    assert_eq!(parse_command(&args(&["kbd", "status"])), Command::Status);
    assert_eq!(parse_command(&args(&["kbd", "purple"])), Command::Usage);
    assert_eq!(parse_command(&args(&["kbd"])), Command::Usage);
}
