use rgbfusion::config::{Brightness, Config, Duration, Effect, Rgb, RgbDevice, Zone};
use rgbfusion::controller::UnsupportedFeature;
use rgbfusion::cli::Cli;

fn bare_cli() -> Cli {
    Cli {
        device: RgbDevice::X670EF,
        zone: Zone::Io,
        effect: Effect::Static,
        color: Rgb { r: 0, g: 0, b: 0 },
        has_zone: true,
        has_effect: true,
        has_color: true,
        max_brightness: None,
        min_brightness: None,
        fade_in_time: None,
        fade_out_time: None,
        hold_time: None,
    }
}

#[test]
fn color_text() {
    assert_eq!(Rgb { r: 0xff, g: 0x00, b: 0x0a }.to_string(), "0xff000a");
    assert_eq!(Rgb { r: 0, g: 0, b: 0 }.to_string(), "0x000000");
    assert_eq!(Rgb { r: 0x12, g: 0xab, b: 0xef }.to_string(), "0x12abef");
}

#[test]
fn color_from_text() {
    assert_eq!(Rgb::from_str("0xff0000"), Ok(Rgb { r: 0xff, g: 0, b: 0 }));
    assert_eq!(Rgb::from_str("0x123456"), Ok(Rgb { r: 0x12, g: 0x34, b: 0x56 }));
    assert_eq!(Rgb::from_str("0xABCDEF"), Ok(Rgb { r: 0xab, g: 0xcd, b: 0xef }));
    assert_eq!(Rgb::from_str("0xaBcDeF"), Ok(Rgb { r: 0xab, g: 0xcd, b: 0xef }));
    assert_eq!(Rgb::from_str("0x000000"), Ok(Rgb { r: 0, g: 0, b: 0 }));
}

#[test]
fn color_from_text_with_sign() {
    assert_eq!(Rgb::from_str("0x+12345"), Ok(Rgb { r: 0x01, g: 0x23, b: 0x45 }));
    assert_eq!(Rgb::from_str("0x+fffff"), Ok(Rgb { r: 0x0f, g: 0xff, b: 0xff }));
}

#[test]
fn color_from_bad_text() {
    for text in [
        "",
        "0x",
        "ff0000",
        "0xff000",
        "0xff00000",
        "0Xff0000",
        "1xff0000",
        "0xgg0000",
        "0xff 000",
        "0x-12345",
        "0x++1234",
        "0x1234+5",
        "0x12345+",
        "#ff00000",
        "0x\u{e9}1234",
        "0x12345\u{e9}",
        "0x\u{ff11}23456",
    ] {
        assert_eq!(Rgb::from_str(text), Err(()), "{}", text);
    }
}

#[test]
fn color_text_round_trip() {
    for number in [0x000000, 0x000001, 0x0a0b0c, 0x7f8081, 0x123456, 0xfedcba, 0xffffff] {
        let color = Rgb::from_u32(number);
        assert_eq!(Rgb::from_str(&color.to_string()), Ok(color));
    }
}

#[test]
fn level_text() {
    assert_eq!(Brightness(0).to_string(), "0");
    assert_eq!(Brightness(9).to_string(), "9");
    assert_eq!(Brightness(10).to_string(), "10");
    assert_eq!(Brightness(105).to_string(), "105");
    assert_eq!(Brightness(255).to_string(), "255");
}

#[test]
fn duration_text() {
    assert_eq!(Duration(0).to_string(), "0");
    assert_eq!(Duration(100).to_string(), "100");
    assert_eq!(Duration(1000).to_string(), "1000");
    assert_eq!(Duration(65535).to_string(), "65535");
    assert_eq!(Duration(40004).to_string(), "40004");
}

#[test]
fn names() {
    let zones: Vec<&str> = Zone::variants().iter().map(|zone| zone.name()).collect();
    assert_eq!(zones, vec!["Io", "Cpu", "Audio", "Chipset", "Header0", "Header1"]);
    assert_eq!(Effect::Off.name(), "Off");
    assert_eq!(Effect::Static.name(), "Static");
    assert_eq!(Effect::Pulse.name(), "Pulse");
    assert_eq!(Effect::Flash.name(), "Flash");
    assert_eq!(Effect::Cycle.name(), "Cycle");
    assert_eq!(Effect::Rainbow.name(), "Rainbow");
    assert_eq!(Effect::ChaseFade.name(), "ChaseFade");
    assert_eq!(Effect::Chase.name(), "Chase");
    assert_eq!(RgbDevice::X670EF.name(), "X670EF");
    assert_eq!(RgbDevice::Trx40.name(), "Trx40");
}

#[test]
fn names_are_the_debug_names() {
    for zone in Zone::variants() {
        assert_eq!(zone.name(), format!("{:?}", zone));
    }
    for effect in [Effect::Off, Effect::Static, Effect::Rainbow, Effect::ChaseFade] {
        assert_eq!(effect.name(), format!("{:?}", effect));
    }
    for device in [RgbDevice::X670EF, RgbDevice::Trx40] {
        assert_eq!(device.name(), format!("{:?}", device));
    }
}

#[test]
fn unsupported_feature_text() {
    assert_eq!(UnsupportedFeature::Zone(Zone::Cpu).to_string(), "unsupported zone: Cpu");
    assert_eq!(
        UnsupportedFeature::Effect(Effect::Rainbow).to_string(),
        "unsupported effect: Rainbow"
    );
}

#[test]
fn command_line_of_off() {
    let config = Config {
        effect: Effect::Off,
        color: Rgb { r: 1, g: 2, b: 3 },
        max_brightness: Brightness(7),
        hold_time: Duration(5),
        ..Config::default()
    };
    assert_eq!(
        config.to_string(),
        "rgbfusion \\\n --device X670EF \\\n --zone Io \\\n --effect Off"
    );
}

#[test]
fn command_line_of_static() {
    let config = Config {
        device: RgbDevice::Trx40,
        zone: Zone::Audio,
        color: Rgb { r: 0xff, g: 0x80, b: 0x00 },
        min_brightness: Brightness(7),
        hold_time: Duration(5),
        ..Config::default()
    };
    assert_eq!(
        config.to_string(),
        "rgbfusion \\\n --device Trx40 \\\n --zone Audio \\\n --effect Static \\\n  --color 0xff8000"
    );
    let dimmed = Config { max_brightness: Brightness(200), ..config };
    assert_eq!(
        dimmed.to_string(),
        "rgbfusion \\\n --device Trx40 \\\n --zone Audio \\\n --effect Static \\\n  --color 0xff8000 \\\n  --max-brightness 200"
    );
}

#[test]
fn command_line_of_pulse_with_defaults() {
    let config = Config { effect: Effect::Pulse, ..Config::default() };
    assert_eq!(
        config.to_string(),
        "rgbfusion \\\n --device X670EF \\\n --zone Io \\\n --effect Pulse \\\n  --color 0x000000"
    );
}

#[test]
fn command_line_of_pulse_with_everything() {
    let config = Config {
        device: RgbDevice::Trx40,
        zone: Zone::Header1,
        effect: Effect::Pulse,
        color: Rgb { r: 0x0a, g: 0x0b, b: 0x0c },
        max_brightness: Brightness(254),
        min_brightness: Brightness(1),
        fade_in_time: Duration(0),
        fade_out_time: Duration(65535),
        hold_time: Duration(99),
        interactive: true,
    };
    assert_eq!(
        config.to_string(),
        "rgbfusion \\\n --device Trx40 \\\n --zone Header1 \\\n --effect Pulse \\\n  --color 0x0a0b0c \\\n  --max-brightness 254 \\\n  --min-brightness 1 \\\n  --fade-in-time 0 \\\n  --fade-out-time 65535 \\\n  --hold-time 99"
    );
}

#[test]
fn command_line_leaves_out_single_defaults() {
    let config = Config {
        effect: Effect::Cycle,
        fade_out_time: Duration(101),
        ..Config::default()
    };
    assert_eq!(
        config.to_string(),
        "rgbfusion \\\n --device X670EF \\\n --zone Io \\\n --effect Cycle \\\n  --color 0x000000 \\\n  --fade-out-time 101"
    );
}

#[test]
fn level_from_text() {
    assert_eq!(Brightness::from_str("0"), Ok(Brightness(0)));
    assert_eq!(Brightness::from_str("7"), Ok(Brightness(7)));
    assert_eq!(Brightness::from_str("128"), Ok(Brightness(128)));
    assert_eq!(Brightness::from_str("255"), Ok(Brightness(255)));
    assert_eq!(Brightness::from_str("+42"), Ok(Brightness(42)));
    assert_eq!(Brightness::from_str("007"), Ok(Brightness(7)));
    assert_eq!(Brightness::from_str("00000000000000000000000255"), Ok(Brightness(255)));
}

#[test]
fn level_from_bad_text() {
    for text in [
        "", "+", "-", "-1", "256", "1000", "99999999999999999999", "1 ", " 1", "1_0", "0x10",
        "++1", "1+", "12a", "\u{e9}", "1\u{e9}", "\u{661}",
    ] {
        assert_eq!(Brightness::from_str(text), Err(()), "{}", text);
    }
}

#[test]
fn duration_from_text() {
    assert_eq!(Duration::from_str("0"), Ok(Duration(0)));
    assert_eq!(Duration::from_str("100"), Ok(Duration(100)));
    assert_eq!(Duration::from_str("65535"), Ok(Duration(65535)));
    assert_eq!(Duration::from_str("+250"), Ok(Duration(250)));
    assert_eq!(Duration::from_str("0065535"), Ok(Duration(65535)));
}

#[test]
fn duration_from_bad_text() {
    for text in ["", "+", "65536", "70000", "655350", "-0", "12.5", "1e3", "ten"] {
        assert_eq!(Duration::from_str(text), Err(()), "{}", text);
    }
}

#[test]
fn numbers_are_read_as_the_standard_library_reads_them() {
    for text in ["", "+", "0", "+0", "-0", "255", "256", "0255", "+255", "65535", "65536", "1x"] {
        assert_eq!(Brightness::from_str(text).is_ok(), text.parse::<u8>().is_ok(), "{}", text);
        assert_eq!(Duration::from_str(text).is_ok(), text.parse::<u16>().is_ok(), "{}", text);
    }
}

#[test]
fn number_text_round_trip() {
    for level in 0..=255u8 {
        assert_eq!(Brightness::from_str(&Brightness(level).to_string()), Ok(Brightness(level)));
    }
    for milliseconds in [0u16, 1, 9, 10, 99, 100, 999, 1000, 9999, 10000, 65535] {
        assert_eq!(
            Duration::from_str(&Duration(milliseconds).to_string()),
            Ok(Duration(milliseconds))
        );
    }
}

#[test]
fn colors_are_read_as_the_standard_library_reads_them() {
    for text in ["0x123456", "0x+12345", "0x-12345", "0xabcdeg", "0xABCDEF", "0x 12345"] {
        let expected = u32::from_str_radix(&text[2..], 16).ok().map(Rgb::from_u32);
        assert_eq!(Rgb::from_str(text).ok(), expected, "{}", text);
    }
}

#[test]
fn replace_level_from_text() {
    let mut level = Brightness(9);
    level.replace_from_str(&None);
    assert_eq!(level, Brightness(9));
    level.replace_from_str(&Some(String::from("300")));
    assert_eq!(level, Brightness(9));
    level.replace_from_str(&Some(String::from("bright")));
    assert_eq!(level, Brightness(9));
    level.replace_from_str(&Some(String::from("30")));
    assert_eq!(level, Brightness(30));
}

#[test]
fn replace_duration_from_text() {
    let mut duration = Duration(100);
    duration.replace_from_str(&None);
    assert_eq!(duration, Duration(100));
    duration.replace_from_str(&Some(String::from("65536")));
    assert_eq!(duration, Duration(100));
    duration.replace_from_str(&Some(String::from("")));
    assert_eq!(duration, Duration(100));
    duration.replace_from_str(&Some(String::from("2500")));
    assert_eq!(duration, Duration(2500));
}

#[test]
fn config_from_bare_cli_is_default() {
    assert_eq!(Config::from_cli(&bare_cli()), Config::default());
}

#[test]
fn config_from_full_cli() {
    let cli = Cli {
        device: RgbDevice::Trx40,
        zone: Zone::Chipset,
        effect: Effect::Flash,
        color: Rgb { r: 1, g: 2, b: 3 },
        max_brightness: Some(String::from("200")),
        min_brightness: Some(String::from("20")),
        fade_in_time: Some(String::from("1000")),
        fade_out_time: Some(String::from("2000")),
        hold_time: Some(String::from("3000")),
        ..bare_cli()
    };
    assert_eq!(
        Config::from_cli(&cli),
        Config {
            device: RgbDevice::Trx40,
            zone: Zone::Chipset,
            effect: Effect::Flash,
            color: Rgb { r: 1, g: 2, b: 3 },
            max_brightness: Brightness(200),
            min_brightness: Brightness(20),
            fade_in_time: Duration(1000),
            fade_out_time: Duration(2000),
            hold_time: Duration(3000),
            interactive: false,
        }
    );
}

#[test]
fn config_from_cli_keeps_defaults_for_bad_numbers() {
    let cli = Cli {
        max_brightness: Some(String::from("256")),
        min_brightness: Some(String::from("-1")),
        fade_in_time: Some(String::from("soon")),
        fade_out_time: Some(String::from("65536")),
        hold_time: Some(String::from("")),
        ..bare_cli()
    };
    assert_eq!(Config::from_cli(&cli), Config::default());
}

#[test]
fn config_from_cli_drops_the_color_of_off() {
    let cli = Cli { effect: Effect::Off, color: Rgb { r: 1, g: 2, b: 3 }, ..bare_cli() };
    let config = Config::from_cli(&cli);
    assert_eq!(config.color, Rgb { r: 0, g: 0, b: 0 });
    assert_eq!(config.effect, Effect::Off);
}

#[test]
fn config_from_cli_is_interactive_where_something_was_asked() {
    assert!(!Config::from_cli(&bare_cli()).interactive);
    assert!(Config::from_cli(&Cli { has_zone: false, ..bare_cli() }).interactive);
    assert!(Config::from_cli(&Cli { has_effect: false, ..bare_cli() }).interactive);
    assert!(Config::from_cli(&Cli { has_color: false, ..bare_cli() }).interactive);
    let off = Cli { effect: Effect::Off, has_color: false, ..bare_cli() };
    assert!(!Config::from_cli(&off).interactive);
}

#[test]
fn command_line_gives_the_config_back() {
    let config = Config {
        device: RgbDevice::Trx40,
        zone: Zone::Header0,
        effect: Effect::Cycle,
        color: Rgb { r: 0xde, g: 0xad, b: 0x0f },
        max_brightness: Brightness(250),
        min_brightness: Brightness(5),
        fade_in_time: Duration(300),
        fade_out_time: Duration(400),
        hold_time: Duration(500),
        interactive: false,
    };
    let cli = Cli {
        device: config.device,
        zone: config.zone,
        effect: config.effect,
        color: Rgb::from_str(&config.color.to_string()).unwrap(),
        max_brightness: Some(config.max_brightness.to_string()),
        min_brightness: Some(config.min_brightness.to_string()),
        fade_in_time: Some(config.fade_in_time.to_string()),
        fade_out_time: Some(config.fade_out_time.to_string()),
        hold_time: Some(config.hold_time.to_string()),
        ..bare_cli()
    };
    assert_eq!(Config::from_cli(&cli), config);
}
