use rgbfusion::config::{Brightness, Config, Duration, Effect, Rgb, RgbDevice, Zone, TESTCOLORS};

#[test]
fn testcolors_match_zones() {
    assert_eq!(Zone::variants().len(), TESTCOLORS.len());
}

#[test]
fn variants_are_in_declaration_order() {
    assert_eq!(
        Zone::variants(),
        [Zone::Io, Zone::Cpu, Zone::Audio, Zone::Chipset, Zone::Header0, Zone::Header1]
    );
}

#[test]
fn defaults() {
    assert_eq!(Zone::default(), Zone::Io);
    assert_eq!(Effect::default(), Effect::Static);
    assert_eq!(RgbDevice::default(), RgbDevice::X670EF);
    assert_eq!(Rgb::default(), Rgb { r: 0, g: 0, b: 0 });
    assert_eq!(Brightness::default(), Brightness(0));
    assert_eq!(Brightness::max_value(), Brightness(255));
    assert_eq!(Duration::default(), Duration(100));
}

#[test]
fn default_config() {
    assert_eq!(
        Config::default(),
        Config {
            device: RgbDevice::X670EF,
            zone: Zone::Io,
            effect: Effect::Static,
            max_brightness: Brightness(255),
            min_brightness: Brightness(0),
            color: Rgb { r: 0, g: 0, b: 0 },
            fade_in_time: Duration(100),
            fade_out_time: Duration(100),
            hold_time: Duration(100),
            interactive: false,
        }
    );
}

#[test]
fn color_from_number() {
    assert_eq!(Rgb::from_u32(0x123456), Rgb { r: 0x12, g: 0x34, b: 0x56 });
    assert_eq!(Rgb::from_u32(0), Rgb { r: 0, g: 0, b: 0 });
    assert_eq!(Rgb::from_u32(0xffffff), Rgb { r: 0xff, g: 0xff, b: 0xff });
}

#[test]
fn color_from_number_ignores_high_byte() {
    assert_eq!(Rgb::from_u32(0xab123456), Rgb { r: 0x12, g: 0x34, b: 0x56 });
}

#[test]
fn zonetest_gives_each_zone_its_color() {
    let configs = Config::zonetest(RgbDevice::Trx40);
    let colors = [
        Rgb { r: 0xff, g: 0x00, b: 0x00 },
        Rgb { r: 0x00, g: 0xff, b: 0x00 },
        Rgb { r: 0x00, g: 0x00, b: 0xff },
        Rgb { r: 0xff, g: 0x00, b: 0xff },
        Rgb { r: 0xff, g: 0xff, b: 0x00 },
        Rgb { r: 0xff, g: 0xff, b: 0xff },
    ];
    assert_eq!(configs.len(), 6);
    for (place, config) in configs.iter().enumerate() {
        let expected = Config {
            device: RgbDevice::Trx40,
            zone: Zone::variants()[place],
            color: colors[place],
            ..Config::default()
        };
        assert_eq!(*config, expected);
    }
}

#[test]
fn zonetest_keeps_the_device() {
    for config in Config::zonetest(RgbDevice::X670EF) {
        assert_eq!(config.device, RgbDevice::X670EF);
        assert_eq!(config.effect, Effect::Static);
    }
}
