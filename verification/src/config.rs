//! Hardware-independent lighting configuration.

use vstd::prelude::*;

verus! {

/// Colors used to test the available zones, one per zone, each as `0xRRGGBB`.
pub const TESTCOLORS: [u32; 6] = [0xff0000, 0x00ff00, 0x0000ff, 0xff00ff, 0xffff00, 0xffffff];

/// RGB zone.
#[derive(Debug, Copy, Clone, PartialEq, Eq, Structural)]
pub enum Zone {
    Io,
    Cpu,
    Audio,
    Chipset,
    Header0,
    Header1,
}

impl Zone {
    /// Every zone, in declaration order.
    pub open spec fn all() -> Seq<Zone> {
        seq![Zone::Io, Zone::Cpu, Zone::Audio, Zone::Chipset, Zone::Header0, Zone::Header1]
    }

    /// Every zone, in declaration order.
    pub fn variants() -> (zones: [Zone; 6])
        ensures
            zones@ == Zone::all(),
    {
        [Zone::Io, Zone::Cpu, Zone::Audio, Zone::Chipset, Zone::Header0, Zone::Header1]
    }
}

impl Default for Zone {
    fn default() -> (zone: Zone)
        ensures
            zone == Zone::Io,
    {
        Zone::Io
    }
}

/// Color effect.
#[derive(Debug, Copy, Clone, PartialEq, Eq, Structural)]
pub enum Effect {
    Off,
    Static,
    Pulse,
    Flash,
    Cycle,
    Rainbow,
    ChaseFade,
    Chase,
}

impl Default for Effect {
    fn default() -> (effect: Effect)
        ensures
            effect == Effect::Static,
    {
        Effect::Static
    }
}

/// RGB color.
#[derive(Debug, Copy, Clone, PartialEq, Eq, Structural)]
pub struct Rgb {
    pub r: u8,
    pub g: u8,
    pub b: u8,
}

impl Rgb {
    /// The color whose red, green and blue channels are the three low bytes
    /// of `color`, red being the most significant of them.
    pub open spec fn spec_from_u32(color: u32) -> Rgb {
        Rgb {
            r: ((color / 0x1_0000) % 0x100) as u8,
            g: ((color / 0x100) % 0x100) as u8,
            b: (color % 0x100) as u8,
        }
    }

    /// Splits `0xRRGGBB` into its channels; bits above the low 24 are ignored.
    pub fn from_u32(color: u32) -> (rgb: Rgb)
        ensures
            rgb == Rgb::spec_from_u32(color),
    {
        let b = (color % 0x100) as u8;
        let g = ((color / 0x100) % 0x100) as u8;
        let r = ((color / 0x1_0000) % 0x100) as u8;
        Rgb { r, g, b }
    }
}

impl Default for Rgb {
    fn default() -> (rgb: Rgb)
        ensures
            rgb == (Rgb { r: 0, g: 0, b: 0 }),
    {
        Rgb { r: 0, g: 0, b: 0 }
    }
}

/// LED brightness, from 0 (dark) to 255 (full intensity).
#[derive(Debug, Copy, Clone, PartialEq, Eq, Structural)]
pub struct Brightness(pub u8);

impl Brightness {
    /// Full intensity.
    pub fn max_value() -> (brightness: Brightness)
        ensures
            brightness == Brightness(255),
    {
        Brightness(u8::MAX)
    }
}

impl Default for Brightness {
    fn default() -> (brightness: Brightness)
        ensures
            brightness == Brightness(0),
    {
        Brightness(0)
    }
}

/// Duration in milliseconds.
#[derive(Debug, Copy, Clone, PartialEq, Eq, Structural)]
pub struct Duration(pub u16);

impl Default for Duration {
    fn default() -> (duration: Duration)
        ensures
            duration == Duration(100),
    {
        Duration(100)
    }
}

/// Supported RGB controllers.
#[derive(Debug, Copy, Clone, PartialEq, Eq, Structural)]
pub enum RgbDevice {
    X670EF,
    Trx40,
}

impl Default for RgbDevice {
    fn default() -> (device: RgbDevice)
        ensures
            device == RgbDevice::X670EF,
    {
        RgbDevice::X670EF
    }
}

/// New color config.
#[derive(Debug, Copy, Clone, PartialEq, Eq, Structural)]
pub struct Config {
    pub device: RgbDevice,
    pub zone: Zone,
    pub effect: Effect,
    pub max_brightness: Brightness,
    pub min_brightness: Brightness,
    pub color: Rgb,
    pub fade_in_time: Duration,
    pub fade_out_time: Duration,
    pub hold_time: Duration,
    pub interactive: bool,
}

impl Config {
    /// The configuration that applies when nothing was chosen: a static
    /// black color at full brightness on the I/O zone of the default device.
    pub open spec fn spec_default() -> Config {
        Config {
            device: RgbDevice::X670EF,
            zone: Zone::Io,
            effect: Effect::Static,
            max_brightness: Brightness(255),
            min_brightness: Brightness(0),
            color: Rgb { r: 0, g: 0, b: 0 },
            fade_in_time: Duration(100),
            fade_out_time: Duration(100),
            hold_time: Duration(100),
            interactive: false,
        }
    }
}

impl Config {
    /// The configuration that lights the zone at `place` on `device` in the
    /// test color kept for that place, all else being default.
    pub open spec fn spec_zonetest(device: RgbDevice, place: int) -> Config {
        Config {
            color: Rgb::spec_from_u32(TESTCOLORS[place]),
            device,
            zone: Zone::all()[place],
            ..Config::spec_default()
        }
    }

    /// The configurations that mark all zones of `device`, each in a unique
    /// color.
    pub fn zonetest(device: RgbDevice) -> (configs: Vec<Config>)
        ensures
            configs@.len() == Zone::all().len(),
            forall|place: int|
                0 <= place < configs@.len() ==> #[trigger] configs@[place]
                    == Config::spec_zonetest(device, place),
    {
        let zones = Zone::variants();
        let mut configs: Vec<Config> = Vec::new();
        for place in 0..6
            invariant
                zones@ == Zone::all(),
                configs@.len() == place,
                forall|earlier: int|
                    0 <= earlier < place ==> configs@[earlier] == Config::spec_zonetest(
                        device,
                        earlier,
                    ),
        {
            let color = Rgb::from_u32(TESTCOLORS[place]);
            let config = Config { color, device, zone: zones[place], ..Config::default() };
            configs.push(config);
        }
        configs
    }
}

impl Default for Config {
    fn default() -> (config: Config)
        ensures
            config == Config::spec_default(),
    {
        Config {
            max_brightness: Brightness::max_value(),
            min_brightness: Brightness::default(),
            fade_out_time: Duration::default(),
            fade_in_time: Duration::default(),
            interactive: false,
            hold_time: Duration::default(),
            device: RgbDevice::default(),
            effect: Effect::default(),
            color: Rgb::default(),
            zone: Zone::default(),
        }
    }
}

} // verus!
