//! The text forms of configuration values: how each is written, and how it
//! is read back.

use crate::config::Brightness;
use crate::config::Duration;
use crate::config::Effect;
use crate::config::Rgb;
use crate::config::RgbDevice;
use crate::config::Zone;
use crate::controller::UnsupportedFeature;
use crate::number::decimal;
use crate::number::hex_digit;
use crate::number::hex_number;
use crate::number::hex_pair;
use crate::number::hex_value;
use crate::number::is_hex;
use crate::number::lemma_decimal_round_trip;
use crate::number::lemma_hex_number_push_pair;
use crate::number::lemma_hex_pair_value;
use crate::number::parse_decimal;
use crate::number::pow16;
use crate::number::push_decimal;
use crate::number::push_hex_pair;
use crate::number::spec_parse_decimal;
use vstd::prelude::*;
use vstd::string::StringExecFns;

verus! {

impl Zone {
    /// The name of the zone.
    pub open spec fn spec_name(self) -> Seq<char> {
        match self {
            Zone::Io => "Io"@,
            Zone::Cpu => "Cpu"@,
            Zone::Audio => "Audio"@,
            Zone::Chipset => "Chipset"@,
            Zone::Header0 => "Header0"@,
            Zone::Header1 => "Header1"@,
        }
    }

    /// The name of the zone.
    pub fn name(&self) -> (name: &'static str)
        ensures
            name@ == self.spec_name(),
    {
        match self {
            Zone::Io => "Io",
            Zone::Cpu => "Cpu",
            Zone::Audio => "Audio",
            Zone::Chipset => "Chipset",
            Zone::Header0 => "Header0",
            Zone::Header1 => "Header1",
        }
    }
}

impl Effect {
    /// The name of the effect.
    pub open spec fn spec_name(self) -> Seq<char> {
        match self {
            Effect::Off => "Off"@,
            Effect::Static => "Static"@,
            Effect::Pulse => "Pulse"@,
            Effect::Flash => "Flash"@,
            Effect::Cycle => "Cycle"@,
            Effect::Rainbow => "Rainbow"@,
            Effect::ChaseFade => "ChaseFade"@,
            Effect::Chase => "Chase"@,
        }
    }

    /// The name of the effect.
    pub fn name(&self) -> (name: &'static str)
        ensures
            name@ == self.spec_name(),
    {
        match self {
            Effect::Off => "Off",
            Effect::Static => "Static",
            Effect::Pulse => "Pulse",
            Effect::Flash => "Flash",
            Effect::Cycle => "Cycle",
            Effect::Rainbow => "Rainbow",
            Effect::ChaseFade => "ChaseFade",
            Effect::Chase => "Chase",
        }
    }
}

impl RgbDevice {
    /// The name of the device.
    pub open spec fn spec_name(self) -> Seq<char> {
        match self {
            RgbDevice::X670EF => "X670EF"@,
            RgbDevice::Trx40 => "Trx40"@,
        }
    }

    /// The name of the device.
    pub fn name(&self) -> (name: &'static str)
        ensures
            name@ == self.spec_name(),
    {
        match self {
            RgbDevice::X670EF => "X670EF",
            RgbDevice::Trx40 => "Trx40",
        }
    }
}

impl UnsupportedFeature {
    /// The message that names the feature.
    pub open spec fn spec_to_string(self) -> Seq<char> {
        match self {
            UnsupportedFeature::Zone(zone) => "unsupported zone: "@ + zone.spec_name(),
            UnsupportedFeature::Effect(effect) => "unsupported effect: "@ + effect.spec_name(),
        }
    }

    /// The message that names the feature.
    pub fn to_string(&self) -> (text: String)
        ensures
            text@ == self.spec_to_string(),
    {
        match self {
            UnsupportedFeature::Zone(zone) => String::from_str("unsupported zone: ").concat(
                zone.name(),
            ),
            UnsupportedFeature::Effect(effect) => String::from_str("unsupported effect: ").concat(
                effect.name(),
            ),
        }
    }
}

impl Brightness {
    /// The level in decimal digits.
    pub open spec fn spec_to_string(self) -> Seq<char> {
        decimal(self.0 as nat)
    }

    /// The level in decimal digits.
    pub fn to_string(&self) -> (text: String)
        ensures
            text@ == self.spec_to_string(),
    {
        let mut text = String::new();
        push_decimal(&mut text, self.0 as u16);
        text
    }

    /// The level that a text stands for: a number up to 255.
    pub open spec fn spec_from_str(s: Seq<char>) -> Result<Brightness, ()> {
        match spec_parse_decimal(s, 255) {
            Some(level) => Ok(Brightness(level as u8)),
            None => Err(()),
        }
    }

    /// Reads a level in decimal digits.
    pub fn from_str(s: &str) -> (brightness: Result<Brightness, ()>)
        ensures
            brightness == Brightness::spec_from_str(s@),
    {
        match parse_decimal(s, 255) {
            Some(level) => Ok(Brightness(level as u8)),
            None => Err(()),
        }
    }
}

impl Duration {
    /// The milliseconds in decimal digits.
    pub open spec fn spec_to_string(self) -> Seq<char> {
        decimal(self.0 as nat)
    }

    /// The milliseconds in decimal digits.
    pub fn to_string(&self) -> (text: String)
        ensures
            text@ == self.spec_to_string(),
    {
        let mut text = String::new();
        push_decimal(&mut text, self.0);
        text
    }

    /// The duration that a text stands for: a number up to 65535.
    pub open spec fn spec_from_str(s: Seq<char>) -> Result<Duration, ()> {
        match spec_parse_decimal(s, 65535) {
            Some(milliseconds) => Ok(Duration(milliseconds as u16)),
            None => Err(()),
        }
    }

    /// Reads milliseconds in decimal digits.
    pub fn from_str(s: &str) -> (duration: Result<Duration, ()>)
        ensures
            duration == Duration::spec_from_str(s@),
    {
        match parse_decimal(s, 65535) {
            Some(milliseconds) => Ok(Duration(milliseconds)),
            None => Err(()),
        }
    }
}

impl Rgb {
    /// The color as `0x` and six hexadecimal digits: red, green, blue.
    pub open spec fn spec_to_string(self) -> Seq<char> {
        "0x"@ + hex_pair(self.r) + hex_pair(self.g) + hex_pair(self.b)
    }

    /// The color as `0xRRGGBB`, in lower case.
    pub fn to_string(&self) -> (text: String)
        ensures
            text@ == self.spec_to_string(),
    {
        let mut text = String::from_str("0x");
        push_hex_pair(&mut text, self.r);
        push_hex_pair(&mut text, self.g);
        push_hex_pair(&mut text, self.b);
        text
    }

    /// The color that a text stands for. The text has eight characters: `0x`,
    /// then six hexadecimal digits in either case, the first of which may
    /// give way to a plus sign.
    pub open spec fn spec_from_str(s: Seq<char>) -> Result<Rgb, ()> {
        if s.len() == 8 && s[0] == '0' && s[1] == 'x' {
            let digits = if s[2] == '+' {
                s.subrange(3, 8)
            } else {
                s.subrange(2, 8)
            };
            if is_hex(digits) {
                Ok(Rgb::spec_from_u32(hex_number(digits) as u32))
            } else {
                Err(())
            }
        } else {
            Err(())
        }
    }

    /// Reads a color in the form `0xRRGGBB`.
    pub fn from_str(s: &str) -> (rgb: Result<Rgb, ()>)
        ensures
            rgb == Rgb::spec_from_str(s@),
    {
        if s.unicode_len() != 8 {
            return Err(());
        }
        if s.get_char(0) != '0' || s.get_char(1) != 'x' {
            return Err(());
        }
        let first: usize = if s.get_char(2) == '+' {
            3
        } else {
            2
        };
        let ghost digits = s@.subrange(first as int, 8);
        let mut color: u32 = 0;
        let mut i: usize = first;
        while i < 8
            invariant
                s@.len() == 8,
                s@[0] == '0' && s@[1] == 'x',
                first == (if s@[2] == '+' {
                    3int
                } else {
                    2int
                }),
                first <= i <= 8,
                digits == s@.subrange(first as int, 8),
                forall|j: int| 0 <= j < i - first ==> (#[trigger] hex_value(digits[j])) is Some,
                color == hex_number(digits.subrange(0, i - first)),
                color < pow16((i - first) as nat),
            decreases 8 - i,
        {
            match hex_digit(s.get_char(i)) {
                Some(value) => {
                    proof {
                        let read = digits.subrange(0, i - first + 1);
                        assert(read.drop_last() =~= digits.subrange(0, i - first));
                        assert(read.last() == s@[i as int]);
                        reveal_with_fuel(pow16, 8);
                    }
                    color = color * 16 + value as u32;
                },
                None => {
                    assert(hex_value(digits[i - first]) is None);
                    return Err(());
                },
            }
            i += 1;
        }
        assert(digits.subrange(0, 8 - first) =~= digits);
        Ok(Rgb::from_u32(color))
    }
}

/// Reading the text of a level or of a duration gives it back.
pub proof fn lemma_number_text_round_trip(brightness: Brightness, duration: Duration)
    ensures
        Brightness::spec_from_str(brightness.spec_to_string()) == Ok::<Brightness, ()>(brightness),
        Duration::spec_from_str(duration.spec_to_string()) == Ok::<Duration, ()>(duration),
{
    lemma_decimal_round_trip(brightness.0 as nat, 255);
    lemma_decimal_round_trip(duration.0 as nat, 65535);
}

/// Reading the text of a color gives the color back.
pub proof fn lemma_rgb_text_round_trip(rgb: Rgb)
    ensures
        Rgb::spec_from_str(rgb.spec_to_string()) == Ok::<Rgb, ()>(rgb),
{
    reveal_strlit("0x");
    let text = rgb.spec_to_string();
    let digits = hex_pair(rgb.r) + hex_pair(rgb.g) + hex_pair(rgb.b);
    lemma_rgb_digits(rgb);
    assert(text =~= "0x"@ + digits);
    assert(text.subrange(2, 8) =~= digits);
    assert(text[2] == digits[0]);
    lemma_rgb_channels(rgb);
}

/// The six digits of a color are hexadecimal digits and stand for the
/// number whose three low bytes are its channels.
proof fn lemma_rgb_digits(rgb: Rgb)
    ensures
        ({
            let digits = hex_pair(rgb.r) + hex_pair(rgb.g) + hex_pair(rgb.b);
            &&& digits.len() == 6
            &&& digits[0] != '+'
            &&& is_hex(digits)
            &&& hex_number(digits) == rgb.r * 0x1_0000 + rgb.g * 0x100 + rgb.b
        }),
{
    let red = hex_pair(rgb.r);
    let green = red + hex_pair(rgb.g);
    lemma_hex_pair_value(rgb.r);
    assert(red =~= Seq::<char>::empty() + hex_pair(rgb.r));
    lemma_hex_number_push_pair(Seq::empty(), rgb.r);
    lemma_hex_number_push_pair(red, rgb.g);
    lemma_hex_number_push_pair(green, rgb.b);
}

/// A color is the color of the number whose three low bytes are its
/// channels.
proof fn lemma_rgb_channels(rgb: Rgb)
    ensures
        Rgb::spec_from_u32((rgb.r * 0x1_0000 + rgb.g * 0x100 + rgb.b) as u32) == rgb,
{
    let number = rgb.r * 0x1_0000 + rgb.g * 0x100 + rgb.b;
    assert(number / 0x1_0000 == rgb.r);
    assert(number / 0x100 == rgb.r * 0x100 + rgb.g);
}

} // verus!
