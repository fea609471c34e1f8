//! Configurations on the command line: the command that applies one, and
//! the one that a command asks for.

use crate::config::Brightness;
use crate::config::Config;
use crate::config::Duration;
use crate::config::Effect;
use crate::config::Rgb;
use crate::config::RgbDevice;
use crate::config::Zone;
use vstd::prelude::*;
use vstd::string::StringExecFns;

verus! {

/// The program that a command line starts with.
pub const PROGRAM: &'static str = "rgbfusion";

/// An option on a line of its own: its name, then its value.
pub open spec fn option_text(name: Seq<char>, value: Seq<char>) -> Seq<char> {
    " \\\n  --"@ + name + " "@ + value
}

/// An option that is shown or left out.
pub open spec fn optional_text(shown: bool, name: Seq<char>, value: Seq<char>) -> Seq<char> {
    if shown {
        option_text(name, value)
    } else {
        Seq::empty()
    }
}

/// Appends an option on a line of its own.
fn push_option(text: &mut String, name: &str, value: &str)
    ensures
        final(text)@ == old(text)@ + option_text(name@, value@),
{
    text.append(" \\\n  --");
    text.append(name);
    text.append(" ");
    text.append(value);
    assert(text@ =~= old(text)@ + option_text(name@, value@));
}

impl Config {
    /// The device, the zone and the effect, which every command line names.
    pub open spec fn required_text(self) -> Seq<char> {
        PROGRAM@ + " \\\n --device "@ + self.device.spec_name() + " \\\n --zone "@
            + self.zone.spec_name() + " \\\n --effect "@ + self.effect.spec_name()
    }

    /// The color and the brightest level, which matter to every effect but
    /// `Off`; full brightness goes without saying.
    pub open spec fn color_text(self) -> Seq<char> {
        option_text("color"@, self.color.spec_to_string()) + optional_text(
            self.max_brightness != Brightness(255),
            "max-brightness"@,
            self.max_brightness.spec_to_string(),
        )
    }

    /// The darkest level and the timings, which matter to effects that move;
    /// each is left out where it has its default value.
    pub open spec fn motion_text(self) -> Seq<char> {
        optional_text(
            self.min_brightness != Brightness(0),
            "min-brightness"@,
            self.min_brightness.spec_to_string(),
        ) + optional_text(
            self.fade_in_time != Duration(100),
            "fade-in-time"@,
            self.fade_in_time.spec_to_string(),
        ) + optional_text(
            self.fade_out_time != Duration(100),
            "fade-out-time"@,
            self.fade_out_time.spec_to_string(),
        ) + optional_text(
            self.hold_time != Duration(100),
            "hold-time"@,
            self.hold_time.spec_to_string(),
        )
    }

    /// The command line that applies this configuration again.
    pub open spec fn spec_to_string(self) -> Seq<char> {
        if self.effect == Effect::Off {
            self.required_text()
        } else if self.effect == Effect::Static {
            self.required_text() + self.color_text()
        } else {
            self.required_text() + self.color_text() + self.motion_text()
        }
    }

    /// Appends the color and the brightest level.
    fn push_color_text(&self, text: &mut String)
        ensures
            final(text)@ == old(text)@ + self.color_text(),
    {
        push_option(text, "color", self.color.to_string().as_str());
        let ghost colored = text@;

        if self.max_brightness != Brightness::max_value() {
            push_option(text, "max-brightness", self.max_brightness.to_string().as_str());
        }
        assert(text@ =~= colored + optional_text(
            self.max_brightness != Brightness(255),
            "max-brightness"@,
            self.max_brightness.spec_to_string(),
        ));
        assert(text@ =~= old(text)@ + self.color_text());
    }

    /// Appends the darkest level and the timings.
    fn push_motion_text(&self, text: &mut String)
        ensures
            final(text)@ == old(text)@ + self.motion_text(),
    {
        if self.min_brightness != Brightness::default() {
            push_option(text, "min-brightness", self.min_brightness.to_string().as_str());
        }
        let ghost first = optional_text(
            self.min_brightness != Brightness(0),
            "min-brightness"@,
            self.min_brightness.spec_to_string(),
        );
        assert(text@ =~= old(text)@ + first);

        if self.fade_in_time != Duration::default() {
            push_option(text, "fade-in-time", self.fade_in_time.to_string().as_str());
        }
        let ghost second = first + optional_text(
            self.fade_in_time != Duration(100),
            "fade-in-time"@,
            self.fade_in_time.spec_to_string(),
        );
        assert(text@ =~= old(text)@ + second);

        if self.fade_out_time != Duration::default() {
            push_option(text, "fade-out-time", self.fade_out_time.to_string().as_str());
        }
        let ghost third = second + optional_text(
            self.fade_out_time != Duration(100),
            "fade-out-time"@,
            self.fade_out_time.spec_to_string(),
        );
        assert(text@ =~= old(text)@ + third);

        if self.hold_time != Duration::default() {
            push_option(text, "hold-time", self.hold_time.to_string().as_str());
        }
        assert(text@ =~= old(text)@ + self.motion_text());
    }

    /// The command line that applies this configuration again.
    pub fn to_string(&self) -> (text: String)
        ensures
            text@ == self.spec_to_string(),
    {
        // Add all required parameters.
        let mut text = String::from_str(PROGRAM);
        text.append(" \\\n --device ");
        text.append(self.device.name());
        text.append(" \\\n --zone ");
        text.append(self.zone.name());
        text.append(" \\\n --effect ");
        text.append(self.effect.name());
        assert(text@ =~= self.required_text());

        // Omit everything if effect is `Off`.
        if self.effect == Effect::Off {
            return text;
        }
        self.push_color_text(&mut text);

        // Omit effect config if the color is configured to be static.
        if self.effect == Effect::Static {
            return text;
        }
        self.push_motion_text(&mut text);

        text
    }
}

/// What a command line said, once the user was asked for what it lacked.
#[derive(Debug)]
pub struct Cli {
    /// The device, as given or as asked for.
    pub device: RgbDevice,
    /// The zone, as given or as asked for.
    pub zone: Zone,
    /// The effect, as given or as asked for.
    pub effect: Effect,
    /// The color, as given or as asked for; it is not used where the effect
    /// is `Off`.
    pub color: Rgb,
    /// Whether the command line named a zone.
    pub has_zone: bool,
    /// Whether the command line named an effect.
    pub has_effect: bool,
    /// Whether the command line named a color.
    pub has_color: bool,
    /// The brightest level, as the command line wrote it.
    pub max_brightness: Option<String>,
    /// The darkest level, as the command line wrote it.
    pub min_brightness: Option<String>,
    /// The time to fade in, as the command line wrote it.
    pub fade_in_time: Option<String>,
    /// The time to fade out, as the command line wrote it.
    pub fade_out_time: Option<String>,
    /// The time to hold, as the command line wrote it.
    pub hold_time: Option<String>,
}

impl Brightness {
    /// The level that `text` stands for; this level where there is no text or
    /// the text stands for none.
    pub open spec fn spec_replace_from_str(self, text: Option<String>) -> Brightness {
        match text {
            Some(text) => match Brightness::spec_from_str(text@) {
                Ok(brightness) => brightness,
                Err(_) => self,
            },
            None => self,
        }
    }

    /// Replace the level with the one that `text` stands for, if there is one.
    pub fn replace_from_str(&mut self, text: &Option<String>)
        ensures
            *final(self) == old(self).spec_replace_from_str(*text),
    {
        if let Some(text) = text {
            if let Ok(brightness) = Brightness::from_str(text.as_str()) {
                *self = brightness;
            }
        }
    }
}

impl Duration {
    /// The duration that `text` stands for; this duration where there is no
    /// text or the text stands for none.
    pub open spec fn spec_replace_from_str(self, text: Option<String>) -> Duration {
        match text {
            Some(text) => match Duration::spec_from_str(text@) {
                Ok(duration) => duration,
                Err(_) => self,
            },
            None => self,
        }
    }

    /// Replace the duration with the one that `text` stands for, if there is
    /// one.
    pub fn replace_from_str(&mut self, text: &Option<String>)
        ensures
            *final(self) == old(self).spec_replace_from_str(*text),
    {
        if let Some(text) = text {
            if let Ok(duration) = Duration::from_str(text.as_str()) {
                *self = duration;
            }
        }
    }
}

impl Config {
    /// The configuration that a command line asks for. Its color is black
    /// where the effect is `Off`. It counts as made interactively where the
    /// command line lacked the zone, the effect, or a color that the effect
    /// needs. A level or a time that the command line does not name, or
    /// writes as no number within its range, keeps its default.
    pub open spec fn spec_from_cli(cli: Cli) -> Config {
        Config {
            device: cli.device,
            zone: cli.zone,
            effect: cli.effect,
            color: if cli.effect != Effect::Off {
                cli.color
            } else {
                Rgb { r: 0, g: 0, b: 0 }
            },
            interactive: !cli.has_zone || !cli.has_effect || (!cli.has_color && cli.effect
                != Effect::Off),
            max_brightness: Brightness(255).spec_replace_from_str(cli.max_brightness),
            min_brightness: Brightness(0).spec_replace_from_str(cli.min_brightness),
            fade_in_time: Duration(100).spec_replace_from_str(cli.fade_in_time),
            fade_out_time: Duration(100).spec_replace_from_str(cli.fade_out_time),
            hold_time: Duration(100).spec_replace_from_str(cli.hold_time),
        }
    }

    /// The configuration that a command line asks for.
    pub fn from_cli(cli: &Cli) -> (config: Config)
        ensures
            config == Config::spec_from_cli(*cli),
    {
        let mut config = Config::default();

        config.device = cli.device;
        config.zone = cli.zone;
        config.effect = cli.effect;

        if config.effect != Effect::Off {
            config.color = cli.color;
        }

        // Determine if some parameters had to be read from STDIN.
        config.interactive = !cli.has_zone || !cli.has_effect || (!cli.has_color && config.effect
            != Effect::Off);

        config.max_brightness.replace_from_str(&cli.max_brightness);
        config.min_brightness.replace_from_str(&cli.min_brightness);
        config.fade_in_time.replace_from_str(&cli.fade_in_time);
        config.fade_out_time.replace_from_str(&cli.fade_out_time);
        config.hold_time.replace_from_str(&cli.hold_time);

        config
    }
}

} // verus!
