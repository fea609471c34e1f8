//! Gigabyte TRX40 Aorus Master RGB Fusion control.

use crate::config::Brightness;
use crate::config::Config;
use crate::config::Duration;
use crate::config::Effect;
use crate::config::Zone;
use crate::controller::HidController;
use crate::controller::UnsupportedFeature;
use crate::wire::as_slice;
use crate::wire::be_bytes;
use crate::wire::buffer_bytes;
use crate::wire::buffer_new;
use crate::wire::buffer_with_capacity;
use crate::wire::copy_from_slice;
use crate::wire::freeze;
use crate::wire::packet_bytes;
use crate::wire::packets_bytes;
use crate::wire::put_slice;
use crate::wire::put_u16;
use crate::wire::put_u8;
use bytes::Bytes;
use vstd::prelude::*;

verus! {

/// The RGB Fusion controller of the Gigabyte TRX40 Aorus Master: it drives
/// every zone, knows five effects, and applies a configuration once it is
/// told to.
pub struct GigabyteTrx40AorusMaster;

/// A duration in the chip's unit, the quarter second, rounded toward zero.
pub open spec fn ticks(duration: Duration) -> u16 {
    (duration.0 / 250) as u16
}

/// A brightness on the chip's scale, which ends at 90, rounded toward zero.
pub open spec fn scaled(brightness: Brightness) -> u8 {
    (90 * brightness.0 / 255) as u8
}

/// Scaling a brightness rounds `90 * brightness / 255` toward zero, so none
/// leaves the chip's scale: darkness stays 0 and full intensity becomes 90.
pub proof fn lemma_scaled_is_floor(brightness: Brightness)
    ensures
        scaled(brightness) == 90 * brightness.0 / 255,
        255 * scaled(brightness) <= 90 * brightness.0 < 255 * (scaled(brightness) + 1),
        scaled(brightness) <= 90,
        brightness.0 == 0 ==> scaled(brightness) == 0,
        brightness.0 == 255 ==> scaled(brightness) == 90,
{
}

/// Counting ticks rounds `duration / 250` toward zero: a duration shorter
/// than one tick counts as none.
pub proof fn lemma_ticks_is_floor(duration: Duration)
    ensures
        ticks(duration) == duration.0 / 250,
        250 * ticks(duration) <= duration.0 < 250 * (ticks(duration) + 1),
        ticks(duration) <= 262,
        duration.0 < 250 ==> ticks(duration) == 0,
{
}

/// The code by which the chip knows an effect; it knows five.
pub open spec fn spec_effect_bytes(effect: Effect) -> Result<u8, UnsupportedFeature> {
    match effect {
        Effect::Off => Ok(0u8),
        Effect::Static => Ok(1u8),
        Effect::Pulse => Ok(2u8),
        Effect::Flash => Ok(3u8),
        Effect::Cycle => Ok(4u8),
        _ => Err(UnsupportedFeature::Effect(effect)),
    }
}

/// The address of a zone.
pub open spec fn spec_zone_bytes(zone: Zone) -> u16 {
    match zone {
        Zone::Io => 0x2001,
        Zone::Cpu => 0x2102,
        Zone::Audio => 0x2308,
        Zone::Chipset => 0x2410,
        Zone::Header0 => 0x2520,
        Zone::Header1 => 0x2640,
    }
}

/// The packet that carries a configuration with a supported effect, whose
/// code is `effect`.
pub open spec fn config_packet(config: Config, effect: u8) -> Seq<u8> {
    let zone = be_bytes(spec_zone_bytes(config.zone));
    let fade_in = be_bytes(ticks(config.fade_in_time));
    let fade_out = be_bytes(ticks(config.fade_out_time));
    let hold = be_bytes(ticks(config.hold_time));
    seq![
        // Report ID, zone address, padding.
        0xccu8, zone[0], zone[1], 0, 0, 0, 0, 0, 0, 0, 0,
        // Effect, then the brightest and the darkest level.
        effect, scaled(config.max_brightness), scaled(config.min_brightness),
        // Primary color in blue, green, red order, padding.
        config.color.b, config.color.g, config.color.r, 0,
        // Secondary color, never set, padding.
        0, 0, 0, 0,
        // Effect timings.
        fade_in[0], fade_in[1], fade_out[0], fade_out[1], hold[0], hold[1],
        // Padding up to the smallest packet that the chip takes.
        0, 0, 0,
    ]
}

/// Where each field stands in the configuration packet: the packet has 31
/// bytes, the color stands at 14 in blue, green, red order, the secondary
/// color stays zero, and each timing stands most significant byte first.
pub proof fn lemma_config_packet_layout(config: Config, effect: u8)
    ensures
        config_packet(config, effect).len() == 31,
        config_packet(config, effect)[0] == 0xcc,
        config_packet(config, effect).subrange(1, 3) == be_bytes(spec_zone_bytes(config.zone)),
        config_packet(config, effect).subrange(3, 11) == seq![0u8, 0, 0, 0, 0, 0, 0, 0],
        config_packet(config, effect)[11] == effect,
        config_packet(config, effect)[12] == scaled(config.max_brightness),
        config_packet(config, effect)[13] == scaled(config.min_brightness),
        config_packet(config, effect).subrange(14, 17) == seq![
            config.color.b,
            config.color.g,
            config.color.r,
        ],
        config_packet(config, effect).subrange(17, 22) == seq![0u8, 0, 0, 0, 0],
        config_packet(config, effect).subrange(22, 24) == be_bytes(ticks(config.fade_in_time)),
        config_packet(config, effect).subrange(24, 26) == be_bytes(ticks(config.fade_out_time)),
        config_packet(config, effect).subrange(26, 28) == be_bytes(ticks(config.hold_time)),
        config_packet(config, effect).subrange(28, 31) == seq![0u8, 0, 0],
{
}

/// The packet that makes the chip apply the configuration it was sent.
pub open spec fn apply_packet() -> Seq<u8> {
    seq![0xccu8, 0x28, 0xff, 0, 0, 0, 0, 0, 0, 0, 0, 0, 0, 0, 0, 0, 0, 0, 0, 0, 0, 0, 0]
}

/// The two packets that apply a configuration: the configuration itself,
/// then the request to apply it.
pub open spec fn spec_config_packets(config: Config) -> Result<Seq<Seq<u8>>, UnsupportedFeature> {
    match spec_effect_bytes(config.effect) {
        Ok(effect) => Ok(seq![config_packet(config, effect), apply_packet()]),
        Err(unsupported) => Err(unsupported),
    }
}

/// An encoding holds the configuration packet and then the apply packet,
/// whatever the configuration; there is one for each of the five effects
/// that the chip knows, and for no other.
pub proof fn lemma_apply_is_last(config: Config)
    ensures
        spec_config_packets(config) matches Ok(packets) ==> packets.len() == 2 && packets[1]
            == apply_packet(),
        spec_config_packets(config) is Ok <==> config.effect == Effect::Off || config.effect
            == Effect::Static || config.effect == Effect::Pulse || config.effect == Effect::Flash
            || config.effect == Effect::Cycle,
        apply_packet().len() == 23,
{
}

impl HidController for GigabyteTrx40AorusMaster {
    open spec fn spec_vendor_id(&self) -> u16 {
        0x048d
    }

    open spec fn spec_product_id(&self) -> u16 {
        0x8297
    }

    open spec fn spec_config_bytes(&self, config: Config) -> Result<
        Seq<Seq<u8>>,
        UnsupportedFeature,
    > {
        spec_config_packets(config)
    }

    fn vendor_id(&self) -> (id: u16) {
        0x048d
    }

    fn product_id(&self) -> (id: u16) {
        0x8297
    }

    fn config_bytes(&self, config: &Config) -> (encoding: Result<Vec<Bytes>, UnsupportedFeature>) {
        let mut buf = buffer_new();

        // Report ID.
        put_u8(&mut buf, 0xcc);

        // RGB Zone.
        put_u16(&mut buf, zone_bytes(config.zone));

        // Padding.
        put_slice(&mut buf, &[0, 0, 0, 0, 0, 0, 0, 0]);

        // Effect.
        let effect = match effect_bytes(config.effect) {
            Ok(effect) => effect,
            Err(unsupported) => return Err(unsupported),
        };
        put_u8(&mut buf, effect);

        // Max Brightness.
        put_slice(&mut buf, as_slice(&brightness_bytes(config.max_brightness)));

        // Min Brightness.
        put_slice(&mut buf, as_slice(&brightness_bytes(config.min_brightness)));
        assert(buffer_bytes(buf) =~= config_packet(*config, effect).subrange(0, 14));

        // Primary color Data.
        put_u8(&mut buf, config.color.b);
        put_u8(&mut buf, config.color.g);
        put_u8(&mut buf, config.color.r);

        // Padding.
        put_u8(&mut buf, 0);

        // Secondary color Data.
        put_slice(&mut buf, &[0, 0, 0]);

        // Padding.
        put_u8(&mut buf, 0);
        assert(buffer_bytes(buf) =~= config_packet(*config, effect).subrange(0, 22));

        // Color effect timings.
        put_slice(&mut buf, as_slice(&duration_bytes(config.fade_in_time)));
        put_slice(&mut buf, as_slice(&duration_bytes(config.fade_out_time)));
        put_slice(&mut buf, as_slice(&duration_bytes(config.hold_time)));

        // Padding for minimum packet size.
        put_slice(&mut buf, &[0, 0, 0]);
        assert(buffer_bytes(buf) =~= config_packet(*config, effect));

        let mut packets = Vec::new();
        packets.push(freeze(buf));
        packets.push(apply_bytes());
        assert(packets_bytes(packets@) =~= seq![config_packet(*config, effect), apply_packet()]);
        Ok(packets)
    }
}

/// Packet to apply the submitted configuration.
fn apply_bytes() -> (bytes: Bytes)
    ensures
        packet_bytes(bytes) == apply_packet(),
{
    let mut buf = buffer_new();
    put_u8(&mut buf, 0xcc);
    put_u8(&mut buf, 0x28);
    put_u8(&mut buf, 0xff);
    put_slice(&mut buf, &[0, 0, 0, 0, 0, 0, 0, 0, 0, 0, 0, 0, 0, 0, 0, 0, 0, 0, 0, 0]);
    assert(buffer_bytes(buf) =~= apply_packet());
    freeze(buf)
}

/// Convert duration to RGB Fusion format.
pub fn duration_bytes(duration: Duration) -> (bytes: Bytes)
    ensures
        packet_bytes(bytes) == be_bytes(ticks(duration)),
{
    let mut bytes = buffer_with_capacity(2);

    // Convert from milliseconds to quarter seconds.
    put_u16(&mut bytes, duration.0 / 250);

    freeze(bytes)
}

/// Convert brightness to RGB Fusion format.
pub fn brightness_bytes(brightness: Brightness) -> (bytes: Bytes)
    ensures
        packet_bytes(bytes) == seq![scaled(brightness)],
{
    // Convert format from 0..=255 to the protocol's range 0..=90.
    let byte = (0x5a * brightness.0 as u16 / u8::MAX as u16) as u8;
    copy_from_slice(&[byte])
}

/// Convert effect type to RGB Fusion format.
pub fn effect_bytes(effect: Effect) -> (code: Result<u8, UnsupportedFeature>)
    ensures
        code == spec_effect_bytes(effect),
{
    match effect {
        Effect::Off => Ok(0),
        Effect::Static => Ok(1),
        Effect::Pulse => Ok(2),
        Effect::Flash => Ok(3),
        Effect::Cycle => Ok(4),
        effect => Err(UnsupportedFeature::Effect(effect)),
    }
}

/// Convert zone to RGB Fusion format.
pub fn zone_bytes(zone: Zone) -> (address: u16)
    ensures
        address == spec_zone_bytes(zone),
{
    match zone {
        Zone::Io => 0x2001,
        Zone::Cpu => 0x2102,
        Zone::Audio => 0x2308,
        Zone::Chipset => 0x2410,
        Zone::Header0 => 0x2520,
        Zone::Header1 => 0x2640,
    }
}

} // verus!
