//! ASUS ROG Strix X670E-F Aura control.

use crate::config::Config;
use crate::config::Effect;
use crate::config::Rgb;
use crate::config::Zone;
use crate::controller::HidController;
use crate::controller::UnsupportedFeature;
use crate::wire::buffer_bytes;
use crate::wire::buffer_new;
use crate::wire::copy_from_slice;
use crate::wire::freeze;
use crate::wire::packet_bytes;
use crate::wire::packets_bytes;
use crate::wire::put_slice;
use crate::wire::put_u8;
use bytes::Bytes;
use vstd::prelude::*;

verus! {

/// Mask of the three LED groups of the I/O shield.
pub const IO_MASK: u8 = 0x07;

/// Mask of the LED group at the CPU socket.
pub const CPU_MASK: u8 = 0x20;

/// Mask of the LED group at the GPU slot.
pub const GPU_MASK: u8 = 0x40;

/// The Aura controller of the ASUS ROG Strix X670E-F: it drives two zones,
/// knows every effect, keeps what it is sent across power cycles, and has no
/// notion of brightness or timing.
pub struct AsusRogStrixX670EF;

/// The code by which the chip knows an effect.
pub open spec fn spec_effect_bytes(effect: Effect) -> u8 {
    match effect {
        Effect::Off => 0,
        Effect::Static => 1,
        Effect::Pulse => 2,
        Effect::Flash => 3,
        Effect::Cycle => 4,
        Effect::Rainbow => 5,
        Effect::ChaseFade => 6,
        Effect::Chase => 7,
    }
}

/// The code by which the chip knows a zone; it drives the I/O zone and the
/// header zone only.
pub open spec fn spec_zone_bytes(zone: Zone) -> Result<u8, UnsupportedFeature> {
    match zone {
        Zone::Io => Ok(0x00u8),
        Zone::Header0 => Ok(0x01u8),
        _ => Err(UnsupportedFeature::Zone(zone)),
    }
}

/// The mask of the LED groups that take the color of a zone: the I/O groups
/// for the I/O zone, the CPU and GPU groups for the header zone.
pub open spec fn spec_zone_mask(zone: Zone) -> Result<u8, UnsupportedFeature> {
    match zone {
        Zone::Io => Ok(0x07u8),
        Zone::Header0 => Ok(0x60u8),
        _ => Err(UnsupportedFeature::Zone(zone)),
    }
}

/// The packet that selects the effect of a zone.
pub open spec fn effect_packet(zone: u8, effect: u8) -> Seq<u8> {
    seq![0xecu8, 0x35, zone, 0x00, 0x00, effect]
}

/// The packet that sets the color of the LED groups under `mask`: the color
/// for each of the three motherboard groups, six bytes of padding, then the
/// color for the CPU group and for the GPU group.
pub open spec fn color_packet(mask: u8, color: Rgb) -> Seq<u8> {
    seq![
        0xecu8, 0x36, 0x00, mask, 0x00,
        color.r, color.g, color.b,
        color.r, color.g, color.b,
        color.r, color.g, color.b,
        0, 0, 0, 0, 0, 0,
        color.r, color.g, color.b,
        color.r, color.g, color.b,
    ]
}

/// The color `count` times in a row, each time as red, green, blue.
spec fn color_run(color: Rgb, count: nat) -> Seq<u8>
    decreases count,
{
    if count == 0 {
        Seq::empty()
    } else {
        color_run(color, (count - 1) as nat) + seq![color.r, color.g, color.b]
    }
}

/// The packet that makes the chip keep its settings across power cycles.
pub open spec fn commit_packet() -> Seq<u8> {
    seq![0xecu8, 0x3f, 0x55]
}

/// The bytes of the color packet for a zone, if the chip drives the zone.
pub open spec fn spec_color_bytes(zone: Zone, color: Rgb) -> Result<Seq<u8>, UnsupportedFeature> {
    match spec_zone_mask(zone) {
        Ok(mask) => Ok(color_packet(mask, color)),
        Err(unsupported) => Err(unsupported),
    }
}

/// What a color packet holds, or why there is none.
pub open spec fn color_bytes_view(packet: Result<Bytes, UnsupportedFeature>) -> Result<
    Seq<u8>,
    UnsupportedFeature,
> {
    match packet {
        Ok(packet) => Ok(packet_bytes(packet)),
        Err(unsupported) => Err(unsupported),
    }
}

/// The three packets that apply a configuration: effect, color, commit.
pub open spec fn spec_config_packets(config: Config) -> Result<Seq<Seq<u8>>, UnsupportedFeature> {
    match (spec_zone_bytes(config.zone), spec_zone_mask(config.zone)) {
        (Ok(zone), Ok(mask)) => Ok(
            seq![
                effect_packet(zone, spec_effect_bytes(config.effect)),
                color_packet(mask, config.color),
                commit_packet(),
            ],
        ),
        _ => Err(UnsupportedFeature::Zone(config.zone)),
    }
}

/// The chip has no fields for brightness and timings: configurations that
/// agree on zone, effect and color are encoded alike.
pub proof fn lemma_brightness_and_timings_ignored(first: Config, second: Config)
    requires
        first.zone == second.zone,
        first.effect == second.effect,
        first.color == second.color,
    ensures
        spec_config_packets(first) == spec_config_packets(second),
{
}

/// An encoding holds three packets, the last of which is the commit packet.
pub proof fn lemma_commit_is_last(config: Config)
    ensures
        spec_config_packets(config) matches Ok(packets) ==> packets.len() == 3 && packets[2]
            == commit_packet(),
        spec_config_packets(config) is Ok <==> config.zone == Zone::Io || config.zone
            == Zone::Header0,
{
}

impl HidController for AsusRogStrixX670EF {
    open spec fn spec_vendor_id(&self) -> u16 {
        0x0B05
    }

    open spec fn spec_product_id(&self) -> u16 {
        0x19AF
    }

    open spec fn spec_config_bytes(&self, config: Config) -> Result<
        Seq<Seq<u8>>,
        UnsupportedFeature,
    > {
        spec_config_packets(config)
    }

    fn vendor_id(&self) -> (id: u16) {
        0x0B05
    }

    fn product_id(&self) -> (id: u16) {
        0x19AF
    }

    fn config_bytes(&self, config: &Config) -> (encoding: Result<Vec<Bytes>, UnsupportedFeature>) {
        let effect = effect_bytes(config.effect);
        let zone = match zone_bytes(config.zone) {
            Ok(zone) => zone,
            Err(unsupported) => return Err(unsupported),
        };

        // Set LED effect.
        let effect_bytes = copy_from_slice(&[0xec, 0x35, zone, 0x00, 0x00, effect]);

        // Set LED color.
        let color_bytes = match color_bytes(config.zone, config.color) {
            Ok(color_bytes) => color_bytes,
            Err(unsupported) => return Err(unsupported),
        };

        // Commit to persist across reboots.
        let commit_bytes = copy_from_slice(&[0xec, 0x3f, 0x55]);

        let mut packets = Vec::new();
        packets.push(effect_bytes);
        packets.push(color_bytes);
        packets.push(commit_bytes);
        assert(packets_bytes(packets@) =~= spec_config_packets(*config)->Ok_0);
        Ok(packets)
    }
}

/// Convert effect type to ASUS Aura format.
pub fn effect_bytes(effect: Effect) -> (code: u8)
    ensures
        code == spec_effect_bytes(effect),
{
    match effect {
        Effect::Off => 0,
        Effect::Static => 1,
        Effect::Pulse => 2,
        Effect::Flash => 3,
        Effect::Cycle => 4,
        Effect::Rainbow => 5,
        Effect::ChaseFade => 6,
        Effect::Chase => 7,
    }
}

/// Convert zone to ASUS Aura format.
pub fn zone_bytes(zone: Zone) -> (code: Result<u8, UnsupportedFeature>)
    ensures
        code == spec_zone_bytes(zone),
{
    match zone {
        Zone::Io => Ok(0x00),
        Zone::Header0 => Ok(0x01),
        zone => Err(UnsupportedFeature::Zone(zone)),
    }
}

/// Convert zone to ASUS Aura format mask.
pub fn zone_mask(zone: Zone) -> (mask: Result<u8, UnsupportedFeature>)
    ensures
        mask == spec_zone_mask(zone),
{
    assert(CPU_MASK | GPU_MASK == 0x60) by (bit_vector);
    match zone {
        Zone::Io => Ok(IO_MASK),
        Zone::Header0 => Ok(CPU_MASK | GPU_MASK),
        zone => Err(UnsupportedFeature::Zone(zone)),
    }
}

/// Convert color to ASUS Aura format.
pub fn color_bytes(zone: Zone, color: Rgb) -> (packet: Result<Bytes, UnsupportedFeature>)
    ensures
        color_bytes_view(packet) == spec_color_bytes(zone, color),
{
    let mut buf = buffer_new();

    // Set mask for selecting target LEDs.
    let mask = match zone_mask(zone) {
        Ok(mask) => mask,
        Err(unsupported) => return Err(unsupported),
    };
    put_slice(&mut buf, &[0xec, 0x36, 0x00, mask, 0x00]);

    // Motherboard colors.
    for count in 0..3
        invariant
            buffer_bytes(buf) == seq![0xecu8, 0x36, 0x00, mask, 0x00] + color_run(
                color,
                count as nat,
            ),
            color_run(color, count as nat).len() == 3 * count,
    {
        put_u8(&mut buf, color.r);
        put_u8(&mut buf, color.g);
        put_u8(&mut buf, color.b);
    }
    proof {
        reveal_with_fuel(color_run, 4);
    }

    // Padding.
    put_slice(&mut buf, &[0x00, 0x00, 0x00, 0x00, 0x00, 0x00]);

    // CPU color.
    put_u8(&mut buf, color.r);
    put_u8(&mut buf, color.g);
    put_u8(&mut buf, color.b);

    // GPU color.
    put_u8(&mut buf, color.r);
    put_u8(&mut buf, color.g);
    put_u8(&mut buf, color.b);

    assert(buffer_bytes(buf) =~= color_packet(mask, color));
    Ok(freeze(buf))
}

} // verus!
