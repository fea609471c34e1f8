use rgbfusion::config::{Config, Effect, RgbDevice, Zone};
use rgbfusion::controller::{HidController, UnsupportedFeature};
use rgbfusion::transfer::{Action, Error, Reply, Transfer};

/// What an endpoint saw of a transfer.
#[derive(Debug, Default, PartialEq, Eq)]
struct Seen {
    opened: Vec<(u16, u16)>,
    written: Vec<Vec<u8>>,
}

/// Runs a transfer against an endpoint that opens or not, and fails the
/// write at `failing`, if any.
fn run(config: Config, opens: bool, failing: Option<usize>) -> (Seen, Result<(), Error>) {
    let mut seen = Seen::default();
    let (mut transfer, mut action) = Transfer::begin(config);
    loop {
        let reply = match action {
            Action::Open { vendor_id, product_id } => {
                seen.opened.push((vendor_id, product_id));
                if opens {
                    Reply::Done
                } else {
                    Reply::Failed
                }
            }
            Action::Write(packet) => {
                let index = seen.written.len();
                seen.written.push(packet.to_vec());
                if failing == Some(index) {
                    Reply::Failed
                } else {
                    Reply::Done
                }
            }
            Action::Finish(outcome) => return (seen, outcome),
        };
        (transfer, action) = transfer.step(reply);
    }
}

fn encoded(config: &Config) -> Vec<Vec<u8>> {
    let packets = config.device.controller().config_bytes(config).unwrap();
    packets.iter().map(|packet| packet.to_vec()).collect()
}

#[test]
fn begins_by_opening_the_device() {
    let (_, action) = Transfer::begin(Config { device: RgbDevice::Trx40, ..Config::default() });
    assert_eq!(action, Action::Open { vendor_id: 0x048d, product_id: 0x8297 });
    let (_, action) = Transfer::begin(Config { device: RgbDevice::X670EF, ..Config::default() });
    assert_eq!(action, Action::Open { vendor_id: 0x0B05, product_id: 0x19AF });
}

#[test]
fn writes_every_packet_in_order() {
    for device in [RgbDevice::X670EF, RgbDevice::Trx40] {
        let config = Config { device, ..Config::default() };
        let (seen, outcome) = run(config, true, None);
        assert_eq!(outcome, Ok(()));
        assert_eq!(seen.opened.len(), 1);
        assert_eq!(seen.written, encoded(&config));
    }
}

#[test]
fn open_failure_writes_nothing() {
    let (seen, outcome) = run(Config::default(), false, None);
    assert_eq!(outcome, Err(Error::TransportUnavailable));
    assert_eq!(seen.opened, vec![(0x0B05, 0x19AF)]);
    assert!(seen.written.is_empty());
}

#[test]
fn open_failure_comes_before_unsupported_feature() {
    let config = Config { zone: Zone::Audio, ..Config::default() };
    let (seen, outcome) = run(config, false, None);
    assert_eq!(outcome, Err(Error::TransportUnavailable));
    assert!(seen.written.is_empty());
}

#[test]
fn unsupported_zone_writes_nothing() {
    let config = Config { device: RgbDevice::X670EF, zone: Zone::Audio, ..Config::default() };
    let (seen, outcome) = run(config, true, None);
    assert_eq!(outcome, Err(Error::UnsupportedFeature(UnsupportedFeature::Zone(Zone::Audio))));
    assert_eq!(seen.opened.len(), 1);
    assert!(seen.written.is_empty());
}

#[test]
fn unsupported_effect_writes_nothing() {
    let config = Config { device: RgbDevice::Trx40, effect: Effect::Chase, ..Config::default() };
    let (seen, outcome) = run(config, true, None);
    assert_eq!(
        outcome,
        Err(Error::UnsupportedFeature(UnsupportedFeature::Effect(Effect::Chase)))
    );
    assert!(seen.written.is_empty());
}

#[test]
fn second_write_failure_stops_before_the_third() {
    let config = Config { device: RgbDevice::X670EF, ..Config::default() };
    let (seen, outcome) = run(config, true, Some(1));
    assert_eq!(outcome, Err(Error::TransportWriteFailed { index: 1 }));
    assert_eq!(seen.written, encoded(&config)[..2].to_vec());
}

#[test]
fn first_write_failure_stops_at_once() {
    let config = Config { device: RgbDevice::Trx40, ..Config::default() };
    let (seen, outcome) = run(config, true, Some(0));
    assert_eq!(outcome, Err(Error::TransportWriteFailed { index: 0 }));
    assert_eq!(seen.written, encoded(&config)[..1].to_vec());
}

#[test]
fn last_write_failure_is_reported() {
    let config = Config { device: RgbDevice::X670EF, ..Config::default() };
    let (seen, outcome) = run(config, true, Some(2));
    assert_eq!(outcome, Err(Error::TransportWriteFailed { index: 2 }));
    assert_eq!(seen.written, encoded(&config));
}

#[test]
fn finished_transfer_stays_finished() {
    let (transfer, _) = Transfer::begin(Config::default());
    let (transfer, action) = transfer.step(Reply::Failed);
    assert_eq!(action, Action::Finish(Err(Error::TransportUnavailable)));
    let (transfer, action) = transfer.step(Reply::Done);
    assert_eq!(action, Action::Finish(Err(Error::TransportUnavailable)));
    let (_, action) = transfer.step(Reply::Failed);
    assert_eq!(action, Action::Finish(Err(Error::TransportUnavailable)));
}

#[test]
fn steps_of_a_good_transfer() {
    let config = Config { device: RgbDevice::Trx40, ..Config::default() };
    let packets = encoded(&config);
    let (transfer, _) = Transfer::begin(config);
    let (transfer, action) = transfer.step(Reply::Done);
    assert!(matches!(&action, Action::Write(packet) if packet[..] == packets[0][..]));
    let (transfer, action) = transfer.step(Reply::Done);
    assert!(matches!(&action, Action::Write(packet) if packet[..] == packets[1][..]));
    let (transfer, action) = transfer.step(Reply::Done);
    assert_eq!(action, Action::Finish(Ok(())));
    let (_, action) = transfer.step(Reply::Done);
    assert_eq!(action, Action::Finish(Ok(())));
}
