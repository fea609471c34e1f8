//! RGB controller abstraction.

use crate::asus_strix_x670e_f::AsusRogStrixX670EF;
use crate::config::Config;
use crate::config::Effect;
use crate::config::RgbDevice;
use crate::config::Zone;
use crate::gigabyte_trx40_aorus_master::GigabyteTrx40AorusMaster;
use crate::wire::packet_bytes;
use crate::wire::packets_bytes;
use bytes::Bytes;
use vstd::prelude::*;

verus! {

/// A request that a controller chip cannot represent.
#[derive(Debug, Copy, Clone, PartialEq, Eq, Structural)]
pub enum UnsupportedFeature {
    /// The chip does not drive this zone.
    Zone(Zone),
    /// The chip does not know this effect.
    Effect(Effect),
}

/// What an encoding holds: on success the bytes of each packet, in order.
pub open spec fn encoding_bytes(encoding: Result<Vec<Bytes>, UnsupportedFeature>) -> Result<
    Seq<Seq<u8>>,
    UnsupportedFeature,
> {
    match encoding {
        Ok(packets) => Ok(packets_bytes(packets@)),
        Err(unsupported) => Err(unsupported),
    }
}

/// HID RGB controller.
pub trait HidController {
    /// HID vendor ID.
    spec fn spec_vendor_id(&self) -> u16;

    /// HID product ID.
    spec fn spec_product_id(&self) -> u16;

    /// The packets that apply `config`, in the order in which they are to be
    /// written, or the feature of `config` that the chip lacks.
    spec fn spec_config_bytes(&self, config: Config) -> Result<Seq<Seq<u8>>, UnsupportedFeature>;

    /// HID vendor ID.
    fn vendor_id(&self) -> (id: u16)
        ensures
            id == self.spec_vendor_id(),
    ;

    /// HID product ID.
    fn product_id(&self) -> (id: u16)
        ensures
            id == self.spec_product_id(),
    ;

    /// Convert RGB config to controller-specific bytes.
    fn config_bytes(&self, config: &Config) -> (encoding: Result<Vec<Bytes>, UnsupportedFeature>)
        ensures
            encoding_bytes(encoding) == self.spec_config_bytes(*config),
    ;
}

/// The controller of one of the supported devices.
pub enum Controller {
    X670EF(AsusRogStrixX670EF),
    Trx40(GigabyteTrx40AorusMaster),
}

impl HidController for Controller {
    open spec fn spec_vendor_id(&self) -> u16 {
        match self {
            Controller::X670EF(controller) => controller.spec_vendor_id(),
            Controller::Trx40(controller) => controller.spec_vendor_id(),
        }
    }

    open spec fn spec_product_id(&self) -> u16 {
        match self {
            Controller::X670EF(controller) => controller.spec_product_id(),
            Controller::Trx40(controller) => controller.spec_product_id(),
        }
    }

    open spec fn spec_config_bytes(&self, config: Config) -> Result<
        Seq<Seq<u8>>,
        UnsupportedFeature,
    > {
        match self {
            Controller::X670EF(controller) => controller.spec_config_bytes(config),
            Controller::Trx40(controller) => controller.spec_config_bytes(config),
        }
    }

    fn vendor_id(&self) -> (id: u16) {
        match self {
            Controller::X670EF(controller) => controller.vendor_id(),
            Controller::Trx40(controller) => controller.vendor_id(),
        }
    }

    fn product_id(&self) -> (id: u16) {
        match self {
            Controller::X670EF(controller) => controller.product_id(),
            Controller::Trx40(controller) => controller.product_id(),
        }
    }

    fn config_bytes(&self, config: &Config) -> (encoding: Result<Vec<Bytes>, UnsupportedFeature>) {
        match self {
            Controller::X670EF(controller) => controller.config_bytes(config),
            Controller::Trx40(controller) => controller.config_bytes(config),
        }
    }
}

impl RgbDevice {
    /// The controller that drives a device.
    pub open spec fn spec_controller(&self) -> Controller {
        match self {
            RgbDevice::Trx40 => Controller::Trx40(GigabyteTrx40AorusMaster),
            RgbDevice::X670EF => Controller::X670EF(AsusRogStrixX670EF),
        }
    }

    /// Get RGB controller for a device.
    pub fn controller(&self) -> (controller: Controller)
        ensures
            controller == self.spec_controller(),
    {
        match self {
            Self::Trx40 => Controller::Trx40(GigabyteTrx40AorusMaster),
            Self::X670EF => Controller::X670EF(AsusRogStrixX670EF),
        }
    }
}

/// Encoding is a function of the controller and the configuration: two
/// encodings of one configuration by one controller hold the same packets,
/// byte for byte, or name the same unsupported feature.
pub proof fn lemma_config_bytes_deterministic<C: HidController>(
    controller: C,
    config: Config,
    first: Result<Vec<Bytes>, UnsupportedFeature>,
    second: Result<Vec<Bytes>, UnsupportedFeature>,
)
    requires
        encoding_bytes(first) == controller.spec_config_bytes(config),
        encoding_bytes(second) == controller.spec_config_bytes(config),
    ensures
        encoding_bytes(first) == encoding_bytes(second),
        first is Err ==> second is Err && first->Err_0 == second->Err_0,
        first is Ok ==> second is Ok && first->Ok_0@.len() == second->Ok_0@.len(),
        first is Ok ==> forall|i: int|
            0 <= i < first->Ok_0@.len() ==> packet_bytes(#[trigger] first->Ok_0@[i])
                == packet_bytes(second->Ok_0@[i]),
{
    if let Ok(packets) = first {
        let others = second->Ok_0;
        assert(packets_bytes(packets@).len() == packets@.len());
        assert(packets_bytes(others@).len() == others@.len());
        assert forall|i: int| 0 <= i < packets@.len() implies packet_bytes(#[trigger] packets@[i])
            == packet_bytes(others@[i]) by {
            assert(packets_bytes(packets@)[i] == packet_bytes(packets@[i]));
            assert(packets_bytes(others@)[i] == packet_bytes(others@[i]));
        }
    }
}

} // verus!
