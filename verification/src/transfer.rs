//! Writing a configuration to the HID bus, one step at a time.
//!
//! The library never touches a device. A [`Transfer`] says what is to be done
//! next, as an [`Action`]; its driver does it and reports how the endpoint
//! answered, as a [`Reply`]. The device is opened first, the configuration is
//! encoded next, and its packets are written in order until one fails.

use crate::config::Config;
use crate::controller::HidController;
use crate::controller::UnsupportedFeature;
use crate::wire::packet_bytes;
use crate::wire::packets_bytes;
use bytes::Bytes;
use vstd::prelude::*;

verus! {

/// Why a configuration was not applied.
#[derive(Debug, Copy, Clone, PartialEq, Eq, Structural)]
pub enum Error {
    /// The controller cannot represent the configuration; nothing was written.
    UnsupportedFeature(UnsupportedFeature),
    /// The device could not be opened; nothing was written.
    TransportUnavailable,
    /// Writing the packet at `index` failed; the packets before it were
    /// written, those after it were not attempted.
    TransportWriteFailed { index: usize },
}

/// How the endpoint answered the last action.
#[derive(Debug, Copy, Clone, PartialEq, Eq, Structural)]
pub enum Reply {
    Done,
    Failed,
}

/// What the driver of a transfer is to do next.
#[derive(Debug, PartialEq, Eq)]
pub enum Action {
    /// Open the device with these HID identifiers.
    Open { vendor_id: u16, product_id: u16 },
    /// Write this packet to the opened device.
    Write(Bytes),
    /// Stop: the transfer ended with this outcome.
    Finish(Result<(), Error>),
}

/// An action, with the bytes of the packet in place of the packet.
pub enum ActionView {
    Open { vendor_id: u16, product_id: u16 },
    Write(Seq<u8>),
    Finish(Result<(), Error>),
}

impl View for Action {
    type V = ActionView;

    open spec fn view(&self) -> ActionView {
        match self {
            Action::Open { vendor_id, product_id } => ActionView::Open {
                vendor_id: *vendor_id,
                product_id: *product_id,
            },
            Action::Write(packet) => ActionView::Write(packet_bytes(*packet)),
            Action::Finish(outcome) => ActionView::Finish(*outcome),
        }
    }
}

/// The state of a transfer.
pub enum TransferView {
    /// The device is being opened; nothing was encoded yet.
    Opening { config: Config },
    /// The packet at `index` is being written; `pending` come after it.
    Writing { pending: Seq<Seq<u8>>, index: usize },
    /// The transfer ended.
    Finished { outcome: Result<(), Error> },
}

impl TransferView {
    /// The state in which a transfer of `config` begins.
    pub open spec fn initial(config: Config) -> TransferView {
        TransferView::Opening { config }
    }

    /// The action with which a transfer of `config` begins: open the device
    /// that the configuration names.
    pub open spec fn first_action(config: Config) -> ActionView {
        ActionView::Open {
            vendor_id: config.device.spec_controller().spec_vendor_id(),
            product_id: config.device.spec_controller().spec_product_id(),
        }
    }

    /// Ends the transfer with `outcome`.
    pub open spec fn finish(outcome: Result<(), Error>) -> (TransferView, ActionView) {
        (TransferView::Finished { outcome }, ActionView::Finish(outcome))
    }

    /// Goes on to the first of `packets`, which has the place `index` among
    /// all packets of the transfer, or ends the transfer if none is left.
    pub open spec fn proceed(packets: Seq<Seq<u8>>, index: usize) -> (TransferView, ActionView) {
        if packets.len() == 0 {
            TransferView::finish(Ok(()))
        } else {
            (
                TransferView::Writing { pending: packets.drop_first(), index },
                ActionView::Write(packets[0]),
            )
        }
    }

    /// The state that follows `self` on `reply`, and the action to take then.
    pub open spec fn step(self, reply: Reply) -> (TransferView, ActionView) {
        match self {
            TransferView::Opening { config } => match reply {
                Reply::Failed => TransferView::finish(Err(Error::TransportUnavailable)),
                Reply::Done => match config.device.spec_controller().spec_config_bytes(config) {
                    Err(unsupported) => TransferView::finish(
                        Err(Error::UnsupportedFeature(unsupported)),
                    ),
                    Ok(packets) => TransferView::proceed(packets, 0),
                },
            },
            TransferView::Writing { pending, index } => match reply {
                Reply::Failed => TransferView::finish(Err(Error::TransportWriteFailed { index })),
                Reply::Done => TransferView::proceed(pending, (index + 1) as usize),
            },
            TransferView::Finished { outcome } => TransferView::finish(outcome),
        }
    }
}

/// How far a transfer has come.
enum Stage {
    /// The device is being opened.
    Opening(Config),
    /// A packet is being written: those that come after it, and its index.
    Writing(Vec<Bytes>, usize),
    /// The transfer ended with this outcome.
    Finished(Result<(), Error>),
}

/// A configuration on its way to a device.
pub struct Transfer {
    stage: Stage,
}

impl View for Transfer {
    type V = TransferView;

    closed spec fn view(&self) -> TransferView {
        match self.stage {
            Stage::Opening(config) => TransferView::Opening { config },
            Stage::Writing(pending, index) => TransferView::Writing {
                pending: packets_bytes(pending@),
                index,
            },
            Stage::Finished(outcome) => TransferView::Finished { outcome },
        }
    }
}

impl Transfer {
    /// No more packets are pending than indices are left for them.
    #[verifier::type_invariant]
    spec fn inv(self) -> bool {
        match self.stage {
            Stage::Writing(pending, index) => index + pending@.len() < usize::MAX,
            _ => true,
        }
    }

    /// Begins the transfer of `config`.
    pub fn begin(config: Config) -> (start: (Transfer, Action))
        ensures
            start.0@ == TransferView::initial(config),
            start.1@ == TransferView::first_action(config),
    {
        let controller = config.device.controller();
        let action = Action::Open {
            vendor_id: controller.vendor_id(),
            product_id: controller.product_id(),
        };
        (Transfer { stage: Stage::Opening(config) }, action)
    }

    /// Takes the endpoint's answer to the last action, and says what to do
    /// next.
    pub fn step(self, reply: Reply) -> (next: (Transfer, Action))
        ensures
            (next.0@, next.1@) == self@.step(reply),
    {
        proof {
            use_type_invariant(&self);
        }
        match self.stage {
            Stage::Opening(config) => match reply {
                Reply::Failed => Transfer::finish(Err(Error::TransportUnavailable)),
                Reply::Done => match config.device.controller().config_bytes(&config) {
                    Err(unsupported) => Transfer::finish(
                        Err(Error::UnsupportedFeature(unsupported)),
                    ),
                    Ok(packets) => Transfer::proceed(packets, 0),
                },
            },
            Stage::Writing(pending, index) => match reply {
                Reply::Failed => Transfer::finish(Err(Error::TransportWriteFailed { index })),
                Reply::Done => Transfer::proceed(pending, index + 1),
            },
            Stage::Finished(outcome) => Transfer::finish(outcome),
        }
    }

    /// Ends the transfer with `outcome`.
    fn finish(outcome: Result<(), Error>) -> (next: (Transfer, Action))
        ensures
            (next.0@, next.1@) == TransferView::finish(outcome),
    {
        (Transfer { stage: Stage::Finished(outcome) }, Action::Finish(outcome))
    }

    /// Goes on to the first of `packets`, whose index is `index`, or ends the
    /// transfer if none is left.
    fn proceed(packets: Vec<Bytes>, index: usize) -> (next: (Transfer, Action))
        requires
            index + packets.len() <= usize::MAX,
        ensures
            (next.0@, next.1@) == TransferView::proceed(packets_bytes(packets@), index),
    {
        let mut pending = packets;
        if pending.len() == 0 {
            Transfer::finish(Ok(()))
        } else {
            let packet = pending.remove(0);
            assert(packets_bytes(pending@) =~= packets_bytes(packets@).drop_first());
            (Transfer { stage: Stage::Writing(pending, index) }, Action::Write(packet))
        }
    }
}

/// The actions that a transfer in `state` takes as `replies` come in: the
/// action at each place is the one that follows the reply at that place.
pub open spec fn actions(state: TransferView, replies: Seq<Reply>) -> Seq<ActionView>
    decreases replies.len(),
{
    if replies.len() == 0 {
        Seq::empty()
    } else {
        let next = state.step(replies[0]);
        seq![next.1] + actions(next.0, replies.drop_first())
    }
}

/// Every reply is followed by one action.
pub proof fn lemma_actions_len(state: TransferView, replies: Seq<Reply>)
    ensures
        actions(state, replies).len() == replies.len(),
    decreases replies.len(),
{
    if replies.len() > 0 {
        lemma_actions_len(state.step(replies[0]).0, replies.drop_first());
    }
}

/// A transfer that ended stays ended: whatever is reported to it, it asks to
/// stop with the outcome it ended with.
pub proof fn lemma_finished_is_final(outcome: Result<(), Error>, replies: Seq<Reply>)
    ensures
        actions(TransferView::Finished { outcome }, replies).len() == replies.len(),
        forall|i: int|
            0 <= i < replies.len() ==> #[trigger] actions(
                TransferView::Finished { outcome },
                replies,
            )[i] == ActionView::Finish(outcome),
    decreases replies.len(),
{
    if replies.len() > 0 {
        lemma_finished_is_final(outcome, replies.drop_first());
    }
}

/// Where the device cannot be opened, the transfer ends as
/// `TransportUnavailable` and no packet is ever written.
pub proof fn lemma_open_failure_writes_nothing(config: Config, replies: Seq<Reply>)
    requires
        replies.len() > 0,
        replies[0] == Reply::Failed,
    ensures
        actions(TransferView::initial(config), replies).len() == replies.len(),
        forall|i: int|
            0 <= i < replies.len() ==> #[trigger] actions(TransferView::initial(config), replies)[i]
                == ActionView::Finish(Err(Error::TransportUnavailable)),
{
    lemma_finished_is_final(Err(Error::TransportUnavailable), replies.drop_first());
}

/// Where the controller cannot represent the configuration, the transfer
/// ends as `UnsupportedFeature` once the device is open, and no packet is
/// ever written.
pub proof fn lemma_unsupported_writes_nothing(
    config: Config,
    unsupported: UnsupportedFeature,
    replies: Seq<Reply>,
)
    requires
        config.device.spec_controller().spec_config_bytes(config) == Err::<
            Seq<Seq<u8>>,
            UnsupportedFeature,
        >(unsupported),
        replies.len() > 0,
        replies[0] == Reply::Done,
    ensures
        actions(TransferView::initial(config), replies).len() == replies.len(),
        forall|i: int|
            0 <= i < replies.len() ==> #[trigger] actions(TransferView::initial(config), replies)[i]
                == ActionView::Finish(Err(Error::UnsupportedFeature(unsupported))),
{
    lemma_finished_is_final(Err(Error::UnsupportedFeature(unsupported)), replies.drop_first());
}

/// The action that `start` holds, then those that follow `replies`.
spec fn run(start: (TransferView, ActionView), replies: Seq<Reply>) -> Seq<ActionView> {
    seq![start.1] + actions(start.0, replies)
}

/// Writing `packets` from the place `index` on, where the write of the
/// packet at `failed` among them fails after all before it succeeded.
proof fn lemma_run_to_failure(
    packets: Seq<Seq<u8>>,
    index: usize,
    failed: int,
    replies: Seq<Reply>,
)
    requires
        0 <= failed < packets.len(),
        index + packets.len() <= usize::MAX,
        failed < replies.len(),
        forall|i: int| 0 <= i < failed ==> replies[i] == Reply::Done,
        replies[failed] == Reply::Failed,
    ensures
        run(TransferView::proceed(packets, index), replies).len() == replies.len() + 1,
        forall|i: int|
            0 <= i <= failed ==> #[trigger] run(TransferView::proceed(packets, index), replies)[i]
                == ActionView::Write(packets[i]),
        forall|i: int|
            failed < i <= replies.len() ==> #[trigger] run(
                TransferView::proceed(packets, index),
                replies,
            )[i] == ActionView::Finish(
                Err(Error::TransportWriteFailed { index: (index + failed) as usize }),
            ),
    decreases failed,
{
    let start = TransferView::proceed(packets, index);
    let rest = replies.drop_first();
    lemma_actions_len(start.0, replies);
    if failed == 0 {
        lemma_finished_is_final(Err(Error::TransportWriteFailed { index }), rest);
    } else {
        let later = packets.drop_first();
        lemma_run_to_failure(later, (index + 1) as usize, failed - 1, rest);
        assert(actions(start.0, replies) == run(
            TransferView::proceed(later, (index + 1) as usize),
            rest,
        ));
        assert forall|i: int| 0 <= i <= failed implies #[trigger] run(start, replies)[i]
            == ActionView::Write(packets[i]) by {
            if i > 0 {
                assert(run(start, replies)[i] == run(
                    TransferView::proceed(later, (index + 1) as usize),
                    rest,
                )[i - 1]);
            }
        }
        assert forall|i: int| failed < i <= replies.len() implies #[trigger] run(start, replies)[i]
            == ActionView::Finish(
            Err(Error::TransportWriteFailed { index: (index + failed) as usize }),
        ) by {
            assert(run(start, replies)[i] == run(
                TransferView::proceed(later, (index + 1) as usize),
                rest,
            )[i - 1]);
        }
    }
}

/// Writing `packets` from the place `index` on, where every write succeeds.
proof fn lemma_run_to_end(packets: Seq<Seq<u8>>, index: usize, replies: Seq<Reply>)
    requires
        index + packets.len() <= usize::MAX,
        packets.len() <= replies.len(),
        forall|i: int| 0 <= i < packets.len() ==> replies[i] == Reply::Done,
    ensures
        run(TransferView::proceed(packets, index), replies).len() == replies.len() + 1,
        forall|i: int|
            0 <= i < packets.len() ==> #[trigger] run(
                TransferView::proceed(packets, index),
                replies,
            )[i] == ActionView::Write(packets[i]),
        forall|i: int|
            packets.len() <= i <= replies.len() ==> #[trigger] run(
                TransferView::proceed(packets, index),
                replies,
            )[i] == ActionView::Finish(Ok(())),
    decreases packets.len(),
{
    let start = TransferView::proceed(packets, index);
    lemma_actions_len(start.0, replies);
    if packets.len() == 0 {
        lemma_finished_is_final(Ok(()), replies);
    } else {
        let later = packets.drop_first();
        let rest = replies.drop_first();
        lemma_run_to_end(later, (index + 1) as usize, rest);
        assert(actions(start.0, replies) == run(
            TransferView::proceed(later, (index + 1) as usize),
            rest,
        ));
        assert forall|i: int| 0 <= i < packets.len() implies #[trigger] run(start, replies)[i]
            == ActionView::Write(packets[i]) by {
            if i > 0 {
                assert(run(start, replies)[i] == run(
                    TransferView::proceed(later, (index + 1) as usize),
                    rest,
                )[i - 1]);
            }
        }
        assert forall|i: int| packets.len() <= i <= replies.len() implies #[trigger] run(
            start,
            replies,
        )[i] == ActionView::Finish(Ok(())) by {
            assert(run(start, replies)[i] == run(
                TransferView::proceed(later, (index + 1) as usize),
                rest,
            )[i - 1]);
        }
    }
}

/// Where the device opens, the packets before the one at `failed` are
/// written and the write of that one fails: the packets up to it were asked
/// for in order, the transfer ends as `TransportWriteFailed` at `failed`,
/// and no later packet is ever written.
pub proof fn lemma_write_failure_stops(
    config: Config,
    packets: Seq<Seq<u8>>,
    failed: int,
    replies: Seq<Reply>,
)
    requires
        config.device.spec_controller().spec_config_bytes(config) == Ok::<
            Seq<Seq<u8>>,
            UnsupportedFeature,
        >(packets),
        0 <= failed < packets.len(),
        failed + 1 < replies.len(),
        forall|i: int| 0 <= i <= failed ==> replies[i] == Reply::Done,
        replies[failed + 1] == Reply::Failed,
    ensures
        actions(TransferView::initial(config), replies).len() == replies.len(),
        forall|i: int|
            0 <= i <= failed ==> #[trigger] actions(TransferView::initial(config), replies)[i]
                == ActionView::Write(packets[i]),
        forall|i: int|
            failed < i < replies.len() ==> #[trigger] actions(
                TransferView::initial(config),
                replies,
            )[i] == ActionView::Finish(
                Err(Error::TransportWriteFailed { index: failed as usize }),
            ),
{
    let rest = replies.drop_first();
    lemma_run_to_failure(packets, 0, failed, rest);
    assert(actions(TransferView::initial(config), replies) == run(
        TransferView::proceed(packets, 0),
        rest,
    ));
}

/// Where the device opens and every write succeeds: the packets were asked
/// for in order, each once, and the transfer ends well.
pub proof fn lemma_all_written(config: Config, packets: Seq<Seq<u8>>, replies: Seq<Reply>)
    requires
        config.device.spec_controller().spec_config_bytes(config) == Ok::<
            Seq<Seq<u8>>,
            UnsupportedFeature,
        >(packets),
        packets.len() < replies.len(),
        forall|i: int| 0 <= i <= packets.len() ==> replies[i] == Reply::Done,
    ensures
        actions(TransferView::initial(config), replies).len() == replies.len(),
        forall|i: int|
            0 <= i < packets.len() ==> #[trigger] actions(TransferView::initial(config), replies)[i]
                == ActionView::Write(packets[i]),
        forall|i: int|
            packets.len() <= i < replies.len() ==> #[trigger] actions(
                TransferView::initial(config),
                replies,
            )[i] == ActionView::Finish(Ok(())),
{
    let rest = replies.drop_first();
    lemma_run_to_end(packets, 0, rest);
    assert(actions(TransferView::initial(config), replies) == run(
        TransferView::proceed(packets, 0),
        rest,
    ));
}

} // verus!
