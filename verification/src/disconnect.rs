//! Disconnecting from the peripheral.
//!
//! Where a peripheral is held, it is asked to disconnect and then given
//! time to advertise again. Where none is held, the radio is left alone.
//! Either way [`Released::install`] then empties the session.

use vstd::prelude::*;

use crate::error::{ErrorKind, Failure};
use crate::protocol::{
    drive, fail_with, failure_of, Reply, ReplyView, Request, Turn, TurnView,
    POST_DISCONNECT_SETTLE_MS,
};
use crate::session::BluetoothConnection;

verus! {

/// A disconnect under way, named by the request it is waiting on.
#[derive(Clone, Copy, Debug, PartialEq, Eq, Hash, Structural)]
pub enum DisconnectOp {
    /// The peripheral was asked to disconnect.
    Disconnecting,
    /// The peripheral is given time to advertise again.
    Settling,
}

impl DeepView for DisconnectOp {
    type V = DisconnectOp;

    open spec fn deep_view(&self) -> DisconnectOp {
        *self
    }
}

/// A disconnect that is done and not yet recorded in the session.
#[derive(Clone, Copy, Debug, PartialEq, Eq, Hash, Structural)]
pub struct Released {}

impl DeepView for Released {
    type V = Released;

    open spec fn deep_view(&self) -> Released {
        *self
    }
}

/// A turn of a disconnect.
pub type DisconnectTurn = Turn<DisconnectOp, Released>;

/// The mathematical value of a [`DisconnectTurn`].
pub type DisconnectTurnView = TurnView<DisconnectOp, Released>;

/// How a disconnect opens: with a peripheral held it asks the peripheral,
/// without one it is done at once.
pub open spec fn disconnect_begin(connected: bool) -> DisconnectTurnView {
    if connected {
        TurnView::Continue(DisconnectOp::Disconnecting, Request::Disconnect)
    } else {
        TurnView::Finished(Ok(Released {}))
    }
}

/// How a disconnect goes on when `reply` answers its pending request.
pub open spec fn disconnect_step(op: DisconnectOp, reply: ReplyView) -> DisconnectTurnView {
    match op {
        DisconnectOp::Disconnecting => match reply {
            ReplyView::Done => TurnView::Continue(
                DisconnectOp::Settling,
                Request::Settle { millis: POST_DISCONNECT_SETTLE_MS },
            ),
            _ => TurnView::Finished(Err(failure_of(ErrorKind::DisconnectError, reply))),
        },
        DisconnectOp::Settling => TurnView::Finished(Ok(Released {})),
    }
}

/// The confirmation of a disconnect.
pub open spec fn disconnected_message() -> Seq<char> {
    "Disconnected"@
}

/// Opens a disconnect.
pub fn disconnect_bluetooth<A, P>(connection: &BluetoothConnection<A, P>) -> (turn: DisconnectTurn)
    ensures
        turn@ == disconnect_begin(connection@.peripheral is Some),
{
    if connection.has_peripheral() {
        Turn::Continue(DisconnectOp::Disconnecting, Request::Disconnect)
    } else {
        Turn::Finished(Ok(Released {}))
    }
}

impl DisconnectOp {
    /// Takes the reply to the pending request and says what comes next.
    pub fn resume(self, reply: Reply) -> (turn: DisconnectTurn)
        ensures
            turn@ == disconnect_step(self, reply@),
    {
        match self {
            DisconnectOp::Disconnecting => match reply {
                Reply::Done => Turn::Continue(
                    DisconnectOp::Settling,
                    Request::Settle { millis: POST_DISCONNECT_SETTLE_MS },
                ),
                other => Turn::Finished(Err(fail_with(ErrorKind::DisconnectError, other))),
            },
            DisconnectOp::Settling => Turn::Finished(Ok(Released {})),
        }
    }
}

impl Released {
    /// Empties the session of the peripheral and its characteristics, in one
    /// step, and returns the confirmation.
    pub fn install<A, P>(self, connection: &mut BluetoothConnection<A, P>) -> (message: String)
        ensures
            final(connection)@ == old(connection)@.cleared(),
            final(connection)@.well_formed(),
            message@ == disconnected_message(),
    {
        connection.clear();
        "Disconnected".to_owned()
    }
}

/// A disconnect with a peripheral held asks the peripheral and then waits,
/// whatever the wait reports; one refused by the peripheral ends with
/// `DisconnectError` before any wait.
pub proof fn law_disconnect_settles_after_hardware(settle: ReplyView, detail: Seq<char>)
    ensures
        drive(
            |op: DisconnectOp, reply: ReplyView| disconnect_step(op, reply),
            disconnect_begin(true),
            seq![ReplyView::Done],
        ) == DisconnectTurnView::Continue(
            DisconnectOp::Settling,
            Request::Settle { millis: POST_DISCONNECT_SETTLE_MS },
        ),
        drive(
            |op: DisconnectOp, reply: ReplyView| disconnect_step(op, reply),
            disconnect_begin(true),
            seq![ReplyView::Done, settle],
        ) == DisconnectTurnView::Finished(Ok(Released {})),
        drive(
            |op: DisconnectOp, reply: ReplyView| disconnect_step(op, reply),
            disconnect_begin(true),
            seq![ReplyView::Failed(detail)],
        ) == DisconnectTurnView::Finished(
            Err(Failure { kind: ErrorKind::DisconnectError, detail }),
        ),
{
    reveal_with_fuel(drive, 3);
    let one = seq![ReplyView::Done];
    assert(one.drop_first().len() == 0);
    let two = seq![ReplyView::Done, settle];
    assert(two.drop_first().drop_first().len() == 0);
    let bad = seq![ReplyView::Failed(detail)];
    assert(bad.drop_first().len() == 0);
}

} // verus!
