//! Acquiring the adapter.
//!
//! The platform's adapter enumeration is reached, the adapters are
//! enumerated, and the first one is put in use.

use vstd::prelude::*;

use crate::error::{BleError, ErrorKind, Failure};
use crate::protocol::{
    drive, fail_with, failure_of, Reply, ReplyView, Request, Turn, TurnView,
};
use crate::session::BluetoothConnection;

verus! {

/// An initialization under way, named by the request it is waiting on.
#[derive(Clone, Copy, Debug, PartialEq, Eq, Hash, Structural)]
pub enum InitOp {
    /// The adapter enumeration is being reached.
    Opening,
    /// The adapters are being enumerated.
    Listing,
}

impl DeepView for InitOp {
    type V = InitOp;

    open spec fn deep_view(&self) -> InitOp {
        *self
    }
}

/// The adapter to put in use, named by its position in the enumeration.
#[derive(Clone, Copy, Debug, PartialEq, Eq, Hash, Structural)]
pub struct Acquired {
    pub index: usize,
}

impl DeepView for Acquired {
    type V = Acquired;

    open spec fn deep_view(&self) -> Acquired {
        *self
    }
}

/// A turn of an initialization.
pub type InitTurn = Turn<InitOp, Acquired>;

/// The mathematical value of an [`InitTurn`].
pub type InitTurnView = TurnView<InitOp, Acquired>;

/// How an initialization opens.
pub open spec fn init_begin() -> InitTurnView {
    TurnView::Continue(InitOp::Opening, Request::OpenManager)
}

/// How an initialization goes on when `reply` answers its pending request:
/// with at least one adapter enumerated, the first is the one to use.
pub open spec fn init_step(op: InitOp, reply: ReplyView) -> InitTurnView {
    match op {
        InitOp::Opening => match reply {
            ReplyView::Done => TurnView::Continue(InitOp::Listing, Request::ListAdapters),
            _ => TurnView::Finished(Err(failure_of(ErrorKind::AdapterInitError, reply))),
        },
        InitOp::Listing => match reply {
            ReplyView::AdapterCount(count) => if count == 0 {
                TurnView::Finished(
                    Err(Failure { kind: ErrorKind::NoAdapterFound, detail: Seq::empty() }),
                )
            } else {
                TurnView::Finished(Ok(Acquired { index: 0 }))
            },
            _ => TurnView::Finished(Err(failure_of(ErrorKind::AdapterInitError, reply))),
        },
    }
}

/// The confirmation of an initialization.
pub open spec fn initialized_message() -> Seq<char> {
    "Bluetooth initialized"@
}

/// Opens an initialization. It may be done any number of times: each one
/// acquires the adapter anew.
pub fn init_bluetooth() -> (turn: InitTurn)
    ensures
        turn@ == init_begin(),
{
    Turn::Continue(InitOp::Opening, Request::OpenManager)
}

impl InitOp {
    /// Takes the reply to the pending request and says what comes next.
    pub fn resume(self, reply: Reply) -> (turn: InitTurn)
        ensures
            turn@ == init_step(self, reply@),
    {
        match self {
            InitOp::Opening => match reply {
                Reply::Done => Turn::Continue(InitOp::Listing, Request::ListAdapters),
                other => Turn::Finished(Err(fail_with(ErrorKind::AdapterInitError, other))),
            },
            InitOp::Listing => match reply {
                Reply::AdapterCount(count) => if count == 0 {
                    Turn::Finished(Err(BleError::plain(ErrorKind::NoAdapterFound)))
                } else {
                    Turn::Finished(Ok(Acquired { index: 0 }))
                },
                other => Turn::Finished(Err(fail_with(ErrorKind::AdapterInitError, other))),
            },
        }
    }
}

impl Acquired {
    /// Puts the acquired adapter in use, in place of any held before, and
    /// returns the confirmation. `adapter` is the handle of the adapter at
    /// the acquired position.
    pub fn install<A, P>(self, connection: &mut BluetoothConnection<A, P>, adapter: A) -> (message:
        String)
        ensures
            final(connection)@ == old(connection)@.with_adapter(adapter),
            final(connection)@.well_formed(),
            message@ == initialized_message(),
    {
        connection.install_adapter(adapter);
        "Bluetooth initialized".to_owned()
    }
}

/// An initialization on a platform that answers acquires the first adapter
/// enumerated, however many there are, and fails with `NoAdapterFound`
/// where there is none; a platform that cannot be reached fails it with
/// `AdapterInitError` before any adapter is asked for.
pub proof fn law_init_acquires_the_first_adapter(count: usize, detail: Seq<char>)
    ensures
        drive(
            |op: InitOp, reply: ReplyView| init_step(op, reply),
            init_begin(),
            seq![ReplyView::Done, ReplyView::AdapterCount(count)],
        ) == (if count == 0 {
            InitTurnView::Finished(
                Err(Failure { kind: ErrorKind::NoAdapterFound, detail: Seq::empty() }),
            )
        } else {
            InitTurnView::Finished(Ok(Acquired { index: 0 }))
        }),
        drive(
            |op: InitOp, reply: ReplyView| init_step(op, reply),
            init_begin(),
            seq![ReplyView::Failed(detail)],
        ) == InitTurnView::Finished(Err(Failure { kind: ErrorKind::AdapterInitError, detail })),
        drive(
            |op: InitOp, reply: ReplyView| init_step(op, reply),
            init_begin(),
            seq![ReplyView::Done, ReplyView::Failed(detail)],
        ) == InitTurnView::Finished(Err(Failure { kind: ErrorKind::AdapterInitError, detail })),
{
    reveal_with_fuel(drive, 3);
    let good = seq![ReplyView::Done, ReplyView::AdapterCount(count)];
    assert(good.drop_first().drop_first().len() == 0);
    let unreachable = seq![ReplyView::Failed(detail)];
    assert(unreachable.drop_first().len() == 0);
    let unlisted = seq![ReplyView::Done, ReplyView::Failed(detail)];
    assert(unlisted.drop_first().drop_first().len() == 0);
}

} // verus!
