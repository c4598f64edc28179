//! The vocabulary between the session's rules and the driver that owns the
//! radio: requests go out, replies come back, and each turn of an operation
//! either asks for more or ends.

use vstd::prelude::*;

use crate::device::{Advertisement, AdvertisementView, Sighting, SightingView};
use crate::error::{BleError, ErrorKind, Failure};
use crate::gatt::Characteristic;

verus! {

/// How long the radio is left alone after a best-effort stop, before a scan
/// starts, in milliseconds.
pub const PRE_SCAN_SETTLE_MS: u64 = 100;

/// How long the quick scan before a connect listens, in milliseconds.
pub const RESCAN_WINDOW_MS: u64 = 500;

/// How long a disconnected peripheral is given to advertise again, in
/// milliseconds.
pub const POST_DISCONNECT_SETTLE_MS: u64 = 1000;

/// One piece of outside work. A candidate is named by its position in the
/// latest enumeration of peripherals.
#[derive(Clone, Copy, Debug, PartialEq, Eq, Hash, Structural)]
pub enum Request {
    /// Reach the platform's adapter enumeration.
    OpenManager,
    /// Enumerate the adapters.
    ListAdapters,
    /// Stop scanning.
    StopScan,
    /// Start scanning, with no filter.
    StartScan,
    /// Wait this many milliseconds.
    Settle { millis: u64 },
    /// Wait this many seconds while the scan runs.
    Listen { seconds: u64 },
    /// Enumerate the peripherals that the adapter has seen.
    ListPeripherals,
    /// Fetch what a candidate advertises.
    FetchProperties { candidate: usize },
    /// Ask a candidate whether it is connected.
    QueryConnected { candidate: usize },
    /// Connect to a candidate.
    Connect { candidate: usize },
    /// Discover a candidate's services and read off its characteristics.
    DiscoverServices { candidate: usize },
    /// Disconnect the session's peripheral.
    Disconnect,
}

/// The answer to a request.
#[derive(Clone, Debug, PartialEq, Eq)]
pub enum Reply {
    /// The work was done and has nothing to report.
    Done,
    /// The work failed; the platform described the failure.
    Failed(String),
    /// The number of adapters enumerated.
    AdapterCount(usize),
    /// The peripherals seen, in the platform's order.
    Peripherals(Vec<Sighting>),
    /// What the candidate advertises, where the platform knows.
    Properties(Option<Advertisement>),
    /// Whether the candidate is connected.
    Connected(bool),
    /// The characteristics found by service discovery.
    Characteristics(Vec<Characteristic>),
}

/// The mathematical value of a [`Reply`].
pub enum ReplyView {
    Done,
    Failed(Seq<char>),
    AdapterCount(usize),
    Peripherals(Seq<SightingView>),
    Properties(Option<AdvertisementView>),
    Connected(bool),
    Characteristics(Seq<Characteristic>),
}

impl View for Reply {
    type V = ReplyView;

    open spec fn view(&self) -> ReplyView {
        match self {
            Reply::Done => ReplyView::Done,
            Reply::Failed(detail) => ReplyView::Failed(detail@),
            Reply::AdapterCount(count) => ReplyView::AdapterCount(*count),
            Reply::Peripherals(sightings) => ReplyView::Peripherals(sightings.deep_view()),
            Reply::Properties(advertisement) => ReplyView::Properties(advertisement.deep_view()),
            Reply::Connected(connected) => ReplyView::Connected(*connected),
            Reply::Characteristics(found) => ReplyView::Characteristics(found@),
        }
    }
}

impl DeepView for Reply {
    type V = ReplyView;

    open spec fn deep_view(&self) -> ReplyView {
        self@
    }
}

/// The detail of a failure that was caused by a reply of the wrong shape.
pub open spec fn unexpected_reply_text() -> Seq<char> {
    "unexpected reply"@
}

/// The failure of kind `kind` that `reply` stands for when it does not
/// answer the request: the platform's description where the reply is
/// `Failed`, and a fixed text for any other reply.
pub open spec fn failure_of(kind: ErrorKind, reply: ReplyView) -> Failure {
    match reply {
        ReplyView::Failed(detail) => Failure { kind, detail },
        _ => Failure { kind, detail: unexpected_reply_text() },
    }
}

/// Builds [`failure_of`].
pub fn fail_with(kind: ErrorKind, reply: Reply) -> (error: BleError)
    ensures
        error@ == failure_of(kind, reply@),
{
    match reply {
        Reply::Failed(detail) => BleError::with_detail(kind, detail),
        _ => BleError::with_detail(kind, "unexpected reply".to_owned()),
    }
}

/// One turn of an operation: carry on with another request, or end.
#[derive(Debug)]
pub enum Turn<S, T> {
    /// The operation waits in state `S` for the reply to the request.
    Continue(S, Request),
    /// The operation has ended.
    Finished(Result<T, BleError>),
}

/// The mathematical value of a [`Turn`].
pub enum TurnView<S, T> {
    Continue(S, Request),
    Finished(Result<T, Failure>),
}

impl<S: DeepView, T: DeepView> View for Turn<S, T> {
    type V = TurnView<<S as DeepView>::V, <T as DeepView>::V>;

    open spec fn view(&self) -> Self::V {
        match self {
            Turn::Continue(state, request) => TurnView::Continue(state.deep_view(), *request),
            Turn::Finished(Ok(output)) => TurnView::Finished(Ok(output.deep_view())),
            Turn::Finished(Err(error)) => TurnView::Finished(Err(error@)),
        }
    }
}

impl<S, T> TurnView<S, T> {
    /// The turn ends the operation with this failure.
    pub open spec fn fails_with(self, kind: ErrorKind) -> bool {
        self matches TurnView::Finished(Err(failure)) && failure.kind == kind
    }
}

/// Where an operation stands after the driver has answered `replies` in
/// turn, starting from `turn`. Replies that arrive after the operation has
/// ended are not read.
pub open spec fn drive<S, T>(
    step: spec_fn(S, ReplyView) -> TurnView<S, T>,
    turn: TurnView<S, T>,
    replies: Seq<ReplyView>,
) -> TurnView<S, T>
    decreases replies.len(),
{
    match turn {
        TurnView::Finished(_) => turn,
        TurnView::Continue(state, _) => if replies.len() == 0 {
            turn
        } else {
            drive(step, step(state, replies[0]), replies.drop_first())
        },
    }
}

/// The requests that the operation makes on the way: the pending one of
/// `turn`, then one after each reply that is read and does not end it.
pub open spec fn requests_made<S, T>(
    step: spec_fn(S, ReplyView) -> TurnView<S, T>,
    turn: TurnView<S, T>,
    replies: Seq<ReplyView>,
) -> Seq<Request>
    decreases replies.len(),
{
    match turn {
        TurnView::Finished(_) => Seq::empty(),
        TurnView::Continue(state, request) => if replies.len() == 0 {
            seq![request]
        } else {
            seq![request] + requests_made(step, step(state, replies[0]), replies.drop_first())
        },
    }
}

/// Answering with `first` and then with `second` leads where answering with
/// the two in one go does.
pub proof fn lemma_drive_append<S, T>(
    step: spec_fn(S, ReplyView) -> TurnView<S, T>,
    turn: TurnView<S, T>,
    first: Seq<ReplyView>,
    second: Seq<ReplyView>,
)
    ensures
        drive(step, turn, first + second) == drive(step, drive(step, turn, first), second),
    decreases first.len(),
{
    match turn {
        TurnView::Finished(_) => {},
        TurnView::Continue(state, _) => {
            if first.len() == 0 {
                assert(first + second =~= second);
            } else {
                assert((first + second).drop_first() =~= first.drop_first() + second);
                lemma_drive_append(step, step(state, first[0]), first.drop_first(), second);
            }
        },
    }
}

} // verus!
