//! Connecting to a peripheral by its identifier.
//!
//! The operation refreshes what the adapter has seen with a short scan whose
//! failures do not count, finds the peripheral, connects unless it is
//! connected already, discovers its services and resolves its name. The
//! session is not touched until [`Established::install`] records the result.

use vstd::prelude::*;

use crate::device::{display_name, resolve_name, AdvertisementView, Sighting, SightingView};
use crate::error::{BleError, ErrorKind, Failure};
use crate::gatt::{
    dedupe_by_uuid, distinct_by_uuid, first_where, lemma_first_where_absent,
    lemma_first_where_found, Characteristic,
};
use crate::protocol::{
    drive, fail_with, failure_of, requests_made, Reply, ReplyView, Request, Turn, TurnView,
    RESCAN_WINDOW_MS,
};
use crate::session::BluetoothConnection;

verus! {

/// The request that a connect operation is waiting on.
#[derive(Clone, Copy, Debug, PartialEq, Eq, Hash, Structural)]
pub enum ConnectPhase {
    /// The quick scan was asked to start.
    RescanStart,
    /// The quick scan is listening.
    RescanWindow,
    /// The quick scan was asked to stop.
    RescanStop,
    /// The peripherals are being enumerated.
    Enumerating,
    /// The peripheral was asked whether it is connected.
    Probing,
    /// The peripheral was asked to connect.
    Connecting,
    /// The peripheral's services are being discovered.
    Discovering,
    /// The peripheral's name is being fetched.
    Naming,
}

/// A connect operation under way.
#[derive(Debug)]
pub struct ConnectOp {
    /// The request that the operation is waiting on.
    pub phase: ConnectPhase,
    /// The identifier of the peripheral to connect to.
    pub device_id: String,
    /// The peripheral's position in the enumeration, once it was found.
    pub candidate: usize,
    /// The characteristics kept from service discovery, once it was done.
    pub characteristics: Vec<Characteristic>,
}

/// The mathematical value of a [`ConnectOp`].
pub struct ConnectOpView {
    pub phase: ConnectPhase,
    pub device_id: Seq<char>,
    pub candidate: usize,
    pub characteristics: Seq<Characteristic>,
}

impl View for ConnectOp {
    type V = ConnectOpView;

    open spec fn view(&self) -> ConnectOpView {
        ConnectOpView {
            phase: self.phase,
            device_id: self.device_id@,
            candidate: self.candidate,
            characteristics: self.characteristics@,
        }
    }
}

impl DeepView for ConnectOp {
    type V = ConnectOpView;

    open spec fn deep_view(&self) -> ConnectOpView {
        self@
    }
}

/// A connection that was made and is not yet recorded in the session.
#[derive(Debug, PartialEq, Eq)]
pub struct Established {
    /// The peripheral's position in the enumeration.
    pub candidate: usize,
    /// The characteristics to remember, the first of each UUID.
    pub characteristics: Vec<Characteristic>,
    /// The name the device goes by.
    pub device_name: String,
}

/// The mathematical value of an [`Established`].
pub struct EstablishedView {
    pub candidate: usize,
    pub characteristics: Seq<Characteristic>,
    pub device_name: Seq<char>,
}

impl View for Established {
    type V = EstablishedView;

    open spec fn view(&self) -> EstablishedView {
        EstablishedView {
            candidate: self.candidate,
            characteristics: self.characteristics@,
            device_name: self.device_name@,
        }
    }
}

impl DeepView for Established {
    type V = EstablishedView;

    open spec fn deep_view(&self) -> EstablishedView {
        self@
    }
}

/// A turn of a connect operation.
pub type ConnectTurn = Turn<ConnectOp, Established>;

/// The mathematical value of a [`ConnectTurn`].
pub type ConnectTurnView = TurnView<ConnectOpView, EstablishedView>;

/// The position of the first sighting whose identifier is exactly `device_id`.
pub open spec fn position_of(sightings: Seq<SightingView>, device_id: Seq<char>) -> Option<int> {
    first_where(sightings, |s: SightingView| s.id == device_id)
}

/// The operation in `phase`, otherwise as `op` is.
pub open spec fn connect_in(op: ConnectOpView, phase: ConnectPhase) -> ConnectOpView {
    ConnectOpView { phase, ..op }
}

/// How a connect operation opens: it needs an adapter, and begins with the
/// quick scan.
pub open spec fn connect_begin(initialized: bool, device_id: Seq<char>) -> ConnectTurnView {
    if initialized {
        TurnView::Continue(
            ConnectOpView {
                phase: ConnectPhase::RescanStart,
                device_id,
                candidate: 0,
                characteristics: Seq::empty(),
            },
            Request::StartScan,
        )
    } else {
        TurnView::Finished(
            Err(Failure { kind: ErrorKind::NotInitialized, detail: Seq::empty() }),
        )
    }
}

/// How a connect operation goes on when `reply` answers its pending request.
pub open spec fn connect_step(op: ConnectOpView, reply: ReplyView) -> ConnectTurnView {
    let candidate = op.candidate;
    match op.phase {
        // The quick scan is best effort: whatever comes back, go on.
        ConnectPhase::RescanStart => TurnView::Continue(
            connect_in(op, ConnectPhase::RescanWindow),
            Request::Settle { millis: RESCAN_WINDOW_MS },
        ),
        ConnectPhase::RescanWindow => TurnView::Continue(
            connect_in(op, ConnectPhase::RescanStop),
            Request::StopScan,
        ),
        ConnectPhase::RescanStop => TurnView::Continue(
            connect_in(op, ConnectPhase::Enumerating),
            Request::ListPeripherals,
        ),
        ConnectPhase::Enumerating => match reply {
            ReplyView::Peripherals(sightings) => match position_of(sightings, op.device_id) {
                Some(found) => TurnView::Continue(
                    ConnectOpView {
                        phase: ConnectPhase::Probing,
                        candidate: found as usize,
                        ..op
                    },
                    Request::QueryConnected { candidate: found as usize },
                ),
                None => TurnView::Finished(
                    Err(Failure { kind: ErrorKind::DeviceNotFound, detail: Seq::empty() }),
                ),
            },
            _ => TurnView::Finished(Err(failure_of(ErrorKind::PeripheralListError, reply))),
        },
        ConnectPhase::Probing => match reply {
            ReplyView::Connected(true) => TurnView::Continue(
                connect_in(op, ConnectPhase::Discovering),
                Request::DiscoverServices { candidate },
            ),
            ReplyView::Connected(false) => TurnView::Continue(
                connect_in(op, ConnectPhase::Connecting),
                Request::Connect { candidate },
            ),
            _ => TurnView::Finished(Err(failure_of(ErrorKind::ConnectivityCheckError, reply))),
        },
        ConnectPhase::Connecting => match reply {
            ReplyView::Done => TurnView::Continue(
                connect_in(op, ConnectPhase::Discovering),
                Request::DiscoverServices { candidate },
            ),
            _ => TurnView::Finished(Err(failure_of(ErrorKind::ConnectError, reply))),
        },
        ConnectPhase::Discovering => match reply {
            ReplyView::Characteristics(found) => TurnView::Continue(
                ConnectOpView {
                    phase: ConnectPhase::Naming,
                    characteristics: distinct_by_uuid(found),
                    ..op
                },
                Request::FetchProperties { candidate },
            ),
            _ => TurnView::Finished(Err(failure_of(ErrorKind::ServiceDiscoveryError, reply))),
        },
        ConnectPhase::Naming => match reply {
            ReplyView::Properties(advertisement) => TurnView::Finished(
                Ok(
                    EstablishedView {
                        candidate,
                        characteristics: op.characteristics,
                        device_name: display_name(advertisement),
                    },
                ),
            ),
            _ => TurnView::Finished(Err(failure_of(ErrorKind::PropertiesError, reply))),
        },
    }
}

/// The confirmation of a connection to the device that goes by `name`.
pub open spec fn connected_message(name: Seq<char>) -> Seq<char> {
    "Connected to "@ + name
}

/// Finds the first sighting whose identifier is exactly `device_id`.
pub fn locate(sightings: &Vec<Sighting>, device_id: &String) -> (found: Option<usize>)
    ensures
        match found {
            Some(i) => position_of(sightings.deep_view(), device_id@) == Some(i as int),
            None => position_of(sightings.deep_view(), device_id@) is None,
        },
{
    let ghost wanted = |s: SightingView| s.id == device_id@;
    let ghost seen = sightings.deep_view();
    let mut i: usize = 0;
    while i < sightings.len()
        invariant
            i <= sightings.len(),
            seen == sightings.deep_view(),
            wanted == (|s: SightingView| s.id == device_id@),
            forall|j: int| 0 <= j < i ==> !wanted(#[trigger] seen[j]),
        decreases sightings.len() - i,
    {
        if sightings[i].id == *device_id {
            proof {
                lemma_first_where_found(seen, wanted, i as int);
            }
            return Some(i);
        }
        i += 1;
    }
    proof {
        lemma_first_where_absent(seen, wanted);
    }
    None
}

/// Opens a connect operation on the peripheral identified by `device_id`.
/// Without an adapter it ends at once with `NotInitialized`.
pub fn connect_bluetooth<A, P>(connection: &BluetoothConnection<A, P>, device_id: String) -> (turn:
    ConnectTurn)
    ensures
        turn@ == connect_begin(connection@.adapter is Some, device_id@),
{
    if connection.is_initialized() {
        Turn::Continue(
            ConnectOp {
                phase: ConnectPhase::RescanStart,
                device_id,
                candidate: 0,
                characteristics: Vec::new(),
            },
            Request::StartScan,
        )
    } else {
        Turn::Finished(Err(BleError::plain(ErrorKind::NotInitialized)))
    }
}

impl ConnectOp {
    /// The operation in `phase`, otherwise as it is.
    fn moved_to(self, phase: ConnectPhase) -> (op: ConnectOp)
        ensures
            op@ == connect_in(self@, phase),
    {
        ConnectOp { phase, ..self }
    }

    /// Takes the reply to the pending request and says what comes next.
    pub fn resume(self, reply: Reply) -> (turn: ConnectTurn)
        ensures
            turn@ == connect_step(self@, reply@),
    {
        let candidate = self.candidate;
        match self.phase {
            ConnectPhase::RescanStart => Turn::Continue(
                self.moved_to(ConnectPhase::RescanWindow),
                Request::Settle { millis: RESCAN_WINDOW_MS },
            ),
            ConnectPhase::RescanWindow => Turn::Continue(
                self.moved_to(ConnectPhase::RescanStop),
                Request::StopScan,
            ),
            ConnectPhase::RescanStop => Turn::Continue(
                self.moved_to(ConnectPhase::Enumerating),
                Request::ListPeripherals,
            ),
            ConnectPhase::Enumerating => match reply {
                Reply::Peripherals(sightings) => match locate(&sightings, &self.device_id) {
                    Some(found) => Turn::Continue(
                        ConnectOp { phase: ConnectPhase::Probing, candidate: found, ..self },
                        Request::QueryConnected { candidate: found },
                    ),
                    None => Turn::Finished(Err(BleError::plain(ErrorKind::DeviceNotFound))),
                },
                other => Turn::Finished(Err(fail_with(ErrorKind::PeripheralListError, other))),
            },
            ConnectPhase::Probing => match reply {
                Reply::Connected(true) => Turn::Continue(
                    self.moved_to(ConnectPhase::Discovering),
                    Request::DiscoverServices { candidate },
                ),
                Reply::Connected(false) => Turn::Continue(
                    self.moved_to(ConnectPhase::Connecting),
                    Request::Connect { candidate },
                ),
                other => Turn::Finished(
                    Err(fail_with(ErrorKind::ConnectivityCheckError, other)),
                ),
            },
            ConnectPhase::Connecting => match reply {
                Reply::Done => Turn::Continue(
                    self.moved_to(ConnectPhase::Discovering),
                    Request::DiscoverServices { candidate },
                ),
                other => Turn::Finished(Err(fail_with(ErrorKind::ConnectError, other))),
            },
            ConnectPhase::Discovering => match reply {
                Reply::Characteristics(found) => {
                    let kept = dedupe_by_uuid(&found);
                    Turn::Continue(
                        ConnectOp { phase: ConnectPhase::Naming, characteristics: kept, ..self },
                        Request::FetchProperties { candidate },
                    )
                },
                other => Turn::Finished(Err(fail_with(ErrorKind::ServiceDiscoveryError, other))),
            },
            ConnectPhase::Naming => match reply {
                Reply::Properties(advertisement) => Turn::Finished(
                    Ok(
                        Established {
                            candidate,
                            characteristics: self.characteristics,
                            device_name: resolve_name(advertisement),
                        },
                    ),
                ),
                other => Turn::Finished(Err(fail_with(ErrorKind::PropertiesError, other))),
            },
        }
    }
}

impl Established {
    /// Records the connection in the session, peripheral and characteristics
    /// in one step, and returns the confirmation that names the device.
    /// `peripheral` is the handle of the candidate that was connected.
    pub fn install<A, P>(self, connection: &mut BluetoothConnection<A, P>, peripheral: P) -> (message:
        String)
        ensures
            final(connection)@ == old(connection)@.attached(peripheral, self@.characteristics),
            final(connection)@.well_formed(),
            message@ == connected_message(self@.device_name),
    {
        connection.attach(peripheral, &self.characteristics);
        let mut message = "Connected to ".to_owned();
        message.append(self.device_name.as_str());
        message
    }
}

/// Where a connect operation on `device_id` stands, with an adapter in use,
/// after the driver has answered `replies` in turn.
pub open spec fn connect_run(device_id: Seq<char>, replies: Seq<ReplyView>) -> ConnectTurnView {
    drive(
        |op: ConnectOpView, reply: ReplyView| connect_step(op, reply),
        connect_begin(true, device_id),
        replies,
    )
}

/// The requests that such an operation makes on the way.
pub open spec fn connect_requests(device_id: Seq<char>, replies: Seq<ReplyView>) -> Seq<Request> {
    requests_made(
        |op: ConnectOpView, reply: ReplyView| connect_step(op, reply),
        connect_begin(true, device_id),
        replies,
    )
}

/// A connect operation reaches the enumeration whatever the quick scan
/// reports: its three replies are not read for success or failure, and the
/// requests up to there are fixed.
pub proof fn law_rescan_is_best_effort(
    device_id: Seq<char>,
    start: ReplyView,
    window: ReplyView,
    stop: ReplyView,
)
    ensures
        connect_run(device_id, seq![start, window, stop]) == ConnectTurnView::Continue(
            ConnectOpView {
                phase: ConnectPhase::Enumerating,
                device_id,
                candidate: 0,
                characteristics: Seq::empty(),
            },
            Request::ListPeripherals,
        ),
        connect_requests(device_id, seq![start, window, stop]) == seq![
            Request::StartScan,
            Request::Settle { millis: RESCAN_WINDOW_MS },
            Request::StopScan,
            Request::ListPeripherals,
        ],
{
    reveal_with_fuel(drive, 4);
    reveal_with_fuel(requests_made, 4);
    let replies = seq![start, window, stop];
    assert(replies.drop_first() =~= seq![window, stop]);
    assert(replies.drop_first().drop_first() =~= seq![stop]);
    assert(replies.drop_first().drop_first().drop_first() =~= Seq::empty());
    assert(connect_requests(device_id, replies) =~= seq![
        Request::StartScan,
        Request::Settle { millis: RESCAN_WINDOW_MS },
        Request::StopScan,
        Request::ListPeripherals,
    ]);
}

/// An operation that waits for the enumeration, as it stands after the
/// quick scan.
pub open spec fn enumerating(device_id: Seq<char>) -> ConnectOpView {
    ConnectOpView {
        phase: ConnectPhase::Enumerating,
        device_id,
        candidate: 0,
        characteristics: Seq::empty(),
    }
}

/// Where an operation that waits for the enumeration stands after `replies`.
pub open spec fn connect_run_from_enumeration(
    device_id: Seq<char>,
    replies: Seq<ReplyView>,
) -> ConnectTurnView {
    drive(
        |op: ConnectOpView, reply: ReplyView| connect_step(op, reply),
        TurnView::Continue(enumerating(device_id), Request::ListPeripherals),
        replies,
    )
}

/// The requests that it makes after the enumeration was asked for.
pub open spec fn connect_requests_from_enumeration(
    device_id: Seq<char>,
    replies: Seq<ReplyView>,
) -> Seq<Request> {
    requests_made(
        |op: ConnectOpView, reply: ReplyView| connect_step(op, reply),
        TurnView::Continue(enumerating(device_id), Request::ListPeripherals),
        replies,
    ).drop_first()
}

/// Connecting to a peripheral that is not connected yet: it is found at the
/// first position that carries the identifier, asked to connect, and its
/// services are discovered. The result carries the first characteristic of
/// each discovered UUID and the name the device goes by.
pub proof fn law_connect_to_idle_peripheral(
    device_id: Seq<char>,
    sightings: Seq<SightingView>,
    found: Seq<Characteristic>,
    advertisement: Option<AdvertisementView>,
)
    requires
        position_of(sightings, device_id) is Some,
        position_of(sightings, device_id).unwrap() <= usize::MAX,
    ensures
        ({
            let at = position_of(sightings, device_id).unwrap() as usize;
            let replies = seq![
                ReplyView::Peripherals(sightings),
                ReplyView::Connected(false),
                ReplyView::Done,
                ReplyView::Characteristics(found),
                ReplyView::Properties(advertisement),
            ];
            &&& connect_run_from_enumeration(device_id, replies) == ConnectTurnView::Finished(
                Ok(
                    EstablishedView {
                        candidate: at,
                        characteristics: distinct_by_uuid(found),
                        device_name: display_name(advertisement),
                    },
                ),
            )
            &&& connect_requests_from_enumeration(device_id, replies) == seq![
                Request::QueryConnected { candidate: at },
                Request::Connect { candidate: at },
                Request::DiscoverServices { candidate: at },
                Request::FetchProperties { candidate: at },
            ]
        }),
{
    reveal_with_fuel(drive, 6);
    reveal_with_fuel(requests_made, 6);
    let at = position_of(sightings, device_id).unwrap() as usize;
    let replies = seq![
        ReplyView::Peripherals(sightings),
        ReplyView::Connected(false),
        ReplyView::Done,
        ReplyView::Characteristics(found),
        ReplyView::Properties(advertisement),
    ];
    let r1 = replies.drop_first();
    let r2 = r1.drop_first();
    let r3 = r2.drop_first();
    let r4 = r3.drop_first();
    assert(r4.drop_first().len() == 0);
    assert(connect_requests_from_enumeration(device_id, replies) =~= seq![
        Request::QueryConnected { candidate: at },
        Request::Connect { candidate: at },
        Request::DiscoverServices { candidate: at },
        Request::FetchProperties { candidate: at },
    ]);
}

/// Connecting to a peripheral that reports itself connected: no connect is
/// asked for, and its services are discovered all the same.
pub proof fn law_reconnect_rediscovers(
    device_id: Seq<char>,
    sightings: Seq<SightingView>,
    found: Seq<Characteristic>,
    advertisement: Option<AdvertisementView>,
)
    requires
        position_of(sightings, device_id) is Some,
        position_of(sightings, device_id).unwrap() <= usize::MAX,
    ensures
        ({
            let at = position_of(sightings, device_id).unwrap() as usize;
            let replies = seq![
                ReplyView::Peripherals(sightings),
                ReplyView::Connected(true),
                ReplyView::Characteristics(found),
                ReplyView::Properties(advertisement),
            ];
            &&& connect_run_from_enumeration(device_id, replies) == ConnectTurnView::Finished(
                Ok(
                    EstablishedView {
                        candidate: at,
                        characteristics: distinct_by_uuid(found),
                        device_name: display_name(advertisement),
                    },
                ),
            )
            &&& connect_requests_from_enumeration(device_id, replies) == seq![
                Request::QueryConnected { candidate: at },
                Request::DiscoverServices { candidate: at },
                Request::FetchProperties { candidate: at },
            ]
        }),
{
    reveal_with_fuel(drive, 5);
    reveal_with_fuel(requests_made, 5);
    let at = position_of(sightings, device_id).unwrap() as usize;
    let replies = seq![
        ReplyView::Peripherals(sightings),
        ReplyView::Connected(true),
        ReplyView::Characteristics(found),
        ReplyView::Properties(advertisement),
    ];
    let r1 = replies.drop_first();
    let r2 = r1.drop_first();
    let r3 = r2.drop_first();
    assert(r3.drop_first().len() == 0);
    assert(connect_requests_from_enumeration(device_id, replies) =~= seq![
        Request::QueryConnected { candidate: at },
        Request::DiscoverServices { candidate: at },
        Request::FetchProperties { candidate: at },
    ]);
}

/// A peripheral that no sighting identifies is not connected to: the
/// operation ends with `DeviceNotFound` and asks the radio nothing more.
pub proof fn law_unknown_device_is_not_found(device_id: Seq<char>, sightings: Seq<SightingView>)
    requires
        forall|i: int| 0 <= i < sightings.len() ==> (#[trigger] sightings[i]).id != device_id,
    ensures
        connect_step(enumerating(device_id), ReplyView::Peripherals(sightings)).fails_with(
            ErrorKind::DeviceNotFound,
        ),
{
    lemma_first_where_absent(sightings, |s: SightingView| s.id == device_id);
}

} // verus!
