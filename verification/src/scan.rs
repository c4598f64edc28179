//! Scanning for peripherals.
//!
//! A scan first stops whatever scan may be running and lets the radio
//! settle, then scans for the time the caller gave, stops, and reads what
//! each peripheral seen advertises. One failed lookup fails the whole scan.
//! Only devices that advertise a real name are reported.

use vstd::prelude::*;

use crate::device::{
    list_device, listed_device, listed_devices, AdvertisementView, BluetoothDevice, DeviceView,
    Sighting, SightingView,
};
use crate::error::{BleError, ErrorKind, Failure};
use crate::protocol::{
    drive, fail_with, failure_of, lemma_drive_append, requests_made, Reply, ReplyView, Request,
    Turn, TurnView, PRE_SCAN_SETTLE_MS,
};
use crate::session::BluetoothConnection;

verus! {

/// The request that a scan is waiting on.
#[derive(Clone, Copy, Debug, PartialEq, Eq, Hash, Structural)]
pub enum ScanPhase {
    /// Any earlier scan was asked to stop.
    Quiescing,
    /// The radio is settling.
    Settling,
    /// The scan was asked to start.
    Starting,
    /// The scan is listening.
    Listening,
    /// The scan was asked to stop.
    Stopping,
    /// The peripherals are being enumerated.
    Enumerating,
    /// The properties of one peripheral are being fetched.
    Collecting,
}

/// A scan under way.
#[derive(Debug)]
pub struct ScanOp {
    phase: ScanPhase,
    window_secs: u64,
    sightings: Vec<Sighting>,
    cursor: usize,
    devices: Vec<BluetoothDevice>,
}

/// The mathematical value of a [`ScanOp`].
pub struct ScanOpView {
    /// The request that the scan is waiting on.
    pub phase: ScanPhase,
    /// How long the scan listens, in seconds.
    pub window_secs: u64,
    /// The peripherals enumerated, in the platform's order.
    pub sightings: Seq<SightingView>,
    /// The position of the peripheral whose properties are awaited.
    pub cursor: int,
    /// The devices to report of the peripherals before the cursor.
    pub devices: Seq<DeviceView>,
}

impl ScanOpView {
    /// While properties are awaited, the cursor names a peripheral.
    pub open spec fn well_formed(self) -> bool {
        self.phase == ScanPhase::Collecting ==> 0 <= self.cursor < self.sightings.len()
    }
}

impl View for ScanOp {
    type V = ScanOpView;

    closed spec fn view(&self) -> ScanOpView {
        ScanOpView {
            phase: self.phase,
            window_secs: self.window_secs,
            sightings: self.sightings.deep_view(),
            cursor: self.cursor as int,
            devices: self.devices.deep_view(),
        }
    }
}

impl DeepView for ScanOp {
    type V = ScanOpView;

    open spec fn deep_view(&self) -> ScanOpView {
        self@
    }
}

/// A turn of a scan.
pub type ScanTurn = Turn<ScanOp, Vec<BluetoothDevice>>;

/// The mathematical value of a [`ScanTurn`].
pub type ScanTurnView = TurnView<ScanOpView, Seq<DeviceView>>;

/// The scan in `phase`, otherwise as `op` is.
pub open spec fn scan_in(op: ScanOpView, phase: ScanPhase) -> ScanOpView {
    ScanOpView { phase, ..op }
}

/// How a scan opens: it needs an adapter, and begins by stopping any scan
/// that may be running.
pub open spec fn scan_begin(initialized: bool, window_secs: u64) -> ScanTurnView {
    if initialized {
        TurnView::Continue(
            ScanOpView {
                phase: ScanPhase::Quiescing,
                window_secs,
                sightings: Seq::empty(),
                cursor: 0,
                devices: Seq::empty(),
            },
            Request::StopScan,
        )
    } else {
        TurnView::Finished(
            Err(Failure { kind: ErrorKind::NotInitialized, detail: Seq::empty() }),
        )
    }
}

/// The devices to report once the peripheral at the cursor has answered
/// with `advertisement`.
pub open spec fn collected(op: ScanOpView, advertisement: Option<AdvertisementView>) -> Seq<
    DeviceView,
> {
    match listed_device(op.sightings[op.cursor], advertisement) {
        Some(device) => op.devices.push(device),
        None => op.devices,
    }
}

/// How a scan goes on when `reply` answers its pending request.
pub open spec fn scan_step(op: ScanOpView, reply: ReplyView) -> ScanTurnView {
    match op.phase {
        // The first stop is best effort: there may be no scan to stop.
        ScanPhase::Quiescing => TurnView::Continue(
            scan_in(op, ScanPhase::Settling),
            Request::Settle { millis: PRE_SCAN_SETTLE_MS },
        ),
        ScanPhase::Settling => TurnView::Continue(
            scan_in(op, ScanPhase::Starting),
            Request::StartScan,
        ),
        ScanPhase::Starting => match reply {
            ReplyView::Done => TurnView::Continue(
                scan_in(op, ScanPhase::Listening),
                Request::Listen { seconds: op.window_secs },
            ),
            _ => TurnView::Finished(Err(failure_of(ErrorKind::ScanStartError, reply))),
        },
        ScanPhase::Listening => TurnView::Continue(
            scan_in(op, ScanPhase::Stopping),
            Request::StopScan,
        ),
        ScanPhase::Stopping => match reply {
            ReplyView::Done => TurnView::Continue(
                scan_in(op, ScanPhase::Enumerating),
                Request::ListPeripherals,
            ),
            _ => TurnView::Finished(Err(failure_of(ErrorKind::ScanStopError, reply))),
        },
        ScanPhase::Enumerating => match reply {
            ReplyView::Peripherals(sightings) => if sightings.len() == 0 {
                TurnView::Finished(Ok(Seq::empty()))
            } else {
                TurnView::Continue(
                    ScanOpView {
                        phase: ScanPhase::Collecting,
                        sightings,
                        cursor: 0,
                        devices: Seq::empty(),
                        ..op
                    },
                    Request::FetchProperties { candidate: 0 },
                )
            },
            _ => TurnView::Finished(Err(failure_of(ErrorKind::PeripheralListError, reply))),
        },
        ScanPhase::Collecting => match reply {
            ReplyView::Properties(advertisement) => if op.cursor + 1 < op.sightings.len() {
                TurnView::Continue(
                    ScanOpView {
                        cursor: op.cursor + 1,
                        devices: collected(op, advertisement),
                        ..op
                    },
                    Request::FetchProperties { candidate: (op.cursor + 1) as usize },
                )
            } else {
                TurnView::Finished(Ok(collected(op, advertisement)))
            },
            _ => TurnView::Finished(Err(failure_of(ErrorKind::PropertiesError, reply))),
        },
    }
}

/// Opens a scan that listens for `timeout_secs` seconds. Without an adapter
/// it ends at once with `NotInitialized`.
pub fn scan_bluetooth_devices<A, P>(connection: &BluetoothConnection<A, P>, timeout_secs: u64) -> (turn:
    ScanTurn)
    ensures
        turn@ == scan_begin(connection@.adapter is Some, timeout_secs),
{
    if connection.is_initialized() {
        let op = ScanOp {
            phase: ScanPhase::Quiescing,
            window_secs: timeout_secs,
            sightings: Vec::new(),
            cursor: 0,
            devices: Vec::new(),
        };
        assert(op@.sightings =~= Seq::empty() && op@.devices =~= Seq::empty());
        Turn::Continue(op, Request::StopScan)
    } else {
        Turn::Finished(Err(BleError::plain(ErrorKind::NotInitialized)))
    }
}

impl ScanOp {
    #[verifier::type_invariant]
    spec fn inv(self) -> bool {
        self@.well_formed()
    }

    /// The scan in `phase`, otherwise as it is. Not for the phase that
    /// awaits properties.
    fn moved_to(self, phase: ScanPhase) -> (op: ScanOp)
        requires
            phase != ScanPhase::Collecting,
        ensures
            op@ == scan_in(self@, phase),
    {
        ScanOp { phase, ..self }
    }

    /// Takes the reply to the pending request and says what comes next.
    pub fn resume(self, reply: Reply) -> (turn: ScanTurn)
        ensures
            self@.well_formed(),
            turn@ == scan_step(self@, reply@),
    {
        proof {
            use_type_invariant(&self);
        }
        match self.phase {
            ScanPhase::Quiescing => Turn::Continue(
                self.moved_to(ScanPhase::Settling),
                Request::Settle { millis: PRE_SCAN_SETTLE_MS },
            ),
            ScanPhase::Settling => Turn::Continue(
                self.moved_to(ScanPhase::Starting),
                Request::StartScan,
            ),
            ScanPhase::Starting => match reply {
                Reply::Done => {
                    let seconds = self.window_secs;
                    Turn::Continue(self.moved_to(ScanPhase::Listening), Request::Listen { seconds })
                },
                other => Turn::Finished(Err(fail_with(ErrorKind::ScanStartError, other))),
            },
            ScanPhase::Listening => Turn::Continue(
                self.moved_to(ScanPhase::Stopping),
                Request::StopScan,
            ),
            ScanPhase::Stopping => match reply {
                Reply::Done => Turn::Continue(
                    self.moved_to(ScanPhase::Enumerating),
                    Request::ListPeripherals,
                ),
                other => Turn::Finished(Err(fail_with(ErrorKind::ScanStopError, other))),
            },
            ScanPhase::Enumerating => match reply {
                Reply::Peripherals(sightings) => {
                    let devices: Vec<BluetoothDevice> = Vec::new();
                    assert(devices.deep_view() =~= Seq::empty());
                    if sightings.len() == 0 {
                        Turn::Finished(Ok(devices))
                    } else {
                        Turn::Continue(
                            ScanOp {
                                phase: ScanPhase::Collecting,
                                window_secs: self.window_secs,
                                sightings,
                                cursor: 0,
                                devices,
                            },
                            Request::FetchProperties { candidate: 0 },
                        )
                    }
                },
                other => Turn::Finished(Err(fail_with(ErrorKind::PeripheralListError, other))),
            },
            ScanPhase::Collecting => match reply {
                Reply::Properties(advertisement) => {
                    let ghost before = self@;
                    assert(self.sightings.deep_view().len() == self.sightings.len());
                    let ScanOp { phase, window_secs, sightings, cursor, devices } = self;
                    let mut devices = devices;
                    let ghost earlier = devices.deep_view();
                    match list_device(&sightings[cursor], advertisement) {
                        Some(device) => {
                            devices.push(device);
                            assert(devices.deep_view() =~= earlier.push(device@));
                        },
                        None => {},
                    }
                    assert(devices.deep_view() == collected(before, advertisement.deep_view()));
                    let next: usize = cursor + 1;
                    if next < sightings.len() {
                        Turn::Continue(
                            ScanOp { phase, window_secs, sightings, cursor: next, devices },
                            Request::FetchProperties { candidate: next },
                        )
                    } else {
                        Turn::Finished(Ok(devices))
                    }
                },
                other => Turn::Finished(Err(fail_with(ErrorKind::PropertiesError, other))),
            },
        }
    }
}

/// Where a scan of `window_secs` seconds stands, with an adapter in use,
/// after the driver has answered `replies` in turn.
pub open spec fn scan_run(window_secs: u64, replies: Seq<ReplyView>) -> ScanTurnView {
    drive(
        |op: ScanOpView, reply: ReplyView| scan_step(op, reply),
        scan_begin(true, window_secs),
        replies,
    )
}

/// The replies of a radio that goes along until the peripherals are
/// enumerated: whatever it says to the first stop and to the two waits, it
/// starts and stops the scan and has seen `sightings`.
pub open spec fn replies_up_to_enumeration(
    quiesce: ReplyView,
    settle: ReplyView,
    listen: ReplyView,
    sightings: Seq<SightingView>,
) -> Seq<ReplyView> {
    seq![
        quiesce,
        settle,
        ReplyView::Done,
        listen,
        ReplyView::Done,
        ReplyView::Peripherals(sightings),
    ]
}

/// One successful lookup per advertisement, in order.
pub open spec fn property_replies(advertisements: Seq<Option<AdvertisementView>>) -> Seq<
    ReplyView,
> {
    Seq::new(advertisements.len(), |i: int| ReplyView::Properties(advertisements[i]))
}

/// A scan that awaits the properties of the peripheral at `cursor`, after
/// the peripherals before it have answered with the first advertisements.
pub open spec fn collecting(
    window_secs: u64,
    sightings: Seq<SightingView>,
    advertisements: Seq<Option<AdvertisementView>>,
    cursor: int,
) -> ScanTurnView {
    TurnView::Continue(
        ScanOpView {
            phase: ScanPhase::Collecting,
            window_secs,
            sightings,
            cursor,
            devices: listed_devices(sightings.take(cursor), advertisements.take(cursor)),
        },
        Request::FetchProperties { candidate: cursor as usize },
    )
}

/// One more successful lookup adds what is listed of the peripheral at the
/// cursor to what is listed of those before it.
proof fn lemma_collected_extends(
    window_secs: u64,
    sightings: Seq<SightingView>,
    advertisements: Seq<Option<AdvertisementView>>,
    cursor: int,
)
    requires
        0 <= cursor < sightings.len(),
        cursor < advertisements.len(),
    ensures
        collecting(window_secs, sightings, advertisements, cursor) matches TurnView::Continue(
            op,
            _,
        ) && collected(op, advertisements[cursor]) == listed_devices(
            sightings.take(cursor + 1),
            advertisements.take(cursor + 1),
        ),
{
    assert(sightings.take(cursor + 1).drop_last() =~= sightings.take(cursor));
    assert(advertisements.take(cursor + 1).drop_last() =~= advertisements.take(cursor));
}

/// Successful lookups move the cursor along, one peripheral per reply.
proof fn lemma_collect_up_to(
    window_secs: u64,
    sightings: Seq<SightingView>,
    advertisements: Seq<Option<AdvertisementView>>,
    cursor: int,
)
    requires
        0 <= cursor <= advertisements.len() < sightings.len() <= usize::MAX,
    ensures
        drive(
            |op: ScanOpView, reply: ReplyView| scan_step(op, reply),
            collecting(window_secs, sightings, advertisements, cursor),
            property_replies(advertisements).skip(cursor),
        ) == collecting(window_secs, sightings, advertisements, advertisements.len() as int),
    decreases advertisements.len() - cursor,
{
    let step = |op: ScanOpView, reply: ReplyView| scan_step(op, reply);
    let replies = property_replies(advertisements).skip(cursor);
    if cursor < advertisements.len() {
        lemma_collected_extends(window_secs, sightings, advertisements, cursor);
        assert(replies[0] == ReplyView::Properties(advertisements[cursor]));
        assert(replies.drop_first() =~= property_replies(advertisements).skip(cursor + 1));
        lemma_collect_up_to(window_secs, sightings, advertisements, cursor + 1);
    }
}

/// A scan on a radio that goes along reports exactly the peripherals that
/// advertise a real name, in the order in which the platform enumerated
/// them, each with its identifier, name, address and signal strength.
pub proof fn law_scan_reports_named_devices(
    window_secs: u64,
    quiesce: ReplyView,
    settle: ReplyView,
    listen: ReplyView,
    sightings: Seq<SightingView>,
    advertisements: Seq<Option<AdvertisementView>>,
)
    requires
        sightings.len() == advertisements.len(),
        sightings.len() <= usize::MAX,
    ensures
        scan_run(
            window_secs,
            replies_up_to_enumeration(quiesce, settle, listen, sightings) + property_replies(
                advertisements,
            ),
        ) == ScanTurnView::Finished(Ok(listed_devices(sightings, advertisements))),
{
    let step = |op: ScanOpView, reply: ReplyView| scan_step(op, reply);
    let opening = replies_up_to_enumeration(quiesce, settle, listen, sightings);
    let lookups = property_replies(advertisements);
    lemma_scan_reaches_lookups(window_secs, quiesce, settle, listen, sightings);
    lemma_drive_append(step, scan_begin(true, window_secs), opening, lookups);
    if sightings.len() > 0 {
        let last = sightings.len() - 1;
        let earlier = advertisements.take(last);
        assert(sightings.take(0) =~= Seq::empty());
        assert(earlier.take(0) =~= Seq::empty());
        let start = collecting(window_secs, sightings, earlier, 0);
        assert(drive(step, scan_begin(true, window_secs), opening) == start);
        lemma_collect_up_to(window_secs, sightings, earlier, 0);
        assert(property_replies(earlier).skip(0) =~= property_replies(earlier));
        let closing = seq![ReplyView::Properties(advertisements[last])];
        assert(lookups =~= property_replies(earlier) + closing);
        lemma_drive_append(step, start, property_replies(earlier), closing);
        lemma_collected_extends(window_secs, sightings, advertisements, last);
        assert(earlier.take(last) =~= advertisements.take(last));
        assert(sightings.take(last + 1) =~= sightings);
        assert(advertisements.take(last + 1) =~= advertisements);
        reveal_with_fuel(drive, 2);
        assert(closing.drop_first().len() == 0);
    }
}

/// A scan on a radio that goes along asks for the peripherals' properties
/// once the peripherals are enumerated, or ends with nothing to report where
/// none was seen.
proof fn lemma_scan_reaches_lookups(
    window_secs: u64,
    quiesce: ReplyView,
    settle: ReplyView,
    listen: ReplyView,
    sightings: Seq<SightingView>,
)
    ensures
        scan_run(window_secs, replies_up_to_enumeration(quiesce, settle, listen, sightings)) == (
        if sightings.len() == 0 {
            ScanTurnView::Finished(Ok(Seq::empty()))
        } else {
            TurnView::Continue(
                ScanOpView {
                    phase: ScanPhase::Collecting,
                    window_secs,
                    sightings,
                    cursor: 0,
                    devices: Seq::empty(),
                },
                Request::FetchProperties { candidate: 0 },
            )
        }),
{
    reveal_with_fuel(drive, 7);
    let replies = replies_up_to_enumeration(quiesce, settle, listen, sightings);
    let r1 = replies.drop_first();
    let r2 = r1.drop_first();
    let r3 = r2.drop_first();
    let r4 = r3.drop_first();
    let r5 = r4.drop_first();
    assert(r5.drop_first().len() == 0);
}

/// One failed lookup fails the whole scan: however many peripherals
/// answered before it, nothing is reported, and the failure carries the
/// platform's description.
pub proof fn law_failed_lookup_fails_scan(
    window_secs: u64,
    quiesce: ReplyView,
    settle: ReplyView,
    listen: ReplyView,
    sightings: Seq<SightingView>,
    advertisements: Seq<Option<AdvertisementView>>,
    detail: Seq<char>,
)
    requires
        advertisements.len() < sightings.len() <= usize::MAX,
    ensures
        scan_run(
            window_secs,
            replies_up_to_enumeration(quiesce, settle, listen, sightings) + property_replies(
                advertisements,
            ) + seq![ReplyView::Failed(detail)],
        ) == ScanTurnView::Finished(Err(Failure { kind: ErrorKind::PropertiesError, detail })),
{
    let step = |op: ScanOpView, reply: ReplyView| scan_step(op, reply);
    let opening = replies_up_to_enumeration(quiesce, settle, listen, sightings);
    let lookups = property_replies(advertisements);
    let failing = seq![ReplyView::Failed(detail)];
    lemma_scan_reaches_lookups(window_secs, quiesce, settle, listen, sightings);
    assert(opening + lookups + failing =~= opening + (lookups + failing));
    lemma_drive_append(step, scan_begin(true, window_secs), opening, lookups + failing);
    assert(sightings.take(0) =~= Seq::empty());
    assert(advertisements.take(0) =~= Seq::empty());
    let start = collecting(window_secs, sightings, advertisements, 0);
    assert(drive(step, scan_begin(true, window_secs), opening) == start);
    lemma_collect_up_to(window_secs, sightings, advertisements, 0);
    assert(lookups.skip(0) =~= lookups);
    lemma_drive_append(step, start, lookups, failing);
    reveal_with_fuel(drive, 2);
    assert(failing.drop_first().len() == 0);
}

/// A scan whose start the radio refuses ends with `ScanStartError`, and one
/// whose stop it refuses ends with `ScanStopError`; the first stop and the
/// waits cannot fail it.
pub proof fn law_scan_start_and_stop_must_succeed(
    window_secs: u64,
    quiesce: ReplyView,
    settle: ReplyView,
    listen: ReplyView,
    detail: Seq<char>,
)
    ensures
        scan_run(window_secs, seq![quiesce, settle, ReplyView::Failed(detail)])
            == ScanTurnView::Finished(Err(Failure { kind: ErrorKind::ScanStartError, detail })),
        scan_run(
            window_secs,
            seq![quiesce, settle, ReplyView::Done, listen, ReplyView::Failed(detail)],
        ) == ScanTurnView::Finished(Err(Failure { kind: ErrorKind::ScanStopError, detail })),
{
    reveal_with_fuel(drive, 6);
    let a = seq![quiesce, settle, ReplyView::Failed(detail)];
    assert(a.drop_first().drop_first().drop_first().len() == 0);
    let b = seq![quiesce, settle, ReplyView::Done, listen, ReplyView::Failed(detail)];
    let b1 = b.drop_first();
    let b2 = b1.drop_first();
    let b3 = b2.drop_first();
    let b4 = b3.drop_first();
    assert(b4.drop_first().len() == 0);
}

/// The order of a scan's requests up to the enumeration: a stop comes
/// before the start, the radio settles in between, the scan listens for the
/// time the caller gave, and a stop follows before anything is read.
pub proof fn law_scan_stops_before_it_starts(
    window_secs: u64,
    quiesce: ReplyView,
    settle: ReplyView,
    listen: ReplyView,
)
    ensures
        requests_made(
            |op: ScanOpView, reply: ReplyView| scan_step(op, reply),
            scan_begin(true, window_secs),
            seq![quiesce, settle, ReplyView::Done, listen, ReplyView::Done],
        ) == seq![
            Request::StopScan,
            Request::Settle { millis: PRE_SCAN_SETTLE_MS },
            Request::StartScan,
            Request::Listen { seconds: window_secs },
            Request::StopScan,
            Request::ListPeripherals,
        ],
{
    reveal_with_fuel(requests_made, 6);
    let replies = seq![quiesce, settle, ReplyView::Done, listen, ReplyView::Done];
    let r1 = replies.drop_first();
    let r2 = r1.drop_first();
    let r3 = r2.drop_first();
    let r4 = r3.drop_first();
    assert(r4.drop_first().len() == 0);
    assert(requests_made(
        |op: ScanOpView, reply: ReplyView| scan_step(op, reply),
        scan_begin(true, window_secs),
        replies,
    ) =~= seq![
        Request::StopScan,
        Request::Settle { millis: PRE_SCAN_SETTLE_MS },
        Request::StartScan,
        Request::Listen { seconds: window_secs },
        Request::StopScan,
        Request::ListPeripherals,
    ]);
}

} // verus!
