//! Writing to and reading from a characteristic of the connected peripheral.
//!
//! Each transfer is planned against the session, then carried out by the
//! driver, then judged. The target is the characteristic with the UUID the
//! caller gave, or, where the caller gave none, the first one in stored
//! order that serves the direction of the transfer.

use vstd::prelude::*;
use vstd::utf8::{decode_utf8, encode_utf8, valid_utf8};

use crate::error::{outcome_view, BleError, ErrorKind, Failure};
use crate::gatt::{
    find_by_uuid, find_serving, first_serving, first_with_uuid, Access, Characteristic,
};
use crate::session::{BluetoothConnection, SessionView};
use crate::uuid_text::{describe_uuid_error, parse_uuid, parsed_uuid};

verus! {

/// Which characteristic the caller asked for.
#[derive(Clone, Debug, PartialEq, Eq)]
pub enum Target {
    /// None in particular: the first that serves the transfer.
    Auto,
    /// The one whose UUID has this value.
    Uuid(u128),
    /// One named by a text that is no UUID; the text's fault is described.
    Invalid(String),
}

/// The mathematical value of a [`Target`].
pub enum TargetView {
    Auto,
    Uuid(u128),
    Invalid(Seq<char>),
}

impl View for Target {
    type V = TargetView;

    open spec fn view(&self) -> TargetView {
        match self {
            Target::Auto => TargetView::Auto,
            Target::Uuid(value) => TargetView::Uuid(*value),
            Target::Invalid(detail) => TargetView::Invalid(detail@),
        }
    }
}

/// Whether a write waits for the peer to acknowledge it.
#[derive(Clone, Copy, Debug, PartialEq, Eq, Hash, Structural)]
pub enum WriteMode {
    /// The peer confirms the write or reports an error.
    WithResponse,
    /// The write is sent and not waited for.
    WithoutResponse,
}

/// A write that is ready to be carried out.
#[derive(Clone, Debug, PartialEq, Eq)]
pub struct WritePlan {
    /// The characteristic to write to.
    pub characteristic: Characteristic,
    /// The bytes to write.
    pub payload: Vec<u8>,
    /// How the write is sent.
    pub mode: WriteMode,
}

/// The mathematical value of a [`WritePlan`].
pub struct WritePlanView {
    pub characteristic: Characteristic,
    pub payload: Seq<u8>,
    pub mode: WriteMode,
}

impl View for WritePlan {
    type V = WritePlanView;

    open spec fn view(&self) -> WritePlanView {
        WritePlanView {
            characteristic: self.characteristic,
            payload: self.payload@,
            mode: self.mode,
        }
    }
}

/// A read that is ready to be carried out.
#[derive(Clone, Copy, Debug, PartialEq, Eq, Hash, Structural)]
pub struct ReadPlan {
    /// The characteristic to read from.
    pub characteristic: Characteristic,
}

impl View for ReadPlan {
    type V = ReadPlan;

    open spec fn view(&self) -> ReadPlan {
        *self
    }
}

/// The kind of failure of a transfer that finds no characteristic to serve it.
pub open spec fn none_serving(access: Access) -> ErrorKind {
    match access {
        Access::Read => ErrorKind::NoReadableCharacteristic,
        Access::Write => ErrorKind::NoWritableCharacteristic,
    }
}

/// A failure of `kind` with no description.
pub open spec fn bare(kind: ErrorKind) -> Failure {
    Failure { kind, detail: Seq::empty() }
}

/// The characteristic that a transfer in the direction `access` targets.
/// It needs a connected peripheral. A UUID must match a stored
/// characteristic exactly: where none matches, the transfer fails, whatever
/// the other characteristics could do.
pub open spec fn chosen<A, P>(session: SessionView<A, P>, target: TargetView, access: Access)
    -> Result<Characteristic, Failure> {
    if session.peripheral is None {
        Err(bare(ErrorKind::NotConnected))
    } else {
        match target {
            TargetView::Invalid(detail) => Err(Failure { kind: ErrorKind::InvalidUuid, detail }),
            TargetView::Uuid(uuid) => match first_with_uuid(session.characteristics, uuid) {
                Some(characteristic) => Ok(characteristic),
                None => Err(bare(ErrorKind::CharacteristicNotFound)),
            },
            TargetView::Auto => match first_serving(session.characteristics, access) {
                Some(characteristic) => Ok(characteristic),
                None => Err(bare(none_serving(access))),
            },
        }
    }
}

/// `target` is what the caller's text names: no text names no
/// characteristic in particular, a text that reads as a UUID names the
/// characteristic with that UUID, and any other text is invalid.
pub open spec fn names_target(char_uuid: Option<Seq<char>>, target: TargetView) -> bool {
    match char_uuid {
        None => target == TargetView::Auto,
        Some(text) => match parsed_uuid(text) {
            Some(uuid) => target == TargetView::Uuid(uuid),
            None => target is Invalid,
        },
    }
}

/// Reads the caller's text as a UUID, where a text was given.
pub fn resolve_target(char_uuid: Option<String>) -> (target: Target)
    ensures
        names_target(char_uuid.deep_view(), target@),
{
    match char_uuid {
        None => Target::Auto,
        Some(text) => match parse_uuid(text.as_str()) {
            Ok(uuid) => Target::Uuid(uuid),
            Err(error) => Target::Invalid(describe_uuid_error(&error)),
        },
    }
}

/// Picks the characteristic that a transfer targets.
pub fn choose_characteristic<A, P>(
    connection: &BluetoothConnection<A, P>,
    target: Target,
    access: Access,
) -> (choice: Result<Characteristic, BleError>)
    ensures
        outcome_view(choice) == chosen(connection@, target@, access),
{
    if !connection.has_peripheral() {
        return Err(BleError::plain(ErrorKind::NotConnected));
    }
    let stored = connection.characteristics();
    match target {
        Target::Invalid(detail) => Err(BleError::with_detail(ErrorKind::InvalidUuid, detail)),
        Target::Uuid(uuid) => match find_by_uuid(stored, uuid) {
            Some(characteristic) => Ok(characteristic),
            None => Err(BleError::plain(ErrorKind::CharacteristicNotFound)),
        },
        Target::Auto => match find_serving(stored, access) {
            Some(characteristic) => Ok(characteristic),
            None => match access {
                Access::Read => Err(BleError::plain(ErrorKind::NoReadableCharacteristic)),
                Access::Write => Err(BleError::plain(ErrorKind::NoWritableCharacteristic)),
            },
        },
    }
}

/// The write that sends `data` to `target`: its bytes are the UTF-8
/// encoding of the text, and it is sent without waiting for the peer,
/// whatever the characteristic supports.
pub open spec fn planned_write<A, P>(
    session: SessionView<A, P>,
    data: Seq<char>,
    target: TargetView,
) -> Result<WritePlanView, Failure> {
    match chosen(session, target, Access::Write) {
        Ok(characteristic) => Ok(
            WritePlanView {
                characteristic,
                payload: encode_utf8(data),
                mode: WriteMode::WithoutResponse,
            },
        ),
        Err(failure) => Err(failure),
    }
}

/// The read from `target`.
pub open spec fn planned_read<A, P>(session: SessionView<A, P>, target: TargetView) -> Result<
    ReadPlan,
    Failure,
> {
    match chosen(session, target, Access::Read) {
        Ok(characteristic) => Ok(ReadPlan { characteristic }),
        Err(failure) => Err(failure),
    }
}

/// Plans the write of `data` to `target`.
pub fn plan_write<A, P>(connection: &BluetoothConnection<A, P>, data: &String, target: Target) -> (plan:
    Result<WritePlan, BleError>)
    ensures
        outcome_view(plan) == planned_write(connection@, data@, target@),
{
    match choose_characteristic(connection, target, Access::Write) {
        Ok(characteristic) => Ok(
            WritePlan {
                characteristic,
                payload: data.as_str().as_bytes_vec(),
                mode: WriteMode::WithoutResponse,
            },
        ),
        Err(error) => Err(error),
    }
}

/// Plans the write of `data` to the characteristic that `char_uuid` names,
/// or to the first writable one where it names none.
///
/// It fails with `NotConnected` without a peripheral, with `InvalidUuid`
/// where the text is no UUID, with `CharacteristicNotFound` where no stored
/// characteristic has the UUID, and with `NoWritableCharacteristic` where
/// none was named and none accepts writes. The plan is the one that
/// [`plan_write`] makes for the target that the text names.
pub fn write_bluetooth<A, P>(
    connection: &BluetoothConnection<A, P>,
    data: &String,
    char_uuid: Option<String>,
) -> (plan: Result<WritePlan, BleError>)
    ensures
        exists|target: TargetView|
            names_target(char_uuid.deep_view(), target) && outcome_view(plan)
                == #[trigger] planned_write(connection@, data@, target),
{
    let target = resolve_target(char_uuid);
    let ghost named = target@;
    let plan = plan_write(connection, data, target);
    assert(outcome_view(plan) == planned_write(connection@, data@, named));
    plan
}

/// Plans the read from `target`.
pub fn plan_read<A, P>(connection: &BluetoothConnection<A, P>, target: Target) -> (plan: Result<
    ReadPlan,
    BleError,
>)
    ensures
        outcome_view(plan) == planned_read(connection@, target@),
{
    match choose_characteristic(connection, target, Access::Read) {
        Ok(characteristic) => Ok(ReadPlan { characteristic }),
        Err(error) => Err(error),
    }
}

/// Plans the read from the characteristic that `char_uuid` names, or from
/// the first readable one where it names none.
///
/// It fails with `NotConnected` without a peripheral, with `InvalidUuid`
/// where the text is no UUID, with `CharacteristicNotFound` where no stored
/// characteristic has the UUID, and with `NoReadableCharacteristic` where
/// none was named and none can be read. The plan is the one that
/// [`plan_read`] makes for the target that the text names.
pub fn read_bluetooth<A, P>(connection: &BluetoothConnection<A, P>, char_uuid: Option<String>) -> (plan:
    Result<ReadPlan, BleError>)
    ensures
        exists|target: TargetView|
            names_target(char_uuid.deep_view(), target) && outcome_view(plan)
                == #[trigger] planned_read(connection@, target),
{
    let target = resolve_target(char_uuid);
    let ghost named = target@;
    let plan = plan_read(connection, target);
    assert(outcome_view(plan) == planned_read(connection@, named));
    plan
}

/// What `String::from_utf8_lossy` makes of bytes: the text they encode,
/// with the replacement character in place of what is not UTF-8.
pub uninterp spec fn lossy_text(bytes: Seq<u8>) -> Seq<char>;

/// Calls `String::from_utf8_lossy`. Claimed: the text is the one that
/// [`lossy_text`] names for these bytes, and for bytes that are UTF-8 it is
/// the text they encode.
#[verifier::external_body]
fn decode_lossy(bytes: &Vec<u8>) -> (text: String)
    ensures
        text@ == lossy_text(bytes@),
        valid_utf8(bytes@) ==> text@ == decode_utf8(bytes@),
{
    String::from_utf8_lossy(bytes).into_owned()
}

/// How a write is judged once the driver has carried it out: the number of
/// bytes written, or `WriteError` with the platform's description.
pub open spec fn write_verdict(plan: WritePlanView, outcome: Result<(), Seq<char>>) -> Result<
    usize,
    Failure,
> {
    match outcome {
        Ok(_) => Ok(plan.payload.len() as usize),
        Err(detail) => Err(Failure { kind: ErrorKind::WriteError, detail }),
    }
}

/// The driver's report of a transfer, with the description as a sequence.
pub open spec fn report_view<T>(outcome: Result<T, String>) -> Result<T, Seq<char>> {
    match outcome {
        Ok(value) => Ok(value),
        Err(detail) => Err(detail@),
    }
}

impl WritePlan {
    /// Judges the write once the driver has carried it out.
    pub fn finish(self, outcome: Result<(), String>) -> (written: Result<usize, BleError>)
        ensures
            outcome_view(written) == write_verdict(self@, report_view(outcome)),
    {
        match outcome {
            Ok(_) => Ok(self.payload.len()),
            Err(detail) => Err(BleError::with_detail(ErrorKind::WriteError, detail)),
        }
    }
}

/// How a read is judged once the driver has carried it out: the bytes as
/// text, decoded leniently, so that no bytes make the read fail; or
/// `ReadError` with the platform's description.
pub open spec fn read_verdict(outcome: Result<Vec<u8>, String>) -> Result<Seq<char>, Failure> {
    match outcome {
        Ok(bytes) => Ok(lossy_text(bytes@)),
        Err(detail) => Err(Failure { kind: ErrorKind::ReadError, detail: detail@ }),
    }
}

impl ReadPlan {
    /// Judges the read once the driver has carried it out. Bytes that are
    /// UTF-8 come back as the text they encode.
    pub fn finish(self, outcome: Result<Vec<u8>, String>) -> (text: Result<String, BleError>)
        ensures
            outcome_view(text) == read_verdict(outcome),
            match outcome {
                Ok(bytes) => valid_utf8(bytes@) ==> lossy_text(bytes@) == decode_utf8(bytes@),
                Err(_) => true,
            },
    {
        match outcome {
            Ok(bytes) => Ok(decode_lossy(&bytes)),
            Err(detail) => Err(BleError::with_detail(ErrorKind::ReadError, detail)),
        }
    }
}

} // verus!
