//! Reading the session: whether the peripheral is connected, and what
//! characteristics it has.

use vstd::prelude::*;

use crate::error::{outcome_view, BleError, ErrorKind, Failure};
use crate::gatt::{characteristic_lines, describe_all};
use crate::session::{BluetoothConnection, SessionView};

verus! {

/// What is known of the connection before the radio is asked.
#[derive(Clone, Copy, Debug, PartialEq, Eq, Hash, Structural)]
pub enum Liveness {
    /// The answer is settled without the radio.
    Settled(bool),
    /// Only the peripheral can tell.
    AskPeripheral,
}

/// What the session alone says of the connection: without a peripheral it
/// is not connected, with one the peripheral has to be asked.
pub open spec fn liveness_of<A, P>(session: SessionView<A, P>) -> Liveness {
    if session.peripheral is None {
        Liveness::Settled(false)
    } else {
        Liveness::AskPeripheral
    }
}

/// Says whether the peripheral has to be asked for the state of the
/// connection. Without a peripheral the answer is `false` and the radio is
/// left alone.
pub fn is_bluetooth_connected<A, P>(connection: &BluetoothConnection<A, P>) -> (liveness: Liveness)
    ensures
        liveness == liveness_of(connection@),
{
    if connection.has_peripheral() {
        Liveness::AskPeripheral
    } else {
        Liveness::Settled(false)
    }
}

/// How the peripheral's answer is judged: its word stands, and its failure
/// to answer is a `ConnectivityCheckError` with the platform's description.
pub open spec fn liveness_verdict(outcome: Result<bool, String>) -> Result<bool, Failure> {
    match outcome {
        Ok(answer) => Ok(answer),
        Err(detail) => Err(Failure { kind: ErrorKind::ConnectivityCheckError, detail: detail@ }),
    }
}

/// Judges the peripheral's answer.
pub fn judge_liveness(outcome: Result<bool, String>) -> (connected: Result<bool, BleError>)
    ensures
        outcome_view(connected) == liveness_verdict(outcome),
{
    match outcome {
        Ok(answer) => Ok(answer),
        Err(detail) => Err(BleError::with_detail(ErrorKind::ConnectivityCheckError, detail)),
    }
}

/// Lists the stored characteristics, one line each, in stored order. The
/// list is empty while no peripheral is connected.
pub fn get_characteristics<A, P>(connection: &BluetoothConnection<A, P>) -> (lines: Vec<String>)
    ensures
        lines.deep_view() == characteristic_lines(connection@.characteristics),
        connection@.peripheral is None ==> lines.len() == 0,
{
    let lines = describe_all(connection.characteristics());
    assert(lines.deep_view().len() == lines.len());
    lines
}

} // verus!
