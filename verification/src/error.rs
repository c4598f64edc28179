//! Failures an operation can end with.

use vstd::prelude::*;

verus! {

/// What went wrong, without the platform's wording.
#[derive(Clone, Copy, Debug, PartialEq, Eq, Hash, Structural)]
pub enum ErrorKind {
    /// The platform's adapter enumeration could not be reached.
    AdapterInitError,
    /// The platform reported no adapter at all.
    NoAdapterFound,
    /// The operation needs an adapter and none has been acquired yet.
    NotInitialized,
    /// The radio refused to start scanning.
    ScanStartError,
    /// The radio refused to stop scanning.
    ScanStopError,
    /// The adapter could not list the peripherals it has seen.
    PeripheralListError,
    /// A peripheral's advertised properties could not be fetched.
    PropertiesError,
    /// No seen peripheral carries the requested identifier.
    DeviceNotFound,
    /// The link to the peripheral could not be established.
    ConnectError,
    /// The peripheral's services could not be discovered.
    ServiceDiscoveryError,
    /// The link to the peripheral could not be torn down.
    DisconnectError,
    /// The peripheral could not say whether it is connected.
    ConnectivityCheckError,
    /// The characteristic identifier is not a UUID.
    InvalidUuid,
    /// No discovered characteristic carries the requested UUID.
    CharacteristicNotFound,
    /// No discovered characteristic accepts writes.
    NoWritableCharacteristic,
    /// No discovered characteristic can be read.
    NoReadableCharacteristic,
    /// The operation needs a connected peripheral and there is none.
    NotConnected,
    /// The peripheral rejected the write.
    WriteError,
    /// The peripheral rejected the read.
    ReadError,
    /// The shared session could not be locked.
    LockAcquisitionFailure,
}

/// A failure: its kind, and the platform's own description where there is one.
#[derive(Clone, Debug, PartialEq, Eq)]
pub struct BleError {
    pub kind: ErrorKind,
    pub detail: String,
}

/// The mathematical value of a [`BleError`].
pub struct Failure {
    pub kind: ErrorKind,
    pub detail: Seq<char>,
}

impl View for BleError {
    type V = Failure;

    open spec fn view(&self) -> Failure {
        Failure { kind: self.kind, detail: self.detail@ }
    }
}

impl DeepView for BleError {
    type V = Failure;

    open spec fn deep_view(&self) -> Failure {
        self@
    }
}

/// The fixed sentence that opens the message of each kind.
pub open spec fn headline_text(kind: ErrorKind) -> Seq<char> {
    match kind {
        ErrorKind::AdapterInitError => "Failed to initialize Bluetooth"@,
        ErrorKind::NoAdapterFound => "No Bluetooth adapter found"@,
        ErrorKind::NotInitialized => "Bluetooth is not initialized"@,
        ErrorKind::ScanStartError => "Failed to start scanning"@,
        ErrorKind::ScanStopError => "Failed to stop scanning"@,
        ErrorKind::PeripheralListError => "Failed to list devices"@,
        ErrorKind::PropertiesError => "Failed to fetch device properties"@,
        ErrorKind::DeviceNotFound => "Device not found"@,
        ErrorKind::ConnectError => "Failed to connect"@,
        ErrorKind::ServiceDiscoveryError => "Failed to discover services"@,
        ErrorKind::DisconnectError => "Failed to disconnect"@,
        ErrorKind::ConnectivityCheckError => "Failed to check the connection"@,
        ErrorKind::InvalidUuid => "Invalid UUID"@,
        ErrorKind::CharacteristicNotFound => "Characteristic not found"@,
        ErrorKind::NoWritableCharacteristic => "No writable characteristic found"@,
        ErrorKind::NoReadableCharacteristic => "No readable characteristic found"@,
        ErrorKind::NotConnected => "No active connection"@,
        ErrorKind::WriteError => "Failed to write data"@,
        ErrorKind::ReadError => "Failed to read data"@,
        ErrorKind::LockAcquisitionFailure => "Failed to lock the session"@,
    }
}

/// The message of a failure: the headline of its kind, followed by a colon
/// and the detail when the detail is not empty.
pub open spec fn message_text(failure: Failure) -> Seq<char> {
    if failure.detail.len() == 0 {
        headline_text(failure.kind)
    } else {
        headline_text(failure.kind) + ": "@ + failure.detail
    }
}

/// The headline of `kind` as a string slice.
pub fn headline(kind: ErrorKind) -> (text: &'static str)
    ensures
        text@ == headline_text(kind),
{
    match kind {
        ErrorKind::AdapterInitError => "Failed to initialize Bluetooth",
        ErrorKind::NoAdapterFound => "No Bluetooth adapter found",
        ErrorKind::NotInitialized => "Bluetooth is not initialized",
        ErrorKind::ScanStartError => "Failed to start scanning",
        ErrorKind::ScanStopError => "Failed to stop scanning",
        ErrorKind::PeripheralListError => "Failed to list devices",
        ErrorKind::PropertiesError => "Failed to fetch device properties",
        ErrorKind::DeviceNotFound => "Device not found",
        ErrorKind::ConnectError => "Failed to connect",
        ErrorKind::ServiceDiscoveryError => "Failed to discover services",
        ErrorKind::DisconnectError => "Failed to disconnect",
        ErrorKind::ConnectivityCheckError => "Failed to check the connection",
        ErrorKind::InvalidUuid => "Invalid UUID",
        ErrorKind::CharacteristicNotFound => "Characteristic not found",
        ErrorKind::NoWritableCharacteristic => "No writable characteristic found",
        ErrorKind::NoReadableCharacteristic => "No readable characteristic found",
        ErrorKind::NotConnected => "No active connection",
        ErrorKind::WriteError => "Failed to write data",
        ErrorKind::ReadError => "Failed to read data",
        ErrorKind::LockAcquisitionFailure => "Failed to lock the session",
    }
}

impl BleError {
    /// A failure of `kind` that carries no platform description.
    pub fn plain(kind: ErrorKind) -> (error: BleError)
        ensures
            error@ == (Failure { kind, detail: Seq::empty() }),
    {
        BleError { kind, detail: String::new() }
    }

    /// A failure of `kind` described by the platform as `detail`.
    pub fn with_detail(kind: ErrorKind, detail: String) -> (error: BleError)
        ensures
            error@ == (Failure { kind, detail: detail@ }),
    {
        BleError { kind, detail }
    }

    /// The descriptive string shown to the caller of a failed operation.
    pub fn message(&self) -> (text: String)
        ensures
            text@ == message_text(self@),
    {
        let mut text = headline(self.kind).to_owned();
        if !self.detail.as_str().is_empty() {
            text.append(": ");
            text.append(self.detail.as_str());
        }
        text
    }
}

/// The mathematical value of an operation's result: the value of what it
/// returned, or the value of the failure.
pub open spec fn outcome_view<T: View>(outcome: Result<T, BleError>) -> Result<T::V, Failure> {
    match outcome {
        Ok(value) => Ok(value@),
        Err(error) => Err(error@),
    }
}

} // verus!
