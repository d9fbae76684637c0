use serde_json::Error as JsonError;
use vstd::prelude::*;
use zbus::Error as BusError;

verus! {

/// The error type of the D-Bus connection (`zbus::Error`), carried through unchanged.
#[verifier::external_type_specification]
#[verifier::external_body]
pub struct ExBusError(BusError);

/// The error type of file operations (`std::io::Error`), carried through unchanged.
#[verifier::external_type_specification]
#[verifier::external_body]
pub struct ExIoError(std::io::Error);

/// The error type of the JSON history codec (`serde_json::Error`), carried through unchanged.
#[verifier::external_type_specification]
#[verifier::external_body]
pub struct ExJsonError(JsonError);

/// Errors that can happen while the notification service is used.
#[derive(Debug)]
pub enum Error {
    /// D-Bus error, usually returned if another notification daemon is running on the session bus.
    DBusError(BusError),
    /// An operation that needs the bus was attempted before the service was started.
    NoConnection,
    /// A file operation on the history or the image cache failed.
    IOError(std::io::Error),
    /// The notification history could not be encoded or decoded as JSON.
    JSONError(JsonError),
    /// No notification with the given identifier is known.
    NotificationNotFound(u32),
    /// The service was started twice.
    ConnectionInitializedTwice,
}

/// Result whose error is [`Error`].
pub type Result<T> = core::result::Result<T, Error>;

} // verus!
