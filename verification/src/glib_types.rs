use crate::close_reason::CloseReason;
use crate::error::Error;
use crate::notification_service::NotificationServiceError;
use crate::urgency::Urgency;
use vstd::prelude::*;

verus! {

/// The close reason as registered with the GObject type system.
#[derive(Copy, Clone, Debug, PartialEq, Eq, Structural)]
pub enum GCloseReason {
    /// The notification expired.
    Expired,
    /// The notification was dismissed by the user.
    Dismissed,
    /// The notification was closed by a call to `CloseNotification`.
    DBusCall,
    /// Undefined or reserved reasons.
    Other,
}

/// The GObject close reason that stands for `reason`.
pub open spec fn g_close_reason_of(reason: CloseReason) -> GCloseReason {
    match reason {
        CloseReason::Expired => GCloseReason::Expired,
        CloseReason::Dismissed => GCloseReason::Dismissed,
        CloseReason::DBusCall => GCloseReason::DBusCall,
        CloseReason::Other => GCloseReason::Other,
    }
}

impl From<CloseReason> for GCloseReason {
    fn from(value: CloseReason) -> (r: Self)
        ensures
            r == g_close_reason_of(value),
    {
        match value {
            CloseReason::Expired => GCloseReason::Expired,
            CloseReason::Dismissed => GCloseReason::Dismissed,
            CloseReason::DBusCall => GCloseReason::DBusCall,
            CloseReason::Other => GCloseReason::Other,
        }
    }
}

impl vstd::std_specs::convert::FromSpecImpl<CloseReason> for GCloseReason {
    open spec fn obeys_from_spec() -> bool {
        true
    }

    open spec fn from_spec(v: CloseReason) -> GCloseReason {
        g_close_reason_of(v)
    }
}

/// The urgency as registered with the GObject type system.
#[derive(Copy, Clone, Debug, PartialEq, Eq, Structural)]
pub enum GUrgency {
    /// A low level of urgency.
    Low,
    /// A normal level of urgency.
    Normal,
    /// A critical level of urgency.
    Critical,
}

/// The GObject urgency that stands for `urgency`.
pub open spec fn g_urgency_of(urgency: Urgency) -> GUrgency {
    match urgency {
        Urgency::Low => GUrgency::Low,
        Urgency::Normal => GUrgency::Normal,
        Urgency::Critical => GUrgency::Critical,
    }
}

impl From<Urgency> for GUrgency {
    fn from(value: Urgency) -> (r: Self)
        ensures
            r == g_urgency_of(value),
    {
        match value {
            Urgency::Low => GUrgency::Low,
            Urgency::Normal => GUrgency::Normal,
            Urgency::Critical => GUrgency::Critical,
        }
    }
}

impl vstd::std_specs::convert::FromSpecImpl<Urgency> for GUrgency {
    open spec fn obeys_from_spec() -> bool {
        true
    }

    open spec fn from_spec(v: Urgency) -> GUrgency {
        g_urgency_of(v)
    }
}

impl Default for GUrgency {
    fn default() -> (r: Self)
        ensures
            r == GUrgency::Low,
    {
        GUrgency::Low
    }
}

/// The error codes of the GObject error domain of the notification service.
#[derive(Copy, Clone, Debug, PartialEq, Eq, Structural)]
pub enum GError {
    /// A D-Bus operation failed.
    DBusError,
    /// The service was not started.
    NoConnection,
    /// A file operation failed.
    IOError,
    /// The history file could not be encoded or decoded.
    JSONError,
    /// No notification with the requested identifier exists.
    NotificationNotFound,
    /// The service was started twice.
    ConnectionInitializedTwice,
}

/// The error code that stands for `e`.
pub open spec fn g_error_of(e: Error) -> GError {
    match e {
        Error::DBusError(_) => GError::DBusError,
        Error::NoConnection => GError::NoConnection,
        Error::IOError(_) => GError::IOError,
        Error::JSONError(_) => GError::JSONError,
        Error::NotificationNotFound(_) => GError::NotificationNotFound,
        Error::ConnectionInitializedTwice => GError::ConnectionInitializedTwice,
    }
}

impl<'a> From<&'a Error> for GError {
    fn from(e: &'a Error) -> (r: Self)
        ensures
            r == g_error_of(*e),
    {
        match e {
            Error::NoConnection => GError::NoConnection,
            Error::DBusError(_) => GError::DBusError,
            Error::IOError(_) => GError::IOError,
            Error::JSONError(_) => GError::JSONError,
            Error::NotificationNotFound(_) => GError::NotificationNotFound,
            Error::ConnectionInitializedTwice => GError::ConnectionInitializedTwice,
        }
    }
}

impl<'a> vstd::std_specs::convert::FromSpecImpl<&'a Error> for GError {
    open spec fn obeys_from_spec() -> bool {
        true
    }

    open spec fn from_spec(v: &'a Error) -> GError {
        g_error_of(*v)
    }
}

/// The error codes of the GObject error domain of the hash-map based service.
#[derive(Copy, Clone, Debug, PartialEq, Eq, Structural)]
pub enum GIgnisNotificationsError {
    /// A D-Bus operation failed.
    DBusError,
    /// The service was not started.
    NoConnection,
}

/// The error code that stands for `e`.
pub open spec fn g_service_error_of(e: NotificationServiceError) -> GIgnisNotificationsError {
    match e {
        NotificationServiceError::NoConnection => GIgnisNotificationsError::NoConnection,
        NotificationServiceError::DBusError(_) => GIgnisNotificationsError::DBusError,
    }
}

impl From<NotificationServiceError> for GIgnisNotificationsError {
    fn from(e: NotificationServiceError) -> (r: Self)
        ensures
            r == g_service_error_of(e),
    {
        match e {
            NotificationServiceError::NoConnection => GIgnisNotificationsError::NoConnection,
            NotificationServiceError::DBusError(_) => GIgnisNotificationsError::DBusError,
        }
    }
}

impl vstd::std_specs::convert::FromSpecImpl<NotificationServiceError> for GIgnisNotificationsError {
    open spec fn obeys_from_spec() -> bool {
        true
    }

    open spec fn from_spec(v: NotificationServiceError) -> GIgnisNotificationsError {
        g_service_error_of(v)
    }
}

} // verus!
