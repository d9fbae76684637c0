//! Verified core of a desktop notification daemon following the XDG Desktop
//! Notifications Specification: urgency levels, close reasons, the notification
//! history with its identifier counter, the bookkeeping done for each incoming
//! request, and the bookkeeping of the list that a user interface keeps in step
//! with the service.

pub mod close_reason;
pub mod data;
pub mod error;
pub mod expiry;
pub mod glib_types;
pub mod list_sync;
pub mod notification;
pub mod notification_service;
pub mod request;
pub mod urgency;
