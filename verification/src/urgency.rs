use vstd::prelude::*;

verus! {

/// The urgency level of the notification.
///
/// Represents how important is the notification and may affect how it's displayed in the graphical
/// interface.
#[derive(Copy, Clone, Debug, PartialEq, Eq, Structural)]
pub enum Urgency {
    /// A low level of urgency: the notification does not require immediate user attention.
    Low,
    /// A normal level of urgency, for example a new message from a chat app.
    Normal,
    /// A critical level of urgency: the notification requires user attention.
    Critical,
}

/// The urgency that the byte `value` of the `urgency` hint stands for; unknown
/// levels fall back to [`Urgency::Low`].
pub open spec fn urgency_of_byte(value: u8) -> Urgency {
    if value == 1 {
        Urgency::Normal
    } else if value == 2 {
        Urgency::Critical
    } else {
        Urgency::Low
    }
}

/// The byte that encodes `urgency` on the bus.
pub open spec fn byte_of_urgency(urgency: Urgency) -> u8 {
    match urgency {
        Urgency::Low => 0,
        Urgency::Normal => 1,
        Urgency::Critical => 2,
    }
}

impl From<u8> for Urgency {
    fn from(value: u8) -> (r: Self)
        ensures
            r == urgency_of_byte(value),
    {
        match value {
            0 => Urgency::Low,
            1 => Urgency::Normal,
            2 => Urgency::Critical,
            _ => Urgency::Low,
        }
    }
}

impl vstd::std_specs::convert::FromSpecImpl<u8> for Urgency {
    open spec fn obeys_from_spec() -> bool {
        true
    }

    open spec fn from_spec(v: u8) -> Urgency {
        urgency_of_byte(v)
    }
}

impl From<Urgency> for u8 {
    fn from(value: Urgency) -> (r: Self)
        ensures
            r == byte_of_urgency(value),
    {
        match value {
            Urgency::Low => 0,
            Urgency::Normal => 1,
            Urgency::Critical => 2,
        }
    }
}

impl vstd::std_specs::convert::FromSpecImpl<Urgency> for u8 {
    open spec fn obeys_from_spec() -> bool {
        true
    }

    open spec fn from_spec(v: Urgency) -> u8 {
        byte_of_urgency(v)
    }
}

/// Decoding the byte of an urgency gives that urgency back.
pub proof fn lemma_urgency_byte_roundtrip(urgency: Urgency)
    ensures
        urgency_of_byte(byte_of_urgency(urgency)) == urgency,
{
}

/// Every byte of a known level (0, 1 or 2) is encoded back to itself;
/// every other byte decodes to [`Urgency::Low`].
pub proof fn lemma_byte_urgency_roundtrip(value: u8)
    ensures
        value <= 2 ==> byte_of_urgency(urgency_of_byte(value)) == value,
        value > 2 ==> urgency_of_byte(value) == Urgency::Low,
{
}

} // verus!
