use vstd::prelude::*;

verus! {

/// Why a notification was closed, as reported with the `NotificationClosed` signal.
#[derive(Copy, Clone, Debug, PartialEq, Eq, Structural)]
pub enum CloseReason {
    /// The notification expired.
    Expired,
    /// The notification was dismissed by the user.
    Dismissed,
    /// The notification was closed by a call to `CloseNotification`.
    DBusCall,
    /// Undefined or reserved reasons.
    Other,
}

/// The reason that the code `value` stands for; unknown codes mean [`CloseReason::Other`].
pub open spec fn reason_of_code(value: u32) -> CloseReason {
    if value == 1 {
        CloseReason::Expired
    } else if value == 2 {
        CloseReason::Dismissed
    } else if value == 3 {
        CloseReason::DBusCall
    } else {
        CloseReason::Other
    }
}

/// The code sent on the bus for `reason`.
pub open spec fn code_of_reason(reason: CloseReason) -> u32 {
    match reason {
        CloseReason::Expired => 1,
        CloseReason::Dismissed => 2,
        CloseReason::DBusCall => 3,
        CloseReason::Other => 4,
    }
}

impl From<u32> for CloseReason {
    fn from(value: u32) -> (r: Self)
        ensures
            r == reason_of_code(value),
    {
        match value {
            1 => CloseReason::Expired,
            2 => CloseReason::Dismissed,
            3 => CloseReason::DBusCall,
            _ => CloseReason::Other,
        }
    }
}

impl vstd::std_specs::convert::FromSpecImpl<u32> for CloseReason {
    open spec fn obeys_from_spec() -> bool {
        true
    }

    open spec fn from_spec(v: u32) -> CloseReason {
        reason_of_code(v)
    }
}

impl From<CloseReason> for u32 {
    fn from(value: CloseReason) -> (r: Self)
        ensures
            r == code_of_reason(value),
    {
        match value {
            CloseReason::Expired => 1,
            CloseReason::Dismissed => 2,
            CloseReason::DBusCall => 3,
            CloseReason::Other => 4,
        }
    }
}

impl vstd::std_specs::convert::FromSpecImpl<CloseReason> for u32 {
    open spec fn obeys_from_spec() -> bool {
        true
    }

    open spec fn from_spec(v: CloseReason) -> u32 {
        code_of_reason(v)
    }
}

/// Decoding the code of a reason gives that reason back.
pub proof fn lemma_reason_code_roundtrip(reason: CloseReason)
    ensures
        reason_of_code(code_of_reason(reason)) == reason,
{
}

/// The codes 1 to 4 are exactly the ones that encode back to themselves; every
/// other code decodes to [`CloseReason::Other`].
pub proof fn lemma_code_reason_roundtrip(value: u32)
    ensures
        code_of_reason(reason_of_code(value)) == value <==> 1 <= value <= 4,
        !(1 <= value <= 3) ==> reason_of_code(value) == CloseReason::Other,
{
}

} // verus!
