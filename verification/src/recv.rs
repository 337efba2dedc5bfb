use vstd::prelude::*;

verus! {

/// What the receive loop does with a message it has just shown.
#[derive(Debug, Clone, PartialEq, Eq)]
pub enum RecvAction {
    /// Delete the message through the given receipt handle.
    Delete(String),
    /// Keep the message: deletion was switched off to observe redelivery.
    KeepNoDelete,
    /// Keep the message: the service handed back no receipt handle.
    KeepNoHandle,
}

/// The delete decision for one received message.
pub open spec fn spec_recv_action(no_delete: bool, receipt_handle: Option<String>) -> RecvAction {
    if no_delete {
        RecvAction::KeepNoDelete
    } else {
        match receipt_handle {
            Some(h) => RecvAction::Delete(h),
            None => RecvAction::KeepNoHandle,
        }
    }
}

/// Decide whether a received message is deleted. With `no_delete` set, no
/// delete is ever issued, whatever the message carries; otherwise the
/// message is deleted exactly when it carries a receipt handle.
pub fn recv_action(no_delete: bool, receipt_handle: Option<String>) -> (r: RecvAction)
    ensures
        r == spec_recv_action(no_delete, receipt_handle),
        no_delete ==> !(r is Delete),
{
    if no_delete {
        RecvAction::KeepNoDelete
    } else {
        match receipt_handle {
            Some(h) => RecvAction::Delete(h),
            None => RecvAction::KeepNoHandle,
        }
    }
}

} // verus!
