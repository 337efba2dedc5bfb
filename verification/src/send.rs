use vstd::prelude::*;

use crate::error::QueueError;

verus! {

/// The body a send command puts on the wire: the `--msg` flag where given,
/// else the positional argument, else the command's literal fallback.
pub fn message_body(msg: Option<String>, positional: Option<String>, fallback: &str) -> (r: String)
    ensures
        match (msg, positional) {
            (Some(m), _) => r == m,
            (None, Some(p)) => r == p,
            (None, None) => r@ == fallback@,
        },
{
    match msg {
        Some(m) => m,
        None => match positional {
            Some(p) => p,
            None => fallback.to_owned(),
        },
    }
}

/// The FIFO-only fields a send carries, as the command will pass them on.
#[derive(Debug, Clone, PartialEq, Eq)]
pub struct FifoSendFields {
    /// Message group id to attach, if any.
    pub group: Option<String>,
    /// Deduplication id to attach, if any.
    pub dedup: Option<String>,
    /// Whether the command should warn that supplied group/dedup flags were
    /// ignored because the queue is a standard one.
    pub warn_ignored: bool,
}

/// What the FIFO fields of a send resolve to. On a FIFO queue the group id
/// is mandatory and the dedup id passes through; on a standard queue both
/// are dropped, with a warning exactly when either was supplied.
pub open spec fn spec_plan_fifo_fields(
    is_fifo: bool,
    group: Option<String>,
    dedup: Option<String>,
) -> Result<FifoSendFields, QueueError> {
    if is_fifo {
        match group {
            Some(g) => Ok(FifoSendFields { group: Some(g), dedup, warn_ignored: false }),
            None => Err(QueueError::FifoGroupRequired),
        }
    } else {
        Ok(
            FifoSendFields {
                group: None,
                dedup: None,
                warn_ignored: group is Some || dedup is Some,
            },
        )
    }
}

/// Decide the FIFO fields of a send. Supplied group/dedup values on a
/// standard queue are lenient by design — ignored with a warning, never an
/// error — so the same tooling serves both queue kinds.
pub fn plan_fifo_fields(is_fifo: bool, group: Option<String>, dedup: Option<String>) -> (r: Result<
    FifoSendFields,
    QueueError,
>)
    ensures
        r == spec_plan_fifo_fields(is_fifo, group, dedup),
{
    if is_fifo {
        match group {
            Some(g) => Ok(FifoSendFields { group: Some(g), dedup, warn_ignored: false }),
            None => Err(QueueError::FifoGroupRequired),
        }
    } else {
        let warn = group.is_some() || dedup.is_some();
        Ok(FifoSendFields { group: None, dedup: None, warn_ignored: warn })
    }
}

} // verus!
