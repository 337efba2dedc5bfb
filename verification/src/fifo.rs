use vstd::prelude::*;
use vstd::string::StrSliceExecFns;

use crate::config::SqsConfig;
use crate::error::QueueError;

verus! {

/// The suffix that marks a queue name as naming a FIFO queue.
pub open spec fn fifo_suffix() -> Seq<char> {
    seq!['.', 'f', 'i', 'f', 'o']
}

/// A name names a FIFO queue when it ends with the `.fifo` suffix.
pub open spec fn is_fifo_name(s: Seq<char>) -> bool {
    s.len() >= 5 && s.subrange(s.len() - 5, s.len() as int) == fifo_suffix()
}

/// Whether `name` ends with the `.fifo` suffix.
pub fn name_is_fifo(name: &str) -> (r: bool)
    ensures
        r == is_fifo_name(name@),
{
    let n = name.unicode_len();
    if n < 5 {
        return false;
    }
    let r = name.get_char(n - 5) == '.' && name.get_char(n - 4) == 'f' && name.get_char(n - 3)
        == 'i' && name.get_char(n - 2) == 'f' && name.get_char(n - 1) == 'o';
    proof {
        let s = name@;
        let tail = s.subrange(s.len() - 5, s.len() as int);
        assert(fifo_suffix()[0] == '.' && fifo_suffix()[1] == 'f' && fifo_suffix()[2] == 'i'
            && fifo_suffix()[3] == 'f' && fifo_suffix()[4] == 'o');
        if r {
            assert(tail =~= fifo_suffix());
        } else {
            if tail == fifo_suffix() {
                assert(tail[0] == '.' && tail[1] == 'f' && tail[2] == 'i' && tail[3] == 'f'
                    && tail[4] == 'o');
                assert(false);
            }
        }
    }
    r
}

/// A queue is treated as FIFO when its name carries the `.fifo` suffix or
/// when the configuration flags it so explicitly.
pub open spec fn spec_queue_is_fifo(name: Seq<char>, cfg_fifo: Option<bool>) -> bool {
    is_fifo_name(name) || cfg_fifo == Some(true)
}

/// FIFO detection for a resolved queue name under a configured flag.
pub fn queue_is_fifo(name: &str, cfg_fifo: Option<bool>) -> (r: bool)
    ensures
        r == spec_queue_is_fifo(name@, cfg_fifo),
{
    name_is_fifo(name) || cfg_fifo == Some(true)
}

/// Guard for the FIFO-only send command: it refuses to go anywhere near the
/// queue service unless the resolved name carries the `.fifo` suffix.
pub fn check_fifo_send(name: &str) -> (r: Result<(), QueueError>)
    ensures
        r is Ok <==> is_fifo_name(name@),
        r is Err ==> r == Err::<(), QueueError>(QueueError::FifoMismatch),
{
    if name_is_fifo(name) {
        Ok(())
    } else {
        Err(QueueError::FifoMismatch)
    }
}

/// What the bootstrap command will ask the queue service to create: the
/// queue's name and the creation attributes derived from configuration.
#[derive(Debug, Clone, PartialEq, Eq)]
pub struct CreateQueuePlan {
    pub name: String,
    /// Create a FIFO queue.
    pub fifo: bool,
    /// Ask for content-based deduplication (set on FIFO queues only).
    pub content_based_dedup: bool,
    /// Visibility timeout to set, where one is configured.
    pub visibility_timeout_secs: Option<i32>,
}

/// What planning a queue creation yields. The name is required. The FIFO
/// flag defaults to what the name's suffix says; an explicit flag must agree
/// with the suffix in both directions — `fifo=true` without the suffix and
/// the suffix with `fifo=false` are both mismatches. No suffix and no flag
/// is a plain standard queue.
pub open spec fn spec_plan_create_queue(cfg: SqsConfig) -> Result<CreateQueuePlan, QueueError> {
    match cfg.queue_name {
        None => Err(QueueError::QueueNameRequired),
        Some(name) => {
            let name_fifo = is_fifo_name(name@);
            let fifo = match cfg.fifo {
                Some(f) => f,
                None => name_fifo,
            };
            if fifo != name_fifo {
                Err(QueueError::FifoMismatch)
            } else {
                Ok(
                    CreateQueuePlan {
                        name,
                        fifo,
                        content_based_dedup: fifo && cfg.content_based_dedup == Some(true),
                        visibility_timeout_secs: cfg.visibility_timeout_secs,
                    },
                )
            }
        },
    }
}

/// Plan a queue creation from the queue section of the configuration,
/// holding the name and the FIFO flag to the symmetric consistency check:
/// every plan that comes out creates a FIFO queue exactly when its name
/// carries the suffix, and asks for content-based deduplication only on a
/// FIFO queue.
pub fn plan_create_queue(cfg: &SqsConfig) -> (r: Result<CreateQueuePlan, QueueError>)
    ensures
        r == spec_plan_create_queue(*cfg),
        r matches Ok(plan) ==> plan.fifo == is_fifo_name(plan.name@),
        r matches Ok(plan) ==> (plan.content_based_dedup ==> plan.fifo),
{
    let name = match &cfg.queue_name {
        Some(n) => n.clone(),
        None => {
            return Err(QueueError::QueueNameRequired);
        },
    };
    let name_fifo = name_is_fifo(name.as_str());
    let fifo = match cfg.fifo {
        Some(f) => f,
        None => name_fifo,
    };
    if fifo != name_fifo {
        return Err(QueueError::FifoMismatch);
    }
    let content_based_dedup = fifo && cfg.content_based_dedup == Some(true);
    Ok(
        CreateQueuePlan {
            name,
            fifo,
            content_based_dedup,
            visibility_timeout_secs: cfg.visibility_timeout_secs,
        },
    )
}

} // verus!
