use vstd::prelude::*;

use crate::config::AppConfig;
use crate::error::QueueError;

verus! {

/// Flags every tool shares: the root config path, an optional lab-scoped
/// config path, and an ad-hoc override for the queue name.
#[derive(Debug, Clone, PartialEq, Eq)]
pub struct CommonArgs {
    pub config: String,
    pub lab_config: Option<String>,
    pub queue_name: Option<String>,
}

/// The lab config path a command reads: the explicit flag where one was
/// supplied, else the command's own default.
pub fn lab_config_path(common: &CommonArgs, default_path: &str) -> (r: String)
    ensures
        match common.lab_config {
            Some(p) => r == p,
            None => r@ == default_path@,
        },
{
    match &common.lab_config {
        Some(p) => p.clone(),
        None => default_path.to_owned(),
    }
}

/// What resolving the queue name yields: the command-line override whenever
/// one was supplied, else the configured name, else an error.
pub open spec fn spec_require_queue_name(common: CommonArgs, cfg: AppConfig) -> Result<
    String,
    QueueError,
> {
    if common.queue_name is Some {
        Ok(common.queue_name->0)
    } else if cfg.sqs.queue_name is Some {
        Ok(cfg.sqs.queue_name->0)
    } else {
        Err(QueueError::QueueNameRequired)
    }
}

/// Resolve the queue name a command works on. The command-line override
/// wins whatever the configuration holds; the error comes exactly when both
/// the command line and the configuration leave the name unset.
pub fn require_queue_name(common: &CommonArgs, cfg: &AppConfig) -> (r: Result<String, QueueError>)
    ensures
        r == spec_require_queue_name(*common, *cfg),
{
    match &common.queue_name {
        Some(q) => Ok(q.clone()),
        None => match &cfg.sqs.queue_name {
            Some(q) => Ok(q.clone()),
            None => Err(QueueError::QueueNameRequired),
        },
    }
}

} // verus!
