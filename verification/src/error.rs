use vstd::prelude::*;

verus! {

/// Failure to resolve the layered configuration.
#[derive(Debug, Clone, Copy, PartialEq, Eq, Structural)]
pub enum ConfigError {
    /// The root configuration source is absent.
    MissingRoot,
    /// The merged sources leave a required field (runtime mode or region)
    /// unset.
    Invalid,
}

/// Failure to resolve or validate a queue for a command.
#[derive(Debug, Clone, Copy, PartialEq, Eq, Structural)]
pub enum QueueError {
    /// Neither the command line nor the configuration names a queue.
    QueueNameRequired,
    /// The queue name and the FIFO flag contradict each other, or a
    /// FIFO-only command was pointed at a queue whose name lacks the
    /// `.fifo` suffix.
    FifoMismatch,
    /// A send to a FIFO queue carries no message group id.
    FifoGroupRequired,
}

/// Failure to parse a `key=value` message attribute.
#[derive(Debug, Clone, Copy, PartialEq, Eq, Structural)]
pub enum AttrError {
    /// The text holds no `=` separator.
    MissingSeparator,
    /// The text starts with `=`: the key is empty.
    EmptyKey,
}

} // verus!
