use vstd::prelude::*;

verus! {

/// Support for reporting a value to the host's logging sink. How a type
/// renders itself is the implementor's choice; the sink is best-effort
/// observability and carries no correctness obligations.
pub trait Loggable {
    /// Write the value to the log sink.
    fn log(&self);

    /// Store the value in the call's return-data buffer.
    fn log_return(&self);
}

} // verus!
