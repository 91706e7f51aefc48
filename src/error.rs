use vstd::prelude::*;

verus! {

/// A driver operation, named in errors.
#[derive(Debug, Clone, Copy, PartialEq, Eq, Structural)]
pub enum Step {
    CreateTask,
    AddChannels,
    QueryChannelCount,
    ConfigureClock,
    StartTask,
    ReadSamples,
    StopTask,
    ClearTask,
}

/// Why a task could not be configured. The task must be discarded.
#[derive(Debug, Clone, Copy, PartialEq, Eq, Structural)]
pub enum ConfigError {
    /// A driver operation returned a non-zero status.
    Driver { step: Step, code: i32 },
    /// The channel expression resolved to no channel at all.
    NoChannels,
    /// `channels * sample_count` does not fit the driver's 32-bit buffer size.
    BufferTooLarge,
}

/// Why an acquisition failed.
#[derive(Debug, Clone, Copy, PartialEq, Eq, Structural)]
pub enum AcquireError {
    /// A driver operation returned a non-zero status.
    Driver { step: Step, code: i32 },
    /// The task's handle has already been released.
    Released,
}

} // verus!
