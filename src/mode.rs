use vstd::prelude::*;

verus! {

/// How the input terminals of the channels are wired. Each mode stands for
/// one of the driver's terminal-configuration constants.
#[derive(Debug, Clone, Copy, PartialEq, Eq, Structural)]
pub enum TerminalMode {
    /// Referenced single-ended.
    ReferencedSingleEnded,
    /// Non-referenced single-ended.
    NonReferencedSingleEnded,
    /// Differential.
    Differential,
    /// Pseudodifferential.
    PseudoDifferential,
}

impl TerminalMode {
    /// The driver's terminal-configuration constant for this mode
    /// (`DAQmx_Val_RSE`, `DAQmx_Val_NRSE`, `DAQmx_Val_Diff`,
    /// `DAQmx_Val_PseudoDiff`).
    pub fn driver_code(&self) -> (r: i32)
        ensures
            r == match *self {
                TerminalMode::ReferencedSingleEnded => 10083i32,
                TerminalMode::NonReferencedSingleEnded => 10078i32,
                TerminalMode::Differential => 10106i32,
                TerminalMode::PseudoDifferential => 12529i32,
            },
    {
        match self {
            TerminalMode::ReferencedSingleEnded => 10083,
            TerminalMode::NonReferencedSingleEnded => 10078,
            TerminalMode::Differential => 10106,
            TerminalMode::PseudoDifferential => 12529,
        }
    }
}

/// The lower end of the voltage range every channel is added with.
pub const MIN_VOLTS: i32 = -10;

/// The upper end of the voltage range every channel is added with.
pub const MAX_VOLTS: i32 = 10;

} // verus!
