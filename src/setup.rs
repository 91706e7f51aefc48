use vstd::prelude::*;
use crate::error::{ConfigError, Step};
use crate::handle::{after_release_spec, release_call_spec, HandleState};
use crate::mode::TerminalMode;
use crate::task::AcquisitionTask;

verus! {

/// Where the configuration of a task stands.
#[derive(Debug, Clone, Copy, PartialEq, Eq, Structural)]
pub enum SetupStage {
    /// The driver's create-task call is due.
    CreateTask,
    /// The call that adds the voltage channels of the expression is due.
    AddChannels,
    /// The query of how many channels the task holds is due.
    QueryChannelCount,
    /// The finite sample clock is to be configured; the task holds `channels`.
    ConfigureClock { channels: u32 },
    /// Every driver call succeeded; `finish` hands out the task.
    Ready { channels: u32 },
    /// Configuration failed; no task is handed out.
    Failed { error: ConfigError },
    /// The task has been handed out.
    Finished,
}

/// The stage after the driver answered `status` to the call that `stage` made.
pub open spec fn after_status(stage: SetupStage, status: i32) -> SetupStage {
    match stage {
        SetupStage::CreateTask => if status == 0 {
            SetupStage::AddChannels
        } else {
            SetupStage::Failed { error: ConfigError::Driver { step: Step::CreateTask, code: status } }
        },
        SetupStage::AddChannels => if status == 0 {
            SetupStage::QueryChannelCount
        } else {
            SetupStage::Failed { error: ConfigError::Driver { step: Step::AddChannels, code: status } }
        },
        SetupStage::ConfigureClock { channels } => if status == 0 {
            SetupStage::Ready { channels }
        } else {
            SetupStage::Failed {
                error: ConfigError::Driver { step: Step::ConfigureClock, code: status },
            }
        },
        _ => stage,
    }
}

/// The stage after the driver answered the channel-count query with `status`
/// and `count`, for a task of `sample_count` rows.
pub open spec fn after_count(stage: SetupStage, status: i32, count: u32, sample_count: u64) -> SetupStage {
    match stage {
        SetupStage::QueryChannelCount => if status != 0 {
            SetupStage::Failed {
                error: ConfigError::Driver { step: Step::QueryChannelCount, code: status },
            }
        } else if count == 0 {
            SetupStage::Failed { error: ConfigError::NoChannels }
        } else if count as int * sample_count as int > u32::MAX {
            SetupStage::Failed { error: ConfigError::BufferTooLarge }
        } else {
            SetupStage::ConfigureClock { channels: count }
        },
        _ => stage,
    }
}

/// The handle after the driver answered `status` to the call that `stage` made:
/// a successful create-task call allocates it.
pub open spec fn handle_after(stage: SetupStage, handle: HandleState, status: i32) -> HandleState {
    if stage == SetupStage::CreateTask && status == 0 {
        HandleState::Live
    } else {
        handle
    }
}

/// The configuration of a task: create it, add the channels of an expression,
/// learn how many channels that made, configure a finite sample clock. Each
/// step runs only where the one before it succeeded.
pub struct Setup {
    channel_expr: String,
    mode: TerminalMode,
    sample_period_ns: u64,
    sample_count: u64,
    stage: SetupStage,
    handle: HandleState,
}

impl Setup {
    pub closed spec fn channel_expr_spec(&self) -> Seq<char> {
        self.channel_expr@
    }

    pub closed spec fn mode_spec(&self) -> TerminalMode {
        self.mode
    }

    pub closed spec fn period_spec(&self) -> nat {
        self.sample_period_ns as nat
    }

    pub closed spec fn sample_count_spec(&self) -> nat {
        self.sample_count as nat
    }

    pub closed spec fn stage_spec(&self) -> SetupStage {
        self.stage
    }

    pub closed spec fn handle_spec(&self) -> HandleState {
        self.handle
    }

    /// What the driver's answers leave as they were.
    pub open spec fn same_request(&self, other: &Self) -> bool {
        &&& self.channel_expr_spec() == other.channel_expr_spec()
        &&& self.mode_spec() == other.mode_spec()
        &&& self.period_spec() == other.period_spec()
        &&& self.sample_count_spec() == other.sample_count_spec()
    }

    pub closed spec fn wf(&self) -> bool {
        &&& self.sample_period_ns > 0
        &&& match self.stage {
            SetupStage::ConfigureClock { channels } => channels > 0 && channels as int
                * self.sample_count as int <= u32::MAX,
            SetupStage::Ready { channels } => channels > 0 && channels as int
                * self.sample_count as int <= u32::MAX,
            _ => true,
        }
    }

    /// A configuration of the channels that `channel_expr` names (a
    /// comma-separated list of physical channels or ranges of them), wired as
    /// `mode`, sampled once each `sample_period_ns` nanoseconds for
    /// `sample_count` rows. No driver call has been made yet.
    pub fn new(channel_expr: String, mode: TerminalMode, sample_period_ns: u64, sample_count: u64) -> (r: Setup)
        requires
            sample_period_ns > 0,
        ensures
            r.wf(),
            r.channel_expr_spec() == channel_expr@,
            r.mode_spec() == mode,
            r.period_spec() == sample_period_ns,
            r.sample_count_spec() == sample_count,
            r.stage_spec() == SetupStage::CreateTask,
            r.handle_spec() == HandleState::Absent,
    {
        Setup {
            channel_expr,
            mode,
            sample_period_ns,
            sample_count,
            stage: SetupStage::CreateTask,
            handle: HandleState::Absent,
        }
    }

    pub fn channel_expr(&self) -> (r: &str)
        ensures
            r@ == self.channel_expr_spec(),
    {
        self.channel_expr.as_str()
    }

    pub fn mode(&self) -> (r: TerminalMode)
        ensures
            r == self.mode_spec(),
    {
        self.mode
    }

    /// The number of rows per channel that the sample clock is configured for.
    pub fn sample_count(&self) -> (r: u64)
        ensures
            r == self.sample_count_spec(),
    {
        self.sample_count
    }

    pub fn stage(&self) -> (r: SetupStage)
        ensures
            r == self.stage_spec(),
    {
        self.stage
    }

    /// The driver call that is due, or `None` once configuration is over.
    pub fn next_call(&self) -> (r: Option<Step>)
        ensures
            r == match self.stage_spec() {
                SetupStage::CreateTask => Some(Step::CreateTask),
                SetupStage::AddChannels => Some(Step::AddChannels),
                SetupStage::QueryChannelCount => Some(Step::QueryChannelCount),
                SetupStage::ConfigureClock { .. } => Some(Step::ConfigureClock),
                _ => None::<Step>,
            },
    {
        match self.stage {
            SetupStage::CreateTask => Some(Step::CreateTask),
            SetupStage::AddChannels => Some(Step::AddChannels),
            SetupStage::QueryChannelCount => Some(Step::QueryChannelCount),
            SetupStage::ConfigureClock { .. } => Some(Step::ConfigureClock),
            _ => None,
        }
    }

    /// Takes the driver's status for the create-task, add-channels or
    /// configure-clock call that was due. At any other stage nothing changes.
    pub fn on_status(&mut self, status: i32)
        requires
            old(self).wf(),
        ensures
            final(self).wf(),
            final(self).same_request(old(self)),
            final(self).stage_spec() == after_status(old(self).stage_spec(), status),
            final(self).handle_spec() == handle_after(
                old(self).stage_spec(),
                old(self).handle_spec(),
                status,
            ),
    {
        match self.stage {
            SetupStage::CreateTask => {
                if status == 0 {
                    self.handle = HandleState::Live;
                    self.stage = SetupStage::AddChannels;
                } else {
                    self.stage = SetupStage::Failed {
                        error: ConfigError::Driver { step: Step::CreateTask, code: status },
                    };
                }
            },
            SetupStage::AddChannels => {
                if status == 0 {
                    self.stage = SetupStage::QueryChannelCount;
                } else {
                    self.stage = SetupStage::Failed {
                        error: ConfigError::Driver { step: Step::AddChannels, code: status },
                    };
                }
            },
            SetupStage::ConfigureClock { channels } => {
                if status == 0 {
                    self.stage = SetupStage::Ready { channels };
                } else {
                    self.stage = SetupStage::Failed {
                        error: ConfigError::Driver { step: Step::ConfigureClock, code: status },
                    };
                }
            },
            _ => {},
        }
    }

    /// Takes the driver's answer to the channel-count query: its status and
    /// the number of channels the expression resolved to. At any other stage
    /// nothing changes.
    pub fn on_channel_count(&mut self, status: i32, count: u32)
        requires
            old(self).wf(),
        ensures
            final(self).wf(),
            final(self).same_request(old(self)),
            final(self).stage_spec() == after_count(
                old(self).stage_spec(),
                status,
                count,
                old(self).sample_count_spec() as u64,
            ),
            final(self).handle_spec() == old(self).handle_spec(),
    {
        match self.stage {
            SetupStage::QueryChannelCount => {
                if status != 0 {
                    self.stage = SetupStage::Failed {
                        error: ConfigError::Driver { step: Step::QueryChannelCount, code: status },
                    };
                } else if count == 0 {
                    self.stage = SetupStage::Failed { error: ConfigError::NoChannels };
                } else if self.sample_count > (u32::MAX / count) as u64 {
                    proof {
                        assert(count as int * self.sample_count as int > u32::MAX)
                            by (nonlinear_arith)
                            requires
                                count > 0,
                                self.sample_count > u32::MAX as int / count as int,
                        ;
                    }
                    self.stage = SetupStage::Failed { error: ConfigError::BufferTooLarge };
                } else {
                    proof {
                        assert(count as int * self.sample_count as int <= u32::MAX)
                            by (nonlinear_arith)
                            requires
                                count > 0,
                                self.sample_count <= u32::MAX as int / count as int,
                        ;
                    }
                    self.stage = SetupStage::ConfigureClock { channels: count };
                }
            },
            _ => {},
        }
    }

    /// Ends the configuration. When every driver call succeeded, hands out the
    /// task, with its buffers filled with `fill`, and with it the handle;
    /// else returns the error that stopped the configuration.
    pub fn finish<S: Copy>(&mut self, fill: S) -> (r: Result<AcquisitionTask<S>, ConfigError>)
        requires
            old(self).wf(),
            old(self).stage_spec() is Ready || old(self).stage_spec() is Failed,
        ensures
            final(self).wf(),
            final(self).same_request(old(self)),
            old(self).stage_spec() is Failed ==> {
                &&& r == Err::<AcquisitionTask<S>, ConfigError>(old(self).stage_spec()->Failed_error)
                &&& *final(self) == *old(self)
            },
            old(self).stage_spec() is Ready ==> {
                &&& r is Ok
                &&& r->Ok_0.wf()
                &&& r->Ok_0.channels_spec() == old(self).stage_spec()->Ready_channels
                &&& r->Ok_0.channels_spec() > 0
                &&& r->Ok_0.sample_count_spec() == old(self).sample_count_spec()
                &&& r->Ok_0.period_spec() == old(self).period_spec()
                &&& r->Ok_0.capacity_spec() == r->Ok_0.channels_spec()
                    * r->Ok_0.sample_count_spec()
                &&& r->Ok_0.buffers_sized()
                &&& r->Ok_0.buffer_spec().len() == r->Ok_0.capacity_spec()
                &&& r->Ok_0.timestamps_spec().len() == r->Ok_0.capacity_spec()
                &&& r->Ok_0.buffer_spec() == Seq::new(r->Ok_0.capacity_spec(), |_i: int| fill)
                &&& r->Ok_0.rows_spec() == 0
                &&& r->Ok_0.phase_spec() == crate::task::Phase::Idle
                &&& r->Ok_0.handle_spec() == old(self).handle_spec()
                &&& final(self).stage_spec() == SetupStage::Finished
                &&& final(self).handle_spec() == HandleState::Absent
            },
    {
        match self.stage {
            SetupStage::Ready { channels } => {
                proof {
                    assert(self.sample_count <= u32::MAX) by (nonlinear_arith)
                        requires
                            channels > 0,
                            channels as int * self.sample_count as int <= u32::MAX,
                    ;
                }
                let task = AcquisitionTask::new(
                    channels,
                    self.sample_count as u32,
                    self.sample_period_ns,
                    fill,
                    self.handle,
                );
                self.stage = SetupStage::Finished;
                self.handle = HandleState::Absent;
                Ok(task)
            },
            SetupStage::Failed { error } => Err(error),
            _ => Err(ConfigError::NoChannels),
        }
    }

    /// Whether releasing the configuration now takes a driver call.
    pub fn needs_release(&self) -> (r: bool)
        ensures
            r == (release_call_spec(self.handle_spec()) is Some),
    {
        self.handle.release_call().is_some()
    }

    /// The driver call that releasing the configuration takes next: the stop call,
    /// then the clear call; `None` once nothing is owed.
    pub fn release_call(&self) -> (r: Option<Step>)
        ensures
            r == release_call_spec(self.handle_spec()),
    {
        self.handle.release_call()
    }

    /// Takes the driver's answer to the release call that was due.
    pub fn on_release_status(&mut self, status: i32)
        requires
            old(self).wf(),
        ensures
            final(self).wf(),
            final(self).handle_spec() == after_release_spec(old(self).handle_spec(), status),
            final(self).same_request(old(self)),
            final(self).stage_spec() == old(self).stage_spec(),
    {
        self.handle = self.handle.after_release(status);
    }
}

/// The channel count a configured task reports is the count the driver gave
/// for the expression, and is never zero: from the channel-count query on,
/// whatever the driver answers, configuration reaches `Ready` only with that
/// count.
pub proof fn lemma_channels_from_driver(
    count_status: i32,
    count: u32,
    sample_count: u64,
    clock_status: i32,
)
    ensures
        ({
            let done = after_status(
                after_count(SetupStage::QueryChannelCount, count_status, count, sample_count),
                clock_status,
            );
            done is Ready ==> count_status == 0 && clock_status == 0 && done->Ready_channels
                == count && count > 0
        }),
{
}

} // verus!
