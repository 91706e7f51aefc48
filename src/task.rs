use vstd::prelude::*;
use crate::error::{AcquireError, Step};
use crate::handle::{after_release_spec, release_call_spec, HandleState};

verus! {

/// The driver's status for a task handle that it does not know
/// (`DAQmxErrorInvalidTask`). After it no driver call on the task can succeed.
pub const INVALID_TASK: i32 = -200088;

/// Headroom added to the expected duration of a read before it times out.
pub const READ_HEADROOM_MS: u128 = 10_000;

/// Where an acquisition cycle stands.
#[derive(Debug, Clone, Copy, PartialEq, Eq, Structural)]
pub enum Phase {
    /// No cycle is under way: `begin_acquire_at` may be called.
    Idle,
    /// The start time is taken; the driver's start call is due.
    Starting,
    /// The sample buffer is lent out for the driver's read call.
    Reading,
    /// The driver's stop call is due. `rows` is what the read reported,
    /// `failure` the error of a failed read.
    Stopping { rows: u32, failure: Option<AcquireError> },
    /// The driver no longer knows the handle: every later cycle fails with `error`.
    Broken { error: AcquireError },
}

/// A cycle that captured fewer rows than it asked for is no error; this records it.
#[derive(Debug, Clone, Copy, PartialEq, Eq, Structural)]
pub struct PartialRead {
    pub requested: u32,
    pub actual: u32,
}

/// The error that a driver status gives for a step, if the status is not zero.
pub open spec fn status_error(step: Step, status: i32) -> Option<AcquireError> {
    if status == 0 {
        None
    } else {
        Some(AcquireError::Driver { step, code: status })
    }
}

/// The phase a cycle ends in after `error`: a handle the driver does not know
/// breaks the task for good, any other failure leaves it usable.
pub open spec fn phase_after(error: AcquireError) -> Phase {
    match error {
        AcquireError::Driver { step: _, code } => if code == INVALID_TASK {
            Phase::Broken { error }
        } else {
            Phase::Idle
        },
        AcquireError::Released => Phase::Idle,
    }
}

/// The number of rows a read reporting `read` rows can have filled, out of
/// `sample_count`: a report outside `0..=sample_count` is held to that range.
pub open spec fn rows_of(read: i32, sample_count: nat) -> nat {
    if read < 0 {
        0
    } else if read as int > sample_count {
        sample_count
    } else {
        read as nat
    }
}

/// The reconstructed time of row `i`, in nanoseconds since the Unix epoch:
/// the start time plus `i` sample periods. This is a linear clock model, not
/// a time the hardware reported for the row.
pub open spec fn row_time(start: int, period: int, i: int) -> int {
    start + i * period
}

/// The read timeout, in milliseconds, for `sample_count` rows one `period_ns`
/// apart: the expected duration, rounded up, plus the headroom.
pub open spec fn timeout_ms(sample_count: nat, period_ns: nat) -> int {
    (sample_count * period_ns + 999_999) / 1_000_000 + READ_HEADROOM_MS as int
}

/// A configured task: the sample buffer and the timestamps of one row each,
/// filled anew by each acquisition cycle.
///
/// A cycle is `begin_acquire_at` with a reading of the system clock taken
/// just before the driver's start call, that call and `on_started`, the
/// driver's read into the lent buffer and `on_read`, the driver's stop call
/// and `on_stopped`.
pub struct AcquisitionTask<S> {
    channels: u32,
    sample_count: u32,
    sample_period_ns: u64,
    capacity: u32,
    samples: Vec<S>,
    timestamps: Vec<i128>,
    rows: u32,
    start_ns: i128,
    phase: Phase,
    handle: HandleState,
}

impl<S: Copy> AcquisitionTask<S> {
    pub closed spec fn channels_spec(&self) -> nat {
        self.channels as nat
    }

    pub closed spec fn sample_count_spec(&self) -> nat {
        self.sample_count as nat
    }

    pub closed spec fn period_spec(&self) -> nat {
        self.sample_period_ns as nat
    }

    pub closed spec fn capacity_spec(&self) -> nat {
        self.capacity as nat
    }

    /// The sample buffer as it stands (empty while it is lent out).
    pub closed spec fn buffer_spec(&self) -> Seq<S> {
        self.samples@
    }

    pub closed spec fn timestamps_spec(&self) -> Seq<i128> {
        self.timestamps@
    }

    /// How many rows the last cycle captured.
    pub closed spec fn rows_spec(&self) -> nat {
        self.rows as nat
    }

    /// When the last cycle was started, in nanoseconds since the Unix epoch.
    pub closed spec fn start_spec(&self) -> int {
        self.start_ns as int
    }

    pub closed spec fn phase_spec(&self) -> Phase {
        self.phase
    }

    pub closed spec fn handle_spec(&self) -> HandleState {
        self.handle
    }

    /// What a cycle leaves as it was: the configuration and the handle.
    pub open spec fn same_setup(&self, other: &Self) -> bool {
        &&& self.channels_spec() == other.channels_spec()
        &&& self.sample_count_spec() == other.sample_count_spec()
        &&& self.period_spec() == other.period_spec()
        &&& self.capacity_spec() == other.capacity_spec()
        &&& self.handle_spec() == other.handle_spec()
    }

    /// Both buffers hold `capacity` entries, but for the sample buffer while
    /// it is lent out for a read.
    pub open spec fn buffers_sized(&self) -> bool {
        &&& self.timestamps_spec().len() == self.capacity_spec()
        &&& self.phase_spec() != Phase::Reading ==> self.buffer_spec().len() == self.capacity_spec()
    }

    pub closed spec fn wf(&self) -> bool {
        &&& self.channels > 0
        &&& self.sample_period_ns > 0
        &&& self.capacity as int == self.channels as int * self.sample_count as int
        &&& self.timestamps@.len() == self.capacity
        &&& (if self.phase == Phase::Reading {
            self.samples@.len() == 0
        } else {
            self.samples@.len() == self.capacity
        })
        &&& self.rows <= self.sample_count
        &&& self.phase != Phase::Idle ==> self.rows == 0
        &&& (forall|i: int|
            0 <= i < self.rows ==> #[trigger] self.timestamps@[i] as int == row_time(
                self.start_ns as int,
                self.sample_period_ns as int,
                i,
            ))
        &&& match self.phase {
            Phase::Stopping { rows, failure: _ } => rows <= self.sample_count,
            _ => true,
        }
        &&& -0x8000_0000_0000_0000 * 1000 <= self.start_ns <= 0x7fff_ffff_ffff_ffff * 1000
    }

    /// A task of `channels` channels and `sample_count` rows, one row each
    /// `sample_period_ns`, whose buffers are filled with `fill` and no row
    /// captured yet. It takes over `handle`.
    pub(crate) fn new(
        channels: u32,
        sample_count: u32,
        sample_period_ns: u64,
        fill: S,
        handle: HandleState,
    ) -> (r: Self)
        requires
            channels > 0,
            sample_period_ns > 0,
            channels as int * sample_count as int <= u32::MAX,
        ensures
            r.wf(),
            r.buffers_sized(),
            r.timestamps_spec().len() == r.capacity_spec(),
            r.channels_spec() == channels,
            r.sample_count_spec() == sample_count,
            r.period_spec() == sample_period_ns,
            r.capacity_spec() == channels * sample_count,
            r.buffer_spec() == Seq::new(r.capacity_spec(), |_i: int| fill),
            r.rows_spec() == 0,
            r.phase_spec() == Phase::Idle,
            r.handle_spec() == handle,
    {
        let capacity: u32 = channels * sample_count;
        let mut samples: Vec<S> = Vec::with_capacity(capacity as usize);
        let mut timestamps: Vec<i128> = Vec::with_capacity(capacity as usize);
        let mut k: u32 = 0;
        while k < capacity
            invariant
                k <= capacity,
                samples@ == Seq::new(k as nat, |_i: int| fill),
                timestamps@.len() == k,
            decreases capacity - k,
        {
            samples.push(fill);
            timestamps.push(0);
            k = k + 1;
        }
        AcquisitionTask {
            channels,
            sample_count,
            sample_period_ns,
            capacity,
            samples,
            timestamps,
            rows: 0,
            start_ns: 0,
            phase: Phase::Idle,
            handle,
        }
    }

    /// The number of channels the driver reported.
    pub fn channels(&self) -> (r: u32)
        ensures
            r == self.channels_spec(),
    {
        self.channels
    }

    /// The number of rows one cycle asks for.
    pub fn sample_count(&self) -> (r: u32)
        ensures
            r == self.sample_count_spec(),
    {
        self.sample_count
    }

    /// The time between two rows, in nanoseconds.
    pub fn sample_period_ns(&self) -> (r: u64)
        ensures
            r == self.period_spec(),
    {
        self.sample_period_ns
    }

    /// The size of the sample buffer: `channels * sample_count` values.
    pub fn capacity(&self) -> (r: u32)
        ensures
            r == self.capacity_spec(),
    {
        self.capacity
    }

    pub fn phase(&self) -> (r: Phase)
        ensures
            r == self.phase_spec(),
    {
        self.phase
    }

    /// How many rows the last cycle captured; never more than it asked for.
    pub fn samples_read(&self) -> (r: u32)
        requires
            self.wf(),
        ensures
            r == self.rows_spec(),
            r <= self.sample_count_spec(),
    {
        self.rows
    }

    /// How long the driver's read may block before it fails, in milliseconds.
    pub fn read_timeout_ms(&self) -> (r: u128)
        ensures
            r == timeout_ms(self.sample_count_spec(), self.period_spec()),
    {
        proof {
            assert(self.sample_count as int * self.sample_period_ns as int <= 0xffff_ffff
                * 0xffff_ffff_ffff_ffff) by (nonlinear_arith)
                requires
                    self.sample_count <= 0xffff_ffff,
                    self.sample_period_ns <= 0xffff_ffff_ffff_ffff,
            ;
        }
        let duration_ns: u128 = self.sample_count as u128 * self.sample_period_ns as u128;
        (duration_ns + 999_999) / 1_000_000 + READ_HEADROOM_MS
    }

    /// Opens a cycle that started at `now_micros` microseconds since the Unix
    /// epoch, as the system clock reads just before the driver's start call:
    /// that time, in nanoseconds, anchors every row of the cycle. A
    /// broken task fails with the error that broke it, a released one with
    /// `Released`; neither changes.
    pub fn begin_acquire_at(&mut self, now_micros: i64) -> (r: Result<(), AcquireError>)
        requires
            old(self).wf(),
            old(self).phase_spec() == Phase::Idle || old(self).phase_spec() is Broken,
        ensures
            final(self).wf(),
            final(self).same_setup(old(self)),
            final(self).buffers_sized(),
            old(self).handle_spec() != HandleState::Live ==> r == Err::<(), AcquireError>(
                AcquireError::Released,
            ) && *final(self) == *old(self),
            old(self).handle_spec() == HandleState::Live && old(self).phase_spec() is Broken ==> r
                == Err::<(), AcquireError>(old(self).phase_spec()->Broken_error) && *final(self)
                == *old(self),
            old(self).handle_spec() == HandleState::Live && old(self).phase_spec() == Phase::Idle
                ==> {
                &&& r == Ok::<(), AcquireError>(())
                &&& final(self).phase_spec() == Phase::Starting
                &&& final(self).rows_spec() == 0
                &&& final(self).buffer_spec() == old(self).buffer_spec()
                &&& final(self).start_spec() == now_micros as int * 1000
            },
    {
        if self.handle != HandleState::Live {
            return Err(AcquireError::Released);
        }
        match self.phase {
            Phase::Broken { error } => Err(error),
            _ => {
                self.start_ns = now_micros as i128 * 1000;
                self.rows = 0;
                self.phase = Phase::Starting;
                Ok(())
            },
        }
    }

    /// Takes the driver's answer to the start call. On success the sample
    /// buffer is handed out for the read; it comes back through `on_read`.
    pub fn on_started(&mut self, status: i32) -> (r: Result<Vec<S>, AcquireError>)
        requires
            old(self).wf(),
            old(self).phase_spec() == Phase::Starting,
        ensures
            final(self).wf(),
            final(self).same_setup(old(self)),
            final(self).buffers_sized(),
            final(self).start_spec() == old(self).start_spec(),
            final(self).rows_spec() == 0,
            status == 0 ==> {
                &&& r is Ok
                &&& r->Ok_0@ == old(self).buffer_spec()
                &&& r->Ok_0@.len() == old(self).capacity_spec()
                &&& final(self).phase_spec() == Phase::Reading
            },
            status != 0 ==> {
                let e = AcquireError::Driver { step: Step::StartTask, code: status };
                &&& r == Err::<Vec<S>, AcquireError>(e)
                &&& final(self).phase_spec() == phase_after(e)
                &&& final(self).buffer_spec() == old(self).buffer_spec()
            },
    {
        if status != 0 {
            let e = AcquireError::Driver { step: Step::StartTask, code: status };
            self.phase = Self::phase_after(e);
            return Err(e);
        }
        let mut lent: Vec<S> = Vec::new();
        std::mem::swap(&mut self.samples, &mut lent);
        self.phase = Phase::Reading;
        Ok(lent)
    }

    /// Takes back the buffer the driver read into, with the read's status and
    /// the number of rows it reported. The stop call is due next, whatever
    /// the read answered.
    pub fn on_read(&mut self, buffer: Vec<S>, status: i32, read: i32)
        requires
            old(self).wf(),
            old(self).phase_spec() == Phase::Reading,
            buffer@.len() == old(self).capacity_spec(),
        ensures
            final(self).wf(),
            final(self).same_setup(old(self)),
            final(self).buffers_sized(),
            final(self).start_spec() == old(self).start_spec(),
            final(self).rows_spec() == 0,
            final(self).buffer_spec() == buffer@,
            final(self).phase_spec() is Stopping,
            final(self).phase_spec()->Stopping_rows == rows_of(read, old(self).sample_count_spec()),
            final(self).phase_spec()->Stopping_failure == status_error(Step::ReadSamples, status),
    {
        self.samples = buffer;
        let rows: u32 = if read < 0 {
            0
        } else if read as u32 > self.sample_count {
            self.sample_count
        } else {
            read as u32
        };
        let failure = if status == 0 {
            None
        } else {
            Some(AcquireError::Driver { step: Step::ReadSamples, code: status })
        };
        self.phase = Phase::Stopping { rows, failure };
    }

    /// Takes the driver's answer to the stop call and closes the cycle. On
    /// success the rows the read reported count as captured and each gets its
    /// reconstructed time; a failed read or stop fails the cycle and leaves
    /// no row captured.
    pub fn on_stopped(&mut self, status: i32) -> (r: Result<u32, AcquireError>)
        requires
            old(self).wf(),
            old(self).phase_spec() is Stopping,
        ensures
            final(self).wf(),
            final(self).same_setup(old(self)),
            final(self).buffers_sized(),
            final(self).buffer_spec() == old(self).buffer_spec(),
            final(self).start_spec() == old(self).start_spec(),
            ({
                let rows = old(self).phase_spec()->Stopping_rows;
                let failure = old(self).phase_spec()->Stopping_failure;
                let stop = status_error(Step::StopTask, status);
                if failure is Some {
                    &&& r == Err::<u32, AcquireError>(failure->Some_0)
                    &&& final(self).phase_spec() == phase_after(failure->Some_0)
                    &&& final(self).rows_spec() == 0
                } else if stop is Some {
                    &&& r == Err::<u32, AcquireError>(stop->Some_0)
                    &&& final(self).phase_spec() == phase_after(stop->Some_0)
                    &&& final(self).rows_spec() == 0
                } else {
                    &&& r == Ok::<u32, AcquireError>(rows)
                    &&& final(self).phase_spec() == Phase::Idle
                    &&& final(self).rows_spec() == rows
                }
            }),
    {
        let (rows, failure) = match self.phase {
            Phase::Stopping { rows, failure } => (rows, failure),
            _ => (0, None),
        };
        if let Some(e) = failure {
            self.phase = Self::phase_after(e);
            return Err(e);
        }
        if status != 0 {
            let e = AcquireError::Driver { step: Step::StopTask, code: status };
            self.phase = Self::phase_after(e);
            return Err(e);
        }
        self.fill_timestamps(rows);
        self.rows = rows;
        self.phase = Phase::Idle;
        Ok(rows)
    }

    /// Writes the reconstructed time of each of the first `rows` rows.
    fn fill_timestamps(&mut self, rows: u32)
        requires
            old(self).wf(),
            old(self).phase_spec() is Stopping,
            rows <= old(self).sample_count_spec(),
        ensures
            *final(self) == (AcquisitionTask { timestamps: final(self).timestamps, ..*old(self) }),
            final(self).timestamps@.len() == old(self).timestamps@.len(),
            forall|i: int|
                0 <= i < rows ==> #[trigger] final(self).timestamps@[i] as int == row_time(
                    old(self).start_ns as int,
                    old(self).sample_period_ns as int,
                    i,
                ),
    {
        let start: i128 = self.start_ns;
        let period: i128 = self.sample_period_ns as i128;
        let mut i: u32 = 0;
        while i < rows
            invariant
                i <= rows,
                rows <= self.sample_count,
                self.capacity as int == self.channels as int * self.sample_count as int,
                self.channels > 0,
                self.timestamps@.len() == self.capacity,
                start == self.start_ns,
                period == self.sample_period_ns,
                -0x8000_0000_0000_0000 * 1000 <= start <= 0x7fff_ffff_ffff_ffff * 1000,
                *self == (AcquisitionTask { timestamps: self.timestamps, ..*old(self) }),
                self.timestamps@.len() == old(self).timestamps@.len(),
                forall|j: int|
                    0 <= j < i ==> #[trigger] self.timestamps@[j] as int == row_time(
                        start as int,
                        period as int,
                        j,
                    ),
            decreases rows - i,
        {
            proof {
                assert(self.sample_count <= self.capacity) by (nonlinear_arith)
                    requires
                        self.capacity as int == self.channels as int * self.sample_count as int,
                        self.channels > 0,
                ;
                assert(0 <= i as int * period <= 0xffff_ffff * 0xffff_ffff_ffff_ffff)
                    by (nonlinear_arith)
                    requires
                        i <= 0xffff_ffff,
                        0 <= period <= 0xffff_ffff_ffff_ffff,
                ;
            }
            let t: i128 = start + i as i128 * period;
            self.timestamps.set(i as usize, t);
            i = i + 1;
        }
    }

    /// The captured samples of the last cycle: `samples_read` rows of
    /// `channels` values each, one value per channel within a row. Nothing
    /// beyond them is shown.
    pub fn samples(&self) -> (r: &[S])
        requires
            self.wf(),
        ensures
            r@ == self.buffer_spec().subrange(0, (self.rows_spec() * self.channels_spec()) as int),
            r@.len() == self.rows_spec() * self.channels_spec(),
    {
        proof {
            assert(self.rows as int * self.channels as int <= self.capacity) by (nonlinear_arith)
                requires
                    self.capacity as int == self.channels as int * self.sample_count as int,
                    self.rows <= self.sample_count,
            ;
            if self.phase == Phase::Reading {
                assert(self.rows == 0);
                assert(self.rows as int * self.channels as int == 0) by (nonlinear_arith)
                    requires
                        self.rows == 0,
                ;
            }
        }
        let n: usize = self.rows as usize * self.channels as usize;
        vstd::slice::slice_subrange(self.samples.as_slice(), 0, n)
    }

    /// The reconstructed time of each captured row of the last cycle, in
    /// nanoseconds since the Unix epoch: the cycle's start time plus the row
    /// index times the sample period. The driver gives no time per row; this
    /// assumes that its clock ran at exactly the configured rate.
    pub fn timestamps(&self) -> (r: &[i128])
        requires
            self.wf(),
        ensures
            r@ == self.timestamps_spec().subrange(0, self.rows_spec() as int),
            r@.len() == self.rows_spec(),
            forall|i: int|
                0 <= i < r@.len() ==> #[trigger] r@[i] as int == row_time(
                    self.start_spec(),
                    self.period_spec() as int,
                    i,
                ),
    {
        proof {
            assert(self.sample_count <= self.capacity) by (nonlinear_arith)
                requires
                    self.capacity as int == self.channels as int * self.sample_count as int,
                    self.channels > 0,
            ;
        }
        let r = vstd::slice::slice_subrange(self.timestamps.as_slice(), 0, self.rows as usize);
        assert forall|i: int| 0 <= i < r@.len() implies #[trigger] r@[i] as int == row_time(
            self.start_spec(),
            self.period_spec() as int,
            i,
        ) by {
            assert(r@[i] == self.timestamps@[i]);
        }
        r
    }

    /// Whether the last cycle captured fewer rows than it asked for.
    pub fn partial_read(&self) -> (r: Option<PartialRead>)
        requires
            self.wf(),
        ensures
            self.rows_spec() < self.sample_count_spec() ==> {
                &&& r is Some
                &&& r->Some_0.requested == self.sample_count_spec()
                &&& r->Some_0.actual == self.rows_spec()
            },
            self.rows_spec() == self.sample_count_spec() ==> r == None::<PartialRead>,
    {
        if self.rows < self.sample_count {
            Some(PartialRead { requested: self.sample_count, actual: self.rows })
        } else {
            None
        }
    }

    /// Whether releasing the task now takes a driver call.
    pub fn needs_release(&self) -> (r: bool)
        ensures
            r == (release_call_spec(self.handle_spec()) is Some),
    {
        self.handle.release_call().is_some()
    }

    /// The driver call that releasing the task takes next: the stop call,
    /// then the clear call; `None` once nothing is owed.
    pub fn release_call(&self) -> (r: Option<Step>)
        ensures
            r == release_call_spec(self.handle_spec()),
    {
        self.handle.release_call()
    }

    /// Takes the driver's answer to the release call that was due.
    pub fn on_release_status(&mut self, status: i32)
        requires
            old(self).wf(),
        ensures
            final(self).wf(),
            final(self).handle_spec() == after_release_spec(old(self).handle_spec(), status),
            final(self).buffers_sized(),
            final(self).buffer_spec() == old(self).buffer_spec(),
            final(self).start_spec() == old(self).start_spec(),
            final(self).phase_spec() == old(self).phase_spec(),
            final(self).rows_spec() == old(self).rows_spec(),
    {
        self.handle = self.handle.after_release(status);
    }

    /// Within one cycle the reconstructed times are strictly increasing and
    /// one sample period apart from row to row.
    pub proof fn lemma_timestamps_evenly_spaced(&self, i: int, j: int)
        requires
            self.wf(),
            0 <= i < j < self.rows_spec(),
        ensures
            self.timestamps_spec()[i] < self.timestamps_spec()[j],
            self.timestamps_spec()[i + 1] - self.timestamps_spec()[i] == self.period_spec(),
            self.timestamps_spec()[j] - self.timestamps_spec()[i] == (j - i)
                * self.period_spec(),
    {
        assert(self.timestamps@[i] as int == row_time(self.start_ns as int, self.sample_period_ns as int, i));
        assert(self.timestamps@[i + 1] as int == row_time(self.start_ns as int, self.sample_period_ns as int, i + 1));
        assert(self.timestamps@[j] as int == row_time(self.start_ns as int, self.sample_period_ns as int, j));
        assert(j * self.sample_period_ns - i * self.sample_period_ns == (j - i) * self.sample_period_ns)
            by (nonlinear_arith);
        assert((i + 1) * self.sample_period_ns - i * self.sample_period_ns == self.sample_period_ns)
            by (nonlinear_arith);
        assert((j - i) * self.sample_period_ns > 0) by (nonlinear_arith)
            requires
                j - i > 0,
                self.sample_period_ns > 0,
        ;
    }

    fn phase_after(error: AcquireError) -> (r: Phase)
        ensures
            r == phase_after(error),
    {
        match error {
            AcquireError::Driver { step: _, code } => if code == INVALID_TASK {
                Phase::Broken { error }
            } else {
                Phase::Idle
            },
            AcquireError::Released => Phase::Idle,
        }
    }
}

} // verus!
