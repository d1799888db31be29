//! The threads that read data, model the sky and write the model out: what each
//! does next, and what comes of them all.

use vstd::prelude::*;

use super::error::DiCalibrateError;

verus! {

/// What the sky-modelling thread does next.
#[derive(Debug)]
pub enum ModelStep {
    /// Model the cross-correlations of a timestep.
    Cross { timestep: usize },

    /// Model the auto-correlations of a timestep.
    Autos { timestep: usize },

    /// Look whether another thread had an issue.
    Check { timestep: usize },

    /// Send the model of a timestep to the writer.
    Send { timestep: usize },

    /// All timesteps have been modelled.
    Finished,

    /// Stop early, because of an issue elsewhere.
    Abandoned,

    /// Stop, with an error of its own.
    Failed { error: String },
}

impl ModelStep {
    /// Does the thread end here?
    pub open spec fn is_last(self) -> bool {
        self is Finished || self is Abandoned || self is Failed
    }

    /// What the thread reports if it ends here: an error only if it is its own.
    pub open spec fn spec_outcome(self) -> Option<Result<(), String>> {
        match self {
            ModelStep::Finished => Some(Ok(())),
            ModelStep::Abandoned => Some(Ok(())),
            ModelStep::Failed { error } => Some(Err(error)),
            _ => None,
        }
    }

    /// What the thread reports if it ends here: an error only if it is its own.
    pub fn outcome(&self) -> (r: Option<Result<(), String>>)
        ensures
            r == self.spec_outcome(),
    {
        match self {
            ModelStep::Finished => Some(Ok(())),
            ModelStep::Abandoned => Some(Ok(())),
            ModelStep::Failed { error } => Some(Err(error.clone())),
            _ => None,
        }
    }
}

/// What came of a step.
#[derive(Debug)]
pub enum ModelEvent {
    /// The visibilities have been generated.
    Modelled,

    /// The visibilities could not be generated.
    NotModelled { error: String },

    /// Did another thread have an issue?
    Checked { issue: bool },

    /// Was the message taken? If it wasn't, it's because the channel has been
    /// closed on the other side. That should only happen because the writer has
    /// exited due to error.
    Sent { taken: bool },
}

/// The work of the sky-modelling thread.
#[derive(Debug, Clone, Copy)]
pub struct ModelLoop {
    pub num_timesteps: usize,

    /// Are auto-correlations modelled too?
    pub model_autos: bool,
}

impl ModelLoop {
    /// The first step for a timestep, if there is that timestep.
    pub open spec fn begin(self, timestep: int) -> ModelStep {
        if timestep < self.num_timesteps {
            ModelStep::Cross { timestep: timestep as usize }
        } else {
            ModelStep::Finished
        }
    }

    /// Can this event come of that step?
    pub open spec fn answers(self, step: ModelStep, event: ModelEvent) -> bool {
        match step {
            ModelStep::Cross { timestep } => timestep < self.num_timesteps && (event is Modelled
                || event is NotModelled),
            ModelStep::Autos { timestep } => timestep < self.num_timesteps && (event is Modelled
                || event is NotModelled),
            ModelStep::Check { timestep } => timestep < self.num_timesteps && event is Checked,
            ModelStep::Send { timestep } => timestep < self.num_timesteps && event is Sent,
            ModelStep::Finished => false,
            ModelStep::Abandoned => false,
            ModelStep::Failed { .. } => false,
        }
    }

    /// The step after an event.
    pub open spec fn after(self, step: ModelStep, event: ModelEvent) -> ModelStep {
        match (step, event) {
            (ModelStep::Cross { timestep }, ModelEvent::Modelled) => if self.model_autos {
                ModelStep::Autos { timestep }
            } else {
                ModelStep::Check { timestep }
            },
            (ModelStep::Autos { timestep }, ModelEvent::Modelled) => ModelStep::Check { timestep },
            (ModelStep::Check { timestep }, ModelEvent::Checked { issue: false }) => {
                ModelStep::Send { timestep }
            },
            (ModelStep::Send { timestep }, ModelEvent::Sent { taken: true }) => self.begin(
                timestep + 1,
            ),
            (_, ModelEvent::NotModelled { error }) => ModelStep::Failed { error },
            _ => ModelStep::Abandoned,
        }
    }

    /// The first step.
    pub fn start(&self) -> (step: ModelStep)
        ensures
            step == self.begin(0),
    {
        if self.num_timesteps > 0 {
            ModelStep::Cross { timestep: 0 }
        } else {
            ModelStep::Finished
        }
    }

    /// The step after an event.
    pub fn next(&self, step: ModelStep, event: ModelEvent) -> (r: ModelStep)
        requires
            self.answers(step, event),
        ensures
            r == self.after(step, event),
    {
        match (step, event) {
            (ModelStep::Cross { timestep }, ModelEvent::Modelled) => {
                if self.model_autos {
                    ModelStep::Autos { timestep }
                } else {
                    ModelStep::Check { timestep }
                }
            },
            (ModelStep::Autos { timestep }, ModelEvent::Modelled) => ModelStep::Check { timestep },
            (ModelStep::Check { timestep }, ModelEvent::Checked { issue: false }) => {
                ModelStep::Send { timestep }
            },
            (ModelStep::Send { timestep }, ModelEvent::Sent { taken: true }) => {
                if timestep + 1 < self.num_timesteps {
                    ModelStep::Cross { timestep: timestep + 1 }
                } else {
                    ModelStep::Finished
                }
            },
            (_, ModelEvent::NotModelled { error }) => ModelStep::Failed { error },
            _ => ModelStep::Abandoned,
        }
    }

    /// The most steps that a timestep takes.
    pub open spec fn steps_per_timestep(self) -> int {
        if self.model_autos {
            4
        } else {
            3
        }
    }

    /// The step after a series of events.
    pub open spec fn step_after(self, events: Seq<ModelEvent>) -> ModelStep
        decreases events.len(),
    {
        if events.len() == 0 {
            self.begin(0)
        } else {
            self.after(self.step_after(events.drop_last()), events.last())
        }
    }

    /// Can these events come one after the other?
    pub open spec fn possible(self, events: Seq<ModelEvent>) -> bool
        decreases events.len(),
    {
        events.len() == 0 || (self.possible(events.drop_last()) && self.answers(
            self.step_after(events.drop_last()),
            events.last(),
        ))
    }

    /// The timesteps whose models were sent, in the order of sending.
    pub open spec fn sent(self, events: Seq<ModelEvent>) -> Seq<int>
        decreases events.len(),
    {
        if events.len() == 0 {
            seq![]
        } else {
            let before = self.sent(events.drop_last());
            match (self.step_after(events.drop_last()), events.last()) {
                (ModelStep::Send { timestep }, ModelEvent::Sent { taken: true }) => before.push(
                    timestep as int,
                ),
                _ => before,
            }
        }
    }

    /// The timesteps whose cross-correlations were modelled, in that order.
    pub open spec fn crosses(self, events: Seq<ModelEvent>) -> Seq<int>
        decreases events.len(),
    {
        if events.len() == 0 {
            seq![]
        } else {
            let before = self.crosses(events.drop_last());
            match (self.step_after(events.drop_last()), events.last()) {
                (ModelStep::Cross { timestep }, ModelEvent::Modelled) => before.push(
                    timestep as int,
                ),
                _ => before,
            }
        }
    }

    /// The timesteps whose auto-correlations were modelled, in that order.
    pub open spec fn autos(self, events: Seq<ModelEvent>) -> Seq<int>
        decreases events.len(),
    {
        if events.len() == 0 {
            seq![]
        } else {
            let before = self.autos(events.drop_last());
            match (self.step_after(events.drop_last()), events.last()) {
                (ModelStep::Autos { timestep }, ModelEvent::Modelled) => before.push(
                    timestep as int,
                ),
                _ => before,
            }
        }
    }
}

/// 0 to `n - 1`
pub open spec fn first_timesteps(n: int) -> Seq<int> {
    Seq::new(n as nat, |i: int| i)
}

/// Models are sent in the order of the timesteps, each once and without gaps,
/// and only once all that is asked for has been modelled for the timestep. When
/// the thread has finished, all of them have been modelled and sent.
pub proof fn lemma_models_are_sent_in_order(work: ModelLoop, events: Seq<ModelEvent>)
    requires
        work.possible(events),
    ensures
        work.sent(events).len() <= work.num_timesteps,
        work.sent(events) == first_timesteps(work.sent(events).len() as int),
        work.step_after(events) matches ModelStep::Send { timestep } ==> {
            &&& timestep == work.sent(events).len()
            &&& work.crosses(events) == first_timesteps(timestep + 1)
            &&& work.autos(events) == first_timesteps(
                if work.model_autos {
                    timestep + 1
                } else {
                    0
                },
            )
        },
        work.step_after(events) is Finished ==> {
            let all = first_timesteps(work.num_timesteps as int);
            &&& work.sent(events) == all
            &&& work.crosses(events) == all
            &&& work.autos(events) == if work.model_autos {
                all
            } else {
                first_timesteps(0)
            }
        },
{
    lemma_progress(work, events);
}

/// Where the thread is after some events.
spec fn progress(work: ModelLoop, events: Seq<ModelEvent>) -> bool {
    let n = work.sent(events).len() as int;
    let crosses = work.crosses(events);
    let autos = work.autos(events);
    let step = work.step_after(events);
    let none = first_timesteps(0);
    &&& n <= work.num_timesteps
    &&& work.sent(events) == first_timesteps(n)
    &&& match step {
        ModelStep::Cross { timestep } => timestep == n && n < work.num_timesteps && crosses
            == first_timesteps(n) && autos == (if work.model_autos {
            first_timesteps(n)
        } else {
            none
        }),
        ModelStep::Autos { timestep } => timestep == n && n < work.num_timesteps && crosses
            == first_timesteps(n + 1) && work.model_autos && autos == first_timesteps(n),
        ModelStep::Check { timestep } => timestep == n && n < work.num_timesteps && crosses
            == first_timesteps(n + 1) && autos == (if work.model_autos {
            first_timesteps(n + 1)
        } else {
            none
        }),
        ModelStep::Send { timestep } => timestep == n && n < work.num_timesteps && crosses
            == first_timesteps(n + 1) && autos == (if work.model_autos {
            first_timesteps(n + 1)
        } else {
            none
        }),
        ModelStep::Finished => n == work.num_timesteps && crosses == first_timesteps(n) && autos
            == (if work.model_autos {
            first_timesteps(n)
        } else {
            none
        }),
        _ => true,
    }
}

proof fn lemma_progress(work: ModelLoop, events: Seq<ModelEvent>)
    requires
        work.possible(events),
    ensures
        progress(work, events),
    decreases events.len(),
{
    if events.len() == 0 {
        assert(work.sent(events) =~= first_timesteps(0));
        assert(work.crosses(events) =~= first_timesteps(0));
        assert(work.autos(events) =~= first_timesteps(0));
    } else {
        let before = events.drop_last();
        lemma_progress(work, before);
        let n = work.sent(before).len() as int;
        assert(first_timesteps(n).push(n) =~= first_timesteps(n + 1));
    }
}

/// The work ends: there are at most four steps for each timestep, and three
/// without auto-correlations.
pub proof fn lemma_modelling_ends(work: ModelLoop, events: Seq<ModelEvent>)
    requires
        work.possible(events),
    ensures
        events.len() <= work.steps_per_timestep() * work.num_timesteps,
{
    lemma_steps_taken(work, events);
}

proof fn lemma_steps_taken(work: ModelLoop, events: Seq<ModelEvent>)
    requires
        work.possible(events),
    ensures
        ({
            let k = work.steps_per_timestep();
            let n = work.num_timesteps as int;
            &&& events.len() <= k * n
            &&& match work.step_after(events) {
                ModelStep::Cross { timestep } => timestep < n && events.len() == k * timestep,
                ModelStep::Autos { timestep } => timestep < n && work.model_autos && events.len()
                    == k * timestep + 1,
                ModelStep::Check { timestep } => timestep < n && events.len() == k * timestep + k
                    - 2,
                ModelStep::Send { timestep } => timestep < n && events.len() == k * timestep + k
                    - 1,
                ModelStep::Finished => events.len() == k * n,
                _ => true,
            }
        }),
    decreases events.len(),
{
    let k = work.steps_per_timestep();
    let n = work.num_timesteps as int;
    if events.len() == 0 {
        assert(k * 0 == 0);
        assert(0 <= k * n) by (nonlinear_arith)
            requires
                0 <= k,
                0 <= n,
        ;
    } else {
        lemma_steps_taken(work, events.drop_last());
        let timestep: int = match work.step_after(events.drop_last()) {
            ModelStep::Cross { timestep } => timestep as int,
            ModelStep::Autos { timestep } => timestep as int,
            ModelStep::Check { timestep } => timestep as int,
            ModelStep::Send { timestep } => timestep as int,
            _ => 0,
        };
        assert(k * timestep + k == k * (timestep + 1)) by (nonlinear_arith);
        assert(k * (timestep + 1) <= k * n) by (nonlinear_arith)
            requires
                timestep + 1 <= n,
                0 <= k,
        ;
    }
}

/// The thread fails exactly when modelling fails, with the error that modelling
/// gave.
pub proof fn lemma_modelling_errors_are_kept(work: ModelLoop, events: Seq<ModelEvent>)
    requires
        work.possible(events),
    ensures
        match work.step_after(events) {
            ModelStep::Failed { error } => events.len() > 0 && events.last() == (
            ModelEvent::NotModelled { error }),
            _ => events.len() > 0 ==> !(events.last() is NotModelled),
        },
{
}

/// The thread stops early without an error of its own only because another thread
/// had an issue, or because the channel to the writer was closed; it does so at
/// once.
pub proof fn lemma_early_stops_have_a_cause(work: ModelLoop, events: Seq<ModelEvent>)
    requires
        work.possible(events),
        work.step_after(events) is Abandoned,
    ensures
        events.len() > 0,
        events.last() == (ModelEvent::Checked { issue: true }) || events.last() == (
        ModelEvent::Sent { taken: false }),
{
}

/// Did all modelling succeed, without an issue in another thread and with the
/// channel to the writer open?
pub open spec fn undisturbed(events: Seq<ModelEvent>) -> bool {
    forall|i: int|
        0 <= i < events.len() ==> {
            &&& !((#[trigger] events[i]) is NotModelled)
            &&& events[i] != (ModelEvent::Checked { issue: true })
            &&& events[i] != (ModelEvent::Sent { taken: false })
        }
}

/// Where nothing happens that would stop the thread, it ends only when it has
/// finished, and then all models have been sent.
pub proof fn lemma_undisturbed_work_is_finished(work: ModelLoop, events: Seq<ModelEvent>)
    requires
        work.possible(events),
        undisturbed(events),
        work.step_after(events).is_last(),
    ensures
        work.step_after(events) is Finished,
        work.sent(events) == first_timesteps(work.num_timesteps as int),
{
    if events.len() > 0 {
        let last = events[events.len() - 1];
        assert(!(last is NotModelled));
    }
    lemma_models_are_sent_in_order(work, events);
}

/// What the reading thread does next.
#[derive(Debug)]
pub enum ReadStep {
    /// Read the data of a timestep.
    Read { timestep: usize },

    /// Look whether another thread had an issue.
    Check { timestep: usize },

    /// All timesteps have been read.
    Finished,

    /// Stop early, because of an issue elsewhere.
    Abandoned,

    /// Stop, with an error of its own. The other threads should see this so
    /// they can abandon their work early.
    Failed { error: String },
}

impl ReadStep {
    /// Does the thread end here?
    pub open spec fn is_last(self) -> bool {
        self is Finished || self is Abandoned || self is Failed
    }

    /// What the thread reports if it ends here: an error only if it is its own.
    pub open spec fn spec_outcome(self) -> Option<Result<(), String>> {
        match self {
            ReadStep::Finished => Some(Ok(())),
            ReadStep::Abandoned => Some(Ok(())),
            ReadStep::Failed { error } => Some(Err(error)),
            _ => None,
        }
    }

    /// What the thread reports if it ends here: an error only if it is its own.
    pub fn outcome(&self) -> (r: Option<Result<(), String>>)
        ensures
            r == self.spec_outcome(),
    {
        match self {
            ReadStep::Finished => Some(Ok(())),
            ReadStep::Abandoned => Some(Ok(())),
            ReadStep::Failed { error } => Some(Err(error.clone())),
            _ => None,
        }
    }
}

/// What came of a step of the reading thread.
#[derive(Debug)]
pub enum ReadEvent {
    /// The data have been read.
    Read,

    /// The data could not be read.
    NotRead { error: String },

    /// Did another thread have an issue?
    Checked { issue: bool },
}

/// The work of the reading thread.
#[derive(Debug, Clone, Copy)]
pub struct ReadLoop {
    pub num_timesteps: usize,
}

impl ReadLoop {
    /// The first step for a timestep, if there is that timestep.
    pub open spec fn begin(self, timestep: int) -> ReadStep {
        if timestep < self.num_timesteps {
            ReadStep::Read { timestep: timestep as usize }
        } else {
            ReadStep::Finished
        }
    }

    /// Can this event come of that step?
    pub open spec fn answers(self, step: ReadStep, event: ReadEvent) -> bool {
        match step {
            ReadStep::Read { timestep } => timestep < self.num_timesteps && (event is Read
                || event is NotRead),
            ReadStep::Check { timestep } => timestep < self.num_timesteps && event is Checked,
            _ => false,
        }
    }

    /// The step after an event.
    pub open spec fn after(self, step: ReadStep, event: ReadEvent) -> ReadStep {
        match (step, event) {
            (ReadStep::Read { timestep }, ReadEvent::Read) => ReadStep::Check { timestep },
            (ReadStep::Check { timestep }, ReadEvent::Checked { issue: false }) => self.begin(
                timestep + 1,
            ),
            (_, ReadEvent::NotRead { error }) => ReadStep::Failed { error },
            _ => ReadStep::Abandoned,
        }
    }

    /// The first step.
    pub fn start(&self) -> (step: ReadStep)
        ensures
            step == self.begin(0),
    {
        if self.num_timesteps > 0 {
            ReadStep::Read { timestep: 0 }
        } else {
            ReadStep::Finished
        }
    }

    /// The step after an event.
    pub fn next(&self, step: ReadStep, event: ReadEvent) -> (r: ReadStep)
        requires
            self.answers(step, event),
        ensures
            r == self.after(step, event),
    {
        match (step, event) {
            (ReadStep::Read { timestep }, ReadEvent::Read) => ReadStep::Check { timestep },
            (ReadStep::Check { timestep }, ReadEvent::Checked { issue: false }) => {
                if timestep + 1 < self.num_timesteps {
                    ReadStep::Read { timestep: timestep + 1 }
                } else {
                    ReadStep::Finished
                }
            },
            (_, ReadEvent::NotRead { error }) => ReadStep::Failed { error },
            _ => ReadStep::Abandoned,
        }
    }

    /// The step after a series of events.
    pub open spec fn step_after(self, events: Seq<ReadEvent>) -> ReadStep
        decreases events.len(),
    {
        if events.len() == 0 {
            self.begin(0)
        } else {
            self.after(self.step_after(events.drop_last()), events.last())
        }
    }

    /// Can these events come one after the other?
    pub open spec fn possible(self, events: Seq<ReadEvent>) -> bool
        decreases events.len(),
    {
        events.len() == 0 || (self.possible(events.drop_last()) && self.answers(
            self.step_after(events.drop_last()),
            events.last(),
        ))
    }

    /// The timesteps whose data were read, in that order.
    pub open spec fn read(self, events: Seq<ReadEvent>) -> Seq<int>
        decreases events.len(),
    {
        if events.len() == 0 {
            seq![]
        } else {
            let before = self.read(events.drop_last());
            match (self.step_after(events.drop_last()), events.last()) {
                (ReadStep::Read { timestep }, ReadEvent::Read) => before.push(timestep as int),
                _ => before,
            }
        }
    }
}

/// Data are read in the order of the timesteps, each once and without gaps. When
/// the thread has finished, all of them have been read.
pub proof fn lemma_data_are_read_in_order(work: ReadLoop, events: Seq<ReadEvent>)
    requires
        work.possible(events),
    ensures
        work.read(events).len() <= work.num_timesteps,
        work.read(events) == first_timesteps(work.read(events).len() as int),
        match work.step_after(events) {
            ReadStep::Read { timestep } => timestep < work.num_timesteps && timestep == work.read(
                events,
            ).len(),
            ReadStep::Check { timestep } => timestep < work.num_timesteps && timestep + 1
                == work.read(events).len(),
            ReadStep::Finished => work.read(events).len() == work.num_timesteps,
            _ => true,
        },
    decreases events.len(),
{
    if events.len() == 0 {
        assert(work.read(events) =~= first_timesteps(0));
    } else {
        let before = events.drop_last();
        lemma_data_are_read_in_order(work, before);
        let n = work.read(before).len() as int;
        assert(first_timesteps(n).push(n) =~= first_timesteps(n + 1));
    }
}

/// The reading thread stops early without an error of its own only because
/// another thread had an issue. It fails only when reading fails, with the error
/// that reading gave.
pub proof fn lemma_early_ends_of_reading_have_a_cause(work: ReadLoop, events: Seq<ReadEvent>)
    requires
        work.possible(events),
    ensures
        match work.step_after(events) {
            ReadStep::Abandoned => events.len() > 0 && events.last() == (ReadEvent::Checked {
                issue: true,
            }),
            ReadStep::Failed { error } => events.len() > 0 && events.last() == (
            ReadEvent::NotRead { error }),
            _ => true,
        },
{
}

/// Where all reading succeeds, without an issue in another thread, the reading
/// thread ends only when it has finished, and then all data have been read.
pub proof fn lemma_undisturbed_reading_is_finished(work: ReadLoop, events: Seq<ReadEvent>)
    requires
        work.possible(events),
        forall|i: int|
            0 <= i < events.len() ==> {
                &&& !((#[trigger] events[i]) is NotRead)
                &&& events[i] != (ReadEvent::Checked { issue: true })
            },
        work.step_after(events).is_last(),
    ensures
        work.step_after(events) is Finished,
        work.read(events) == first_timesteps(work.num_timesteps as int),
{
    lemma_early_ends_of_reading_have_a_cause(work, events);
    if events.len() > 0 {
        let last = events[events.len() - 1];
        assert(!(last is NotRead));
    }
    lemma_data_are_read_in_order(work, events);
}

/// What came of the three threads.
#[derive(Debug)]
pub struct ThreadResults {
    pub read: Result<(), String>,
    pub model: Result<(), String>,
    pub write: Result<(), String>,
}

impl ThreadResults {
    /// The error that is reported: that of the first thread in the order of
    /// reading, modelling and writing.
    pub open spec fn error(self) -> Option<DiCalibrateError> {
        if let Err(e) = self.read {
            Some(DiCalibrateError::VisRead(e))
        } else if let Err(e) = self.model {
            Some(DiCalibrateError::Model(e))
        } else if let Err(e) = self.write {
            Some(DiCalibrateError::VisWrite(e))
        } else {
            None
        }
    }

    /// Join the results of the threads.
    pub fn join(self) -> (r: Result<(), DiCalibrateError>)
        ensures
            match self.error() {
                Some(e) => r == Err::<(), DiCalibrateError>(e),
                None => r == Ok::<(), DiCalibrateError>(()),
            },
    {
        if let Err(e) = self.read {
            return Err(DiCalibrateError::VisRead(e));
        }
        if let Err(e) = self.model {
            return Err(DiCalibrateError::Model(e));
        }
        if let Err(e) = self.write {
            return Err(DiCalibrateError::VisWrite(e));
        }
        Ok(())
    }
}

/// Did a thread see an issue, or a closed channel, only because another thread
/// failed? Issues are raised by threads that fail, and the channel to the writer is
/// closed early by a writer that fails.
pub open spec fn issues_are_failures(
    reading: Seq<ReadEvent>,
    modelling: Seq<ModelEvent>,
    results: ThreadResults,
) -> bool {
    &&& reading.contains(ReadEvent::Checked { issue: true }) ==> results.error() is Some
    &&& modelling.contains(ModelEvent::Checked { issue: true }) ==> results.error() is Some
    &&& modelling.contains(ModelEvent::Sent { taken: false }) ==> results.write is Err
}

/// Success never comes with partial data: when all three threads have ended and
/// none reports an error, the data of all timesteps have been read, and all that
/// is asked for has been modelled and sent.
pub proof fn lemma_success_means_all_data(
    reader: ReadLoop,
    reading: Seq<ReadEvent>,
    modeller: ModelLoop,
    modelling: Seq<ModelEvent>,
    results: ThreadResults,
)
    requires
        reader.possible(reading),
        modeller.possible(modelling),
        reader.step_after(reading).spec_outcome() == Some(results.read),
        modeller.step_after(modelling).spec_outcome() == Some(results.model),
        issues_are_failures(reading, modelling, results),
        results.error() is None,
    ensures
        reader.read(reading) == first_timesteps(reader.num_timesteps as int),
        modeller.crosses(modelling) == first_timesteps(modeller.num_timesteps as int),
        modeller.model_autos ==> modeller.autos(modelling) == first_timesteps(
            modeller.num_timesteps as int,
        ),
        modeller.sent(modelling) == first_timesteps(modeller.num_timesteps as int),
{
    lemma_early_ends_of_reading_have_a_cause(reader, reading);
    if reader.step_after(reading) is Abandoned {
        assert(reading[reading.len() - 1] == reading.last());
    }
    if modeller.step_after(modelling) is Abandoned {
        lemma_early_stops_have_a_cause(modeller, modelling);
        assert(modelling[modelling.len() - 1] == modelling.last());
    }
    lemma_data_are_read_in_order(reader, reading);
    lemma_models_are_sent_in_order(modeller, modelling);
}

} // verus!
