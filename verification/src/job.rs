use vstd::prelude::*;
use crate::commands::{CommandSpec, CommandView};
use crate::payloads::{progress_view, ProgressPayload, ProgressView};
use crate::text::{lossy_text, utf8_lossy};

verus! {

/// One command of a job, with the progress reports around it.
#[derive(Debug)]
pub struct JobStep {
    /// The stage named in this step's progress reports.
    pub stage: String,
    /// Reported before the command runs.
    pub announce: String,
    pub command: CommandSpec,
    /// Put before the command's error output in the final progress report when it fails.
    pub failure_note: String,
    /// Put before the command's error output in the job's error when it fails.
    pub failure_error: String,
    /// Reported after the command succeeded, if anything.
    pub success_note: Option<String>,
}

/// A job step as plain values.
pub struct StepView {
    pub stage: Seq<char>,
    pub announce: Seq<char>,
    pub command: CommandView,
    pub failure_note: Seq<char>,
    pub failure_error: Seq<char>,
    pub success_note: Option<Seq<char>>,
}

impl View for JobStep {
    type V = StepView;

    open spec fn view(&self) -> StepView {
        StepView {
            stage: self.stage@,
            announce: self.announce@,
            command: self.command@,
            failure_note: self.failure_note@,
            failure_error: self.failure_error@,
            success_note: match self.success_note {
                Some(m) => Some(m@),
                None => None,
            },
        }
    }
}

impl DeepView for JobStep {
    type V = StepView;

    open spec fn deep_view(&self) -> StepView {
        self@
    }
}

/// A sequence of commands run one after the other until one fails: the install
/// and the update of whisper.cpp.
#[derive(Debug)]
pub struct Job {
    /// Reported before anything runs.
    pub intro: Vec<ProgressPayload>,
    pub steps: Vec<JobStep>,
    /// Reported when every command succeeded.
    pub finale: ProgressPayload,
}

/// A job as plain values.
pub struct JobView {
    pub intro: Seq<ProgressView>,
    pub steps: Seq<StepView>,
    pub finale: ProgressView,
}

impl View for Job {
    type V = JobView;

    open spec fn view(&self) -> JobView {
        JobView { intro: self.intro.deep_view(), steps: self.steps.deep_view(), finale: self.finale@ }
    }
}

/// What became of a command that was asked to run.
#[derive(Debug)]
pub enum CommandOutcome {
    /// The command could not be started; the text says why.
    NotRun(String),
    /// The command ran to its end.
    Exited { success: bool, stderr: Vec<u8> },
}

/// An outcome as plain values.
pub enum OutcomeView {
    NotRun(Seq<char>),
    Exited { success: bool, stderr: Seq<u8> },
}

impl View for CommandOutcome {
    type V = OutcomeView;

    open spec fn view(&self) -> OutcomeView {
        match self {
            CommandOutcome::NotRun(e) => OutcomeView::NotRun(e@),
            CommandOutcome::Exited { success, stderr } => OutcomeView::Exited { success: *success, stderr: stderr@ },
        }
    }
}

/// What to do next.
#[derive(Debug)]
pub enum NextAction {
    /// Run this command and report its outcome.
    Run(CommandSpec),
    /// The job is over, with this result.
    Complete(Result<(), String>),
}

/// The next action as plain values.
pub enum NextView {
    Run(CommandView),
    Complete(Result<(), Seq<char>>),
}

/// The progress reports to send, in order, and then what to do.
#[derive(Debug)]
pub struct Directive {
    pub progress: Vec<ProgressPayload>,
    pub next: NextAction,
}

/// A directive as plain values.
pub struct DirectiveView {
    pub progress: Seq<ProgressView>,
    pub next: NextView,
}

impl View for Directive {
    type V = DirectiveView;

    open spec fn view(&self) -> DirectiveView {
        DirectiveView {
            progress: self.progress.deep_view(),
            next: match &self.next {
                NextAction::Run(c) => NextView::Run(c@),
                NextAction::Complete(Ok(())) => NextView::Complete(Ok(())),
                NextAction::Complete(Err(e)) => NextView::Complete(Err(e@)),
            },
        }
    }
}

/// Whether a command succeeded.
pub open spec fn succeeded(o: OutcomeView) -> bool {
    o matches OutcomeView::Exited { success: true, .. }
}

/// The report sent before a step's command runs.
pub open spec fn announcement(step: StepView) -> ProgressView {
    progress_view(step.stage, step.announce, false, false)
}

/// The final report when a step's command fails with the given error output.
pub open spec fn failure_progress(step: StepView, detail: Seq<char>) -> ProgressView {
    progress_view(step.stage, step.failure_note + detail, true, true)
}

/// The job's error when a step's command fails with the given error output.
pub open spec fn failure_error(step: StepView, detail: Seq<char>) -> Seq<char> {
    step.failure_error + detail
}

/// The job's error when a command could not be started.
pub open spec fn not_run_error(program: Seq<char>, detail: Seq<char>) -> Seq<char> {
    "Failed to run `"@ + program + "`: "@ + detail
}

/// The reports sent after a step's command succeeded, before the next step.
pub open spec fn success_reports(step: StepView) -> Seq<ProgressView> {
    match step.success_note {
        Some(m) => seq![progress_view(step.stage, m, false, false)],
        None => Seq::empty(),
    }
}

/// What a job does first.
pub open spec fn opening(job: JobView) -> DirectiveView {
    if job.steps.len() == 0 {
        DirectiveView { progress: job.intro.push(job.finale), next: NextView::Complete(Ok(())) }
    } else {
        DirectiveView {
            progress: job.intro.push(announcement(job.steps[0])),
            next: NextView::Run(job.steps[0].command),
        }
    }
}

/// What a job does once the command of step `i` has the given outcome.
pub open spec fn after(job: JobView, i: int, outcome: OutcomeView) -> DirectiveView {
    let step = job.steps[i];
    match outcome {
        OutcomeView::NotRun(e) => DirectiveView {
            progress: Seq::empty(),
            next: NextView::Complete(Err(not_run_error(step.command.program, e))),
        },
        OutcomeView::Exited { success, stderr } => if !success {
            DirectiveView {
                progress: seq![failure_progress(step, lossy_text(stderr))],
                next: NextView::Complete(Err(failure_error(step, lossy_text(stderr)))),
            }
        } else if i + 1 < job.steps.len() {
            DirectiveView {
                progress: success_reports(step).push(announcement(job.steps[i + 1])),
                next: NextView::Run(job.steps[i + 1].command),
            }
        } else {
            DirectiveView {
                progress: success_reports(step).push(job.finale),
                next: NextView::Complete(Ok(())),
            }
        },
    }
}

/// How far a job has got.
#[derive(Debug, Clone, Copy, PartialEq, Eq, Structural)]
pub enum RunPhase {
    /// Nothing has run yet.
    Ready,
    /// The command of this step runs.
    Running(usize),
    /// The job is over.
    Finished,
}

/// Where a job stands once the command of step `i` has the given outcome.
pub open spec fn phase_after(job: JobView, i: int, outcome: OutcomeView) -> RunPhase {
    if succeeded(outcome) && i + 1 < job.steps.len() {
        RunPhase::Running((i + 1) as usize)
    } else {
        RunPhase::Finished
    }
}

/// Drives a job: tells which command to run next and which progress to report,
/// from the outcome of the command before.
pub struct JobRunner {
    job: Job,
    phase: RunPhase,
}

impl JobRunner {
    #[verifier::type_invariant]
    spec fn runs_a_step(self) -> bool {
        self.phase matches RunPhase::Running(i) ==> i < self.job.steps.len()
    }

    /// The job being run.
    pub closed spec fn job_view(&self) -> JobView {
        self.job@
    }

    /// How far the job has got.
    pub closed spec fn phase(&self) -> RunPhase {
        self.phase
    }

    /// A runner that has not started the job yet.
    pub fn new(job: Job) -> (r: JobRunner)
        ensures
            r.job_view() == job@,
            r.phase() == RunPhase::Ready,
    {
        JobRunner { job, phase: RunPhase::Ready }
    }

    /// Whether a command of the job is running, so that its outcome is awaited.
    pub fn is_running(&self) -> (b: bool)
        ensures
            b == (self.phase() is Running),
    {
        match self.phase {
            RunPhase::Running(_) => true,
            _ => false,
        }
    }

    /// Starts the job.
    pub fn start(&mut self) -> (d: Directive)
        requires
            old(self).phase() == RunPhase::Ready,
        ensures
            d@ == opening(old(self).job_view()),
            final(self).job_view() == old(self).job_view(),
            final(self).phase() == if old(self).job_view().steps.len() == 0 {
                RunPhase::Finished
            } else {
                RunPhase::Running(0)
            },
    {
        let ghost jv = self.job@;
        let mut progress: Vec<ProgressPayload> = Vec::new();
        let mut k: usize = 0;
        while k < self.job.intro.len()
            invariant
                k <= self.job.intro.len(),
                jv == self.job@,
                progress.deep_view() == jv.intro.take(k as int),
            decreases self.job.intro.len() - k,
        {
            let p = self.job.intro[k].duplicate();
            proof {
                assert(jv.intro[k as int] == self.job.intro@[k as int]@);
                assert(p@ == jv.intro[k as int]);
            }
            let ghost before = progress.deep_view();
            progress.push(p);
            proof {
                assert(progress.deep_view() =~= before.push(jv.intro[k as int]));
                assert(jv.intro.take(k + 1) =~= jv.intro.take(k as int).push(jv.intro[k as int]));
                assert(progress.deep_view() =~= jv.intro.take(k + 1));
            }
            k = k + 1;
        }
        proof {
            assert(jv.intro.take(self.job.intro.len() as int) =~= jv.intro);
        }
        if self.job.steps.len() == 0 {
            progress.push(self.job.finale.duplicate());
            self.phase = RunPhase::Finished;
            proof {
                assert(progress.deep_view() =~= jv.intro.push(jv.finale));
            }
            Directive { progress, next: NextAction::Complete(Ok(())) }
        } else {
            let step = &self.job.steps[0];
            progress.push(ProgressPayload::new(step.stage.as_str(), step.announce.as_str(), false, false));
            let command = step.command.duplicate();
            self.phase = RunPhase::Running(0);
            proof {
                assert(progress.deep_view() =~= jv.intro.push(announcement(jv.steps[0])));
            }
            Directive { progress, next: NextAction::Run(command) }
        }
    }

    /// Takes the outcome of the running command and says what comes next: the
    /// next command, or the end of the job, with the progress to report.
    pub fn record(&mut self, outcome: CommandOutcome) -> (d: Directive)
        requires
            old(self).phase() is Running,
        ensures
            d@ == after(old(self).job_view(), old(self).phase()->Running_0 as int, outcome@),
            final(self).job_view() == old(self).job_view(),
            final(self).phase() == phase_after(old(self).job_view(), old(self).phase()->Running_0 as int, outcome@),
    {
        proof {
            use_type_invariant(&*self);
        }
        let ghost jv = self.job@;
        let i = match self.phase {
            RunPhase::Running(i) => i,
            _ => { vstd::pervasive::unreached() },
        };
        let step = &self.job.steps[i];
        match outcome {
            CommandOutcome::NotRun(e) => {
                self.phase = RunPhase::Finished;
                let err = not_run_message(step.command.program.as_str(), e.as_str());
                let progress: Vec<ProgressPayload> = Vec::new();
                proof {
                    assert(progress.deep_view() =~= Seq::<ProgressView>::empty());
                }
                Directive { progress, next: NextAction::Complete(Err(err)) }
            },
            CommandOutcome::Exited { success, stderr } => {
                if !success {
                    let text = utf8_lossy(stderr.as_slice());
                    let (report, err) = failure_report(step, text.as_str());
                    self.phase = RunPhase::Finished;
                    let mut progress: Vec<ProgressPayload> = Vec::new();
                    progress.push(report);
                    proof {
                        assert(progress.deep_view() =~= seq![failure_progress(jv.steps[i as int], lossy_text(stderr@))]);
                    }
                    Directive { progress, next: NextAction::Complete(Err(err)) }
                } else {
                    let mut progress: Vec<ProgressPayload> = Vec::new();
                    match &step.success_note {
                        Some(m) => {
                            progress.push(ProgressPayload::new(step.stage.as_str(), m.as_str(), false, false));
                        },
                        None => {},
                    }
                    proof {
                        assert(progress.deep_view() =~= success_reports(jv.steps[i as int]));
                    }
                    if i + 1 < self.job.steps.len() {
                        let next_step = &self.job.steps[i + 1];
                        progress.push(ProgressPayload::new(next_step.stage.as_str(), next_step.announce.as_str(), false, false));
                        let command = next_step.command.duplicate();
                        self.phase = RunPhase::Running(i + 1);
                        proof {
                            assert(progress.deep_view() =~= success_reports(jv.steps[i as int]).push(
                                announcement(jv.steps[i + 1]),
                            ));
                        }
                        Directive { progress, next: NextAction::Run(command) }
                    } else {
                        progress.push(self.job.finale.duplicate());
                        self.phase = RunPhase::Finished;
                        proof {
                            assert(progress.deep_view() =~= success_reports(jv.steps[i as int]).push(jv.finale));
                        }
                        Directive { progress, next: NextAction::Complete(Ok(())) }
                    }
                }
            },
        }
    }
}

/// The job's error when the command `program` could not be started.
pub fn not_run_message(program: &str, detail: &str) -> (e: String)
    ensures
        e@ == not_run_error(program@, detail@),
{
    let e = String::from_str("Failed to run `");
    let e = e.concat(program);
    let e = e.concat("`: ");
    e.concat(detail)
}

/// The final progress report and the job's error when the step's command
/// failed with the given error output.
pub fn failure_report(step: &JobStep, detail: &str) -> (r: (ProgressPayload, String))
    ensures
        r.0@ == failure_progress(step@, detail@),
        r.1@ == failure_error(step@, detail@),
{
    let message = step.failure_note.clone().concat(detail);
    let report = ProgressPayload { stage: step.stage.clone(), message, done: true, error: true };
    let err = step.failure_error.clone().concat(detail);
    (report, err)
}


/// The result of a job whose command of step `i` and the ones after it have the
/// outcomes `outs`, in order; `None` while the job still waits for a command.
pub open spec fn replay(job: JobView, i: int, outs: Seq<OutcomeView>) -> Option<Result<(), Seq<char>>>
    decreases outs.len(),
{
    if outs.len() == 0 {
        None
    } else {
        match after(job, i, outs[0]).next {
            NextView::Complete(r) => Some(r),
            NextView::Run(_) => replay(job, i + 1, outs.drop_first()),
        }
    }
}

/// The job's error when the command of this step has this failed outcome.
pub open spec fn step_error(step: StepView, outcome: OutcomeView) -> Seq<char> {
    match outcome {
        OutcomeView::NotRun(e) => not_run_error(step.command.program, e),
        OutcomeView::Exited { stderr, .. } => failure_error(step, lossy_text(stderr)),
    }
}

/// A job succeeds exactly when the command of every remaining step ran and succeeded.
pub proof fn law_success_needs_every_command(job: JobView, i: int, outs: Seq<OutcomeView>)
    requires
        0 <= i < job.steps.len(),
    ensures
        replay(job, i, outs) == Some(Ok::<(), Seq<char>>(()))
            <==> (outs.len() >= job.steps.len() - i && forall|j: int|
            0 <= j < job.steps.len() - i ==> succeeded(#[trigger] outs[j])),
    decreases outs.len(),
{
    if outs.len() > 0 {
        let rest = outs.drop_first();
        if succeeded(outs[0]) && i + 1 < job.steps.len() {
            law_success_needs_every_command(job, i + 1, rest);
            if outs.len() >= job.steps.len() - i && forall|j: int| 0 <= j < job.steps.len() - i ==> succeeded(#[trigger] outs[j]) {
                assert forall|j: int| 0 <= j < job.steps.len() - (i + 1) implies succeeded(#[trigger] rest[j]) by {
                    assert(rest[j] == outs[j + 1]);
                    assert(succeeded(outs[j + 1]));
                }
            }
            if replay(job, i, outs) == Some(Ok::<(), Seq<char>>(())) {
                assert forall|j: int| 0 <= j < job.steps.len() - i implies succeeded(#[trigger] outs[j]) by {
                    if j > 0 {
                        assert(outs[j] == rest[j - 1]);
                    }
                }
            }
        } else if !succeeded(outs[0]) {
            assert(!(forall|j: int| 0 <= j < job.steps.len() - i ==> succeeded(#[trigger] outs[j]))) by {
                assert(!succeeded(outs[0]));
            }
        }
    }
}

/// A job never waits for more outcomes than it has steps left: given as many
/// outcomes as remaining steps, it has completed.
pub proof fn law_job_ends(job: JobView, i: int, outs: Seq<OutcomeView>)
    requires
        0 <= i < job.steps.len(),
        outs.len() >= job.steps.len() - i,
    ensures
        replay(job, i, outs) is Some,
    decreases outs.len(),
{
    if i + 1 < job.steps.len() {
        law_job_ends(job, i + 1, outs.drop_first());
    }
}

/// The first command that fails ends the job, with the error of that step.
pub proof fn law_first_failure_ends_job(job: JobView, i: int, outs: Seq<OutcomeView>, k: int)
    requires
        0 <= i,
        0 <= k < outs.len(),
        i + k < job.steps.len(),
        !succeeded(outs[k]),
        forall|j: int| 0 <= j < k ==> succeeded(#[trigger] outs[j]),
    ensures
        replay(job, i, outs) == Some(Err::<(), Seq<char>>(step_error(job.steps[i + k], outs[k]))),
    decreases k,
{
    if k > 0 {
        assert(succeeded(outs[0]));
        let rest = outs.drop_first();
        assert forall|j: int| 0 <= j < k - 1 implies succeeded(#[trigger] rest[j]) by {
            assert(rest[j] == outs[j + 1]);
            assert(succeeded(outs[j + 1]));
        }
        law_first_failure_ends_job(job, i + 1, rest, k - 1);
        assert(rest[k - 1] == outs[k]);
    }
}

/// A job that completes reports it last: its closing report after success, and
/// a report marked done and failed after a command that ran and failed.
pub proof fn law_completion_is_reported(job: JobView, i: int, outcome: OutcomeView)
    requires
        0 <= i < job.steps.len(),
    ensures
        after(job, i, outcome).next == NextView::Complete(Ok::<(), Seq<char>>(())) ==>
            after(job, i, outcome).progress.last() == job.finale,
        outcome matches OutcomeView::Exited { success: false, .. } ==> ({
            let p = after(job, i, outcome).progress.last();
            p.done && p.error && p.stage == job.steps[i].stage
        }),
{
}

} // verus!
