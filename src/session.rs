use vstd::prelude::*;

use crate::config::texts;
use crate::error::{BuildError, ErrorView};

verus! {

/// One piece of outside work in a build, performed by the caller.
pub enum Step {
    /// Remove the directory if it exists, then create it and its parents.
    ResetDir { path: String },
    /// Run `program` with `args` in the directory `cwd` and wait for it.
    Run { program: String, args: Vec<String>, cwd: String },
    /// Check that a regular file exists at `path`.
    ExpectFile { path: String },
    /// Create the directory and its parents.
    MakeDir { path: String },
    /// Copy the file `from` to `to`.
    CopyFile { from: String, to: String },
    /// Remove a scratch directory; a failure here is only worth a warning.
    Cleanup { path: String },
}

pub enum StepView {
    ResetDir(Seq<char>),
    Run(Seq<char>, Seq<Seq<char>>, Seq<char>),
    ExpectFile(Seq<char>),
    MakeDir(Seq<char>),
    CopyFile(Seq<char>, Seq<char>),
    Cleanup(Seq<char>),
}

impl View for Step {
    type V = StepView;

    open spec fn view(&self) -> StepView {
        match self {
            Step::ResetDir { path } => StepView::ResetDir(path@),
            Step::Run { program, args, cwd } => StepView::Run(program@, texts(args@), cwd@),
            Step::ExpectFile { path } => StepView::ExpectFile(path@),
            Step::MakeDir { path } => StepView::MakeDir(path@),
            Step::CopyFile { from, to } => StepView::CopyFile(from@, to@),
            Step::Cleanup { path } => StepView::Cleanup(path@),
        }
    }
}

/// What came of performing a step.
pub enum Outcome {
    /// A filesystem step succeeded, or the expected file is there.
    Done,
    /// The expected file is not there (or is no regular file).
    Missing,
    /// A filesystem operation failed, or a program could not be started.
    IoError { message: String },
    /// A program ended, with its exit code where there is one.
    Exited { code: Option<i32>, stderr: String },
}

pub enum OutcomeView {
    Done,
    Missing,
    IoError(Seq<char>),
    Exited(Option<i32>, Seq<char>),
}

impl View for Outcome {
    type V = OutcomeView;

    open spec fn view(&self) -> OutcomeView {
        match self {
            Outcome::Done => OutcomeView::Done,
            Outcome::Missing => OutcomeView::Missing,
            Outcome::IoError { message } => OutcomeView::IoError(message@),
            Outcome::Exited { code, stderr } => OutcomeView::Exited(*code, stderr@),
        }
    }
}

/// Where a build stands.
pub enum Status {
    Running,
    Succeeded,
    Failed(BuildError),
}

pub enum StatusView {
    Running,
    Succeeded,
    Failed(ErrorView),
}

impl View for Status {
    type V = StatusView;

    open spec fn view(&self) -> StatusView {
        match self {
            Status::Running => StatusView::Running,
            Status::Succeeded => StatusView::Succeeded,
            Status::Failed(e) => StatusView::Failed(e@),
        }
    }
}

/// The model of a build: its steps, how many have been completed, and where
/// it stands.
pub struct BuildView {
    pub steps: Seq<StepView>,
    pub done: nat,
    pub status: StatusView,
}

/// Whether `o` is the outcome that lets the build go past step `s`.
pub open spec fn step_succeeded(s: StepView, o: OutcomeView) -> bool {
    match s {
        StepView::Run(..) => o matches OutcomeView::Exited(Some(c), _) && c == 0,
        _ => o is Done,
    }
}

/// The exit status reported for a failed program, -1 where there is none.
pub open spec fn exit_code(o: OutcomeView) -> i32 {
    match o {
        OutcomeView::Exited(Some(c), _) => c,
        _ => -1i32,
    }
}

/// The text that explains a failed outcome.
pub open spec fn detail(o: OutcomeView) -> Seq<char> {
    match o {
        OutcomeView::Exited(_, e) => e,
        OutcomeView::IoError(m) => m,
        _ => seq![],
    }
}

/// The error that ends a build whose step `s` came out as `o`.
pub open spec fn failure_of(s: StepView, o: OutcomeView) -> ErrorView {
    match s {
        StepView::Run(program, _, _) => ErrorView::ToolFailure(program, exit_code(o), detail(o)),
        StepView::ExpectFile(path) => ErrorView::ArtifactNotFound(path),
        StepView::ResetDir(path) => ErrorView::FilesystemError(path, detail(o)),
        StepView::MakeDir(path) => ErrorView::FilesystemError(path, detail(o)),
        StepView::CopyFile(from, _) => ErrorView::FilesystemError(from, detail(o)),
        StepView::Cleanup(path) => ErrorView::FilesystemError(path, detail(o)),
    }
}

/// Whether step `s`, coming out as `o`, failed in a way that is only warned
/// about.
pub open spec fn tolerated(s: StepView, o: OutcomeView) -> bool {
    s is Cleanup && !step_succeeded(s, o)
}

/// The status of a build with `done` of its `len` steps completed and none
/// failed.
pub open spec fn progress(done: nat, len: nat) -> StatusView {
    if done == len {
        StatusView::Succeeded
    } else {
        StatusView::Running
    }
}

/// The build after its current step came out as `o`: the next step is due,
/// or the build succeeded after its last step, or it failed on the first
/// step that did not succeed (a cleanup failing is tolerated).
pub open spec fn after(b: BuildView, o: OutcomeView) -> BuildView {
    let s = b.steps[b.done as int];
    if step_succeeded(s, o) || tolerated(s, o) {
        BuildView { steps: b.steps, done: b.done + 1, status: progress(b.done + 1, b.steps.len()) }
    } else {
        BuildView { steps: b.steps, done: b.done, status: StatusView::Failed(failure_of(s, o)) }
    }
}

/// A build in progress: a fixed list of steps that the caller performs in
/// order, reporting how each came out, and what it yields once every step
/// has succeeded.
pub struct Build<P> {
    steps: Vec<Step>,
    done: usize,
    status: Status,
    product: P,
}

impl<P> View for Build<P> {
    type V = BuildView;

    closed spec fn view(&self) -> BuildView {
        BuildView {
            steps: self.steps@.map_values(|s: Step| s@),
            done: self.done as nat,
            status: self.status@,
        }
    }
}

impl<P> Build<P> {
    /// What the build yields once it has succeeded.
    pub closed spec fn planned(&self) -> P {
        self.product
    }

    /// Whether the step count and the status agree.
    pub open spec fn wf(&self) -> bool {
        &&& self@.done <= self@.steps.len()
        &&& self@.status is Running ==> self@.done < self@.steps.len()
        &&& self@.status is Succeeded ==> self@.done == self@.steps.len()
    }

    /// A build that has done none of `steps` and will yield `product`.
    pub fn new(steps: Vec<Step>, product: P) -> (r: Build<P>)
        ensures
            r.wf(),
            r@.steps == steps@.map_values(|s: Step| s@),
            r@.done == 0,
            r@.status == progress(0, steps@.len()),
            r.planned() == product,
    {
        let status = if steps.len() == 0 {
            Status::Succeeded
        } else {
            Status::Running
        };
        Build { steps, done: 0, status, product }
    }

    /// The step to perform now; none once the build has ended.
    pub fn next_step(&self) -> (r: Option<&Step>)
        requires
            self.wf(),
        ensures
            self@.status is Running ==> (r matches Some(s) && s@ == self@.steps[self@.done as int]),
            !(self@.status is Running) ==> r is None,
    {
        match self.status {
            Status::Running => Some(&self.steps[self.done]),
            _ => None,
        }
    }

    /// Where the build stands.
    pub fn status(&self) -> (r: &Status)
        ensures
            r@ == self@.status,
    {
        &self.status
    }

    /// Records how the current step came out. Returns whether it failed in a
    /// way that is only warned about.
    pub fn record(&mut self, outcome: Outcome) -> (warn: bool)
        requires
            old(self).wf(),
            old(self)@.status is Running,
        ensures
            final(self).wf(),
            final(self)@ == after(old(self)@, outcome@),
            final(self).planned() == old(self).planned(),
            warn == tolerated(old(self)@.steps[old(self)@.done as int], outcome@),
    {
        assert(self@.steps.len() == self.steps@.len());
        let n = self.steps.len();
        let (ok, cleanup) = match &self.steps[self.done] {
            Step::Run { .. } => (
                match &outcome {
                    Outcome::Exited { code: Some(c), .. } => *c == 0,
                    _ => false,
                },
                false,
            ),
            Step::Cleanup { .. } => (
                match &outcome {
                    Outcome::Done => true,
                    _ => false,
                },
                true,
            ),
            _ => (
                match &outcome {
                    Outcome::Done => true,
                    _ => false,
                },
                false,
            ),
        };
        if ok || cleanup {
            self.done = self.done + 1;
            self.status = if self.done == n {
                Status::Succeeded
            } else {
                Status::Running
            };
            !ok
        } else {
            let e = failure(&self.steps[self.done], &outcome);
            self.status = Status::Failed(e);
            false
        }
    }

    /// Ends a build that has stopped: what it yields if every step
    /// succeeded, else the error it failed with.
    pub fn finish(self) -> (r: Result<P, BuildError>)
        requires
            self.wf(),
            !(self@.status is Running),
        ensures
            self@.status is Succeeded ==> r == Ok::<P, BuildError>(self.planned()),
            self@.status matches StatusView::Failed(e) ==> (r matches Err(x) && x@ == e),
    {
        match self.status {
            Status::Failed(e) => Err(e),
            _ => Ok(self.product),
        }
    }
}

fn detail_text(o: &Outcome) -> (r: String)
    ensures
        r@ == detail(o@),
{
    match o {
        Outcome::Exited { stderr, .. } => stderr.clone(),
        Outcome::IoError { message } => message.clone(),
        _ => String::new(),
    }
}

fn failure(s: &Step, o: &Outcome) -> (r: BuildError)
    ensures
        r@ == failure_of(s@, o@),
{
    match s {
        Step::Run { program, .. } => {
            let code: i32 = match o {
                Outcome::Exited { code: Some(c), .. } => *c,
                _ => -1,
            };
            BuildError::ToolFailure { command: program.clone(), code, stderr: detail_text(o) }
        },
        Step::ExpectFile { path } => BuildError::ArtifactNotFound { path: path.clone() },
        Step::ResetDir { path } => BuildError::FilesystemError {
            path: path.clone(),
            message: detail_text(o),
        },
        Step::MakeDir { path } => BuildError::FilesystemError {
            path: path.clone(),
            message: detail_text(o),
        },
        Step::CopyFile { from, .. } => BuildError::FilesystemError {
            path: from.clone(),
            message: detail_text(o),
        },
        Step::Cleanup { path } => BuildError::FilesystemError {
            path: path.clone(),
            message: detail_text(o),
        },
    }
}

} // verus!
