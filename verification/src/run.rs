//! A whole run over the local branches, as a state machine.
//!
//! A [`Run`] works through the branches one at a time, in the order given,
//! with one [`Session`] each. The branch that is checked out is handed from
//! each session to the next, so that a branch sees what the work on the
//! branches before it has changed. A failure on one branch ends the work on
//! that branch only.

use crate::command::{Reply, ReplyView, Request, RequestView};
use crate::report::{opt_report, Report, ReportView};
use crate::session::{Context, ContextView, Outcome, Progress, ProgressView, Session, SessionView};
use crate::text::views;
use vstd::prelude::*;

verus! {

/// How the work on one branch ended.
#[derive(Clone, Debug, PartialEq, Eq)]
pub struct Verdict {
    pub branch: String,
    pub outcome: Outcome,
    pub report: Option<Report>,
}

/// Mathematical value of a [`Verdict`].
pub struct VerdictView {
    pub branch: Seq<char>,
    pub outcome: Outcome,
    pub report: Option<ReportView>,
}

impl View for Verdict {
    type V = VerdictView;

    open spec fn view(&self) -> VerdictView {
        VerdictView { branch: self.branch@, outcome: self.outcome, report: opt_report(self.report) }
    }
}

/// The view of an optional verdict.
pub open spec fn opt_verdict(o: Option<Verdict>) -> Option<VerdictView> {
    match o {
        Some(v) => Some(v@),
        None => None,
    }
}

/// A run between two steps: the branches, the one that is being worked on,
/// and the session for it.
#[derive(Debug)]
pub struct Run {
    ctx: Context,
    branches: Vec<String>,
    position: usize,
    session: Session,
}

/// Mathematical value of a [`Run`].
pub struct RunView {
    pub ctx: ContextView,
    pub branches: Seq<Seq<char>>,
    pub position: int,
    pub session: SessionView,
}

impl View for Run {
    type V = RunView;

    closed spec fn view(&self) -> RunView {
        RunView {
            ctx: self.ctx@,
            branches: views(self.branches@),
            position: self.position as int,
            session: self.session@,
        }
    }
}

/// What a step of a run leads to.
#[derive(Debug)]
pub enum Advance {
    /// The run goes on once `request` has been carried out. `verdict` is
    /// there when the step ended the work on a branch.
    Ask { run: Run, request: Request, verdict: Option<Verdict> },
    /// All branches have been worked on. `verdict` is there when the step
    /// ended the work on the last branch; `current` is the branch that is
    /// checked out now.
    Done { verdict: Option<Verdict>, current: String },
}

/// Mathematical value of an [`Advance`].
pub enum AdvanceView {
    Ask { run: RunView, request: RequestView, verdict: Option<VerdictView> },
    Done { verdict: Option<VerdictView>, current: Seq<char> },
}

impl View for Advance {
    type V = AdvanceView;

    open spec fn view(&self) -> AdvanceView {
        match *self {
            Advance::Ask { run, request, verdict } => AdvanceView::Ask {
                run: run@,
                request: request@,
                verdict: opt_verdict(verdict),
            },
            Advance::Done { verdict, current } => AdvanceView::Done {
                verdict: opt_verdict(verdict),
                current: current@,
            },
        }
    }
}

impl AdvanceView {
    /// The branch that is checked out after the step.
    pub open spec fn current(self) -> Seq<char> {
        match self {
            AdvanceView::Ask { run, .. } => run.session.current,
            AdvanceView::Done { current, .. } => current,
        }
    }

    /// How the step ended the work on a branch, if it did.
    pub open spec fn verdict(self) -> Option<VerdictView> {
        match self {
            AdvanceView::Ask { verdict, .. } => verdict,
            AdvanceView::Done { verdict, .. } => verdict,
        }
    }
}

impl RunView {
    /// Turns to the branch at `position`, if there is one, while `current`
    /// is checked out. `verdict` is what the step that leads here has to
    /// say about the branch before.
    pub open spec fn enter(
        ctx: ContextView,
        branches: Seq<Seq<char>>,
        position: int,
        current: Seq<char>,
        verdict: Option<VerdictView>,
    ) -> AdvanceView {
        if 0 <= position < branches.len() {
            let first = SessionView::begin(ctx, branches[position], current);
            AdvanceView::Ask {
                run: RunView { ctx, branches, position, session: first.0 },
                request: first.1,
                verdict,
            }
        } else {
            AdvanceView::Done { verdict, current }
        }
    }

    /// The first step of a run over `branches` while `current` is checked
    /// out.
    pub open spec fn begin(
        ctx: ContextView,
        branches: Seq<Seq<char>>,
        current: Seq<char>,
    ) -> AdvanceView {
        Self::enter(ctx, branches, 0, current, None)
    }

    /// The step that `reply`, the reply to the pending request, leads to:
    /// the session of the branch at hand takes the reply, and when that
    /// ends the work on the branch, the run turns to the next one, with
    /// the branch that is checked out by then.
    pub open spec fn step(self, reply: ReplyView) -> AdvanceView {
        match self.session.step(self.ctx, reply) {
            ProgressView::Ask { session, request } => AdvanceView::Ask {
                run: RunView { session, ..self },
                request,
                verdict: None,
            },
            ProgressView::Done { outcome, report, current } => Self::enter(
                self.ctx,
                self.branches,
                self.position + 1,
                current,
                Some(VerdictView { branch: self.session.local, outcome, report }),
            ),
        }
    }
}

impl Run {
    #[verifier::type_invariant]
    spec fn inv(self) -> bool {
        self.position < self.branches.len()
    }

    /// The branch that is being worked on.
    pub fn branch(&self) -> (r: &String)
        ensures
            r@ == self@.session.local,
    {
        self.session.local()
    }

    /// The branch that is checked out.
    pub fn current(&self) -> (r: &String)
        ensures
            r@ == self@.session.current,
    {
        self.session.current()
    }

    fn enter(
        ctx: Context,
        branches: Vec<String>,
        position: usize,
        current: String,
        verdict: Option<Verdict>,
    ) -> (r: Advance)
        ensures
            r@ == RunView::enter(
                ctx@,
                views(branches@),
                position as int,
                current@,
                opt_verdict(verdict),
            ),
    {
        assert(views(branches@).len() == branches@.len());
        if position < branches.len() {
            assert(views(branches@)[position as int] == branches@[position as int]@);
            let local = branches[position].clone();
            let (session, request) = Session::begin(&ctx, local, current);
            Advance::Ask { run: Run { ctx, branches, position, session }, request, verdict }
        } else {
            Advance::Done { verdict, current }
        }
    }

    /// Begins a run over `branches` while `current` is checked out, and
    /// hands out the first request, if there is anything to do.
    pub fn begin(ctx: Context, branches: Vec<String>, current: String) -> (r: Advance)
        ensures
            r@ == RunView::begin(ctx@, views(branches@), current@),
    {
        Run::enter(ctx, branches, 0, current, None)
    }

    /// Takes the reply to the pending request and hands out the next
    /// request, or ends the run.
    pub fn step(self, reply: &Reply) -> (r: Advance)
        ensures
            r@ == self@.step(reply@),
    {
        proof {
            use_type_invariant(&self);
        }
        let Run { ctx, branches, position, session } = self;
        let branch = session.local().clone();
        match session.step(&ctx, reply) {
            Progress::Ask { session, request } => Advance::Ask {
                run: Run { ctx, branches, position, session },
                request,
                verdict: None,
            },
            Progress::Done { outcome, report, current } => Run::enter(
                ctx,
                branches,
                position + 1,
                current,
                Some(Verdict { branch, outcome, report }),
            ),
        }
    }
}

} // verus!
