//! What a run tells the user about a branch.
//!
//! A [`Report`] is one line of output. The library decides its words and
//! which of them stand out in which way; putting colours on a terminal is
//! left to the caller.

use crate::git::{GitError, GitErrorView};
use vstd::prelude::*;

verus! {

/// How a part of a line is to look.
#[derive(Clone, Copy, Debug, PartialEq, Eq, Structural)]
pub enum Style {
    Plain,
    Bold,
    Green,
    GreenBold,
    Yellow,
    YellowBold,
    Red,
    RedBold,
}

/// A part of a line, to be shown in one style.
#[derive(Clone, Debug, PartialEq, Eq)]
pub struct Segment {
    pub text: String,
    pub style: Style,
}

/// Mathematical value of a [`Segment`].
pub struct SegmentView {
    pub text: Seq<char>,
    pub style: Style,
}

impl View for Segment {
    type V = SegmentView;

    open spec fn view(&self) -> SegmentView {
        SegmentView { text: self.text@, style: self.style }
    }
}

/// The views of a list of segments.
pub open spec fn segment_views(v: Seq<Segment>) -> Seq<SegmentView> {
    Seq::new(v.len(), |i: int| v[i]@)
}

/// The texts of the segments, one after the other.
pub open spec fn joined(parts: Seq<SegmentView>) -> Seq<char>
    decreases parts.len(),
{
    if parts.len() == 0 {
        Seq::empty()
    } else {
        joined(parts.drop_last()) + parts.last().text
    }
}

/// The step at which the work on a branch failed, with what went wrong.
#[derive(Clone, Debug, PartialEq, Eq)]
pub enum Failure {
    /// The two ends of the range did not resolve.
    Resolve(GitError),
    /// The fast-forward merge failed.
    FastForward(GitError),
    /// The ref update failed.
    UpdateRef(GitError),
    /// The checkout of the default branch failed.
    Checkout(GitError),
    /// The deletion of the branch failed.
    Delete(GitError),
}

/// Mathematical value of a [`Failure`].
pub enum FailureView {
    Resolve(GitErrorView),
    FastForward(GitErrorView),
    UpdateRef(GitErrorView),
    Checkout(GitErrorView),
    Delete(GitErrorView),
}

impl View for Failure {
    type V = FailureView;

    open spec fn view(&self) -> FailureView {
        match *self {
            Failure::Resolve(e) => FailureView::Resolve(e@),
            Failure::FastForward(e) => FailureView::FastForward(e@),
            Failure::UpdateRef(e) => FailureView::UpdateRef(e@),
            Failure::Checkout(e) => FailureView::Checkout(e@),
            Failure::Delete(e) => FailureView::Delete(e@),
        }
    }
}

impl FailureView {
    /// The failure in words. A range that does not resolve is described by
    /// its own error; a failed action by the name of the action.
    pub open spec fn message(self) -> Seq<char> {
        match self {
            FailureView::Resolve(e) => e.message(),
            FailureView::FastForward(_) => "failed to fast forward merge"@,
            FailureView::UpdateRef(_) => "failed to update ref"@,
            FailureView::Checkout(_) => "failed to checkout default branch"@,
            FailureView::Delete(_) => "failed to delete local branch"@,
        }
    }
}

impl Failure {
    /// The failure in words.
    pub fn message(&self) -> (r: String)
        ensures
            r@ == self@.message(),
    {
        match self {
            Failure::Resolve(e) => e.message(),
            Failure::FastForward(_) => "failed to fast forward merge".to_owned(),
            Failure::UpdateRef(_) => "failed to update ref".to_owned(),
            Failure::Checkout(_) => "failed to checkout default branch".to_owned(),
            Failure::Delete(_) => "failed to delete local branch".to_owned(),
        }
    }
}

/// One line of output about a branch.
#[derive(Clone, Debug, PartialEq, Eq)]
pub enum Report {
    /// The branch was moved forward to its remote counterpart. `was` is the
    /// short identifier of its old tip.
    Updated { branch: String, was: String },
    /// The branch was deleted. `was` is the short identifier of its tip.
    Deleted { branch: String, was: String },
    /// The branch holds commits that its remote counterpart lacks.
    Unpushed { branch: String },
    /// The branch was deleted on the remote, but holds commits that the
    /// default branch lacks.
    Unmerged { branch: String, remote: String, default_branch: String },
    /// The work on the branch failed.
    Failed { branch: String, failure: Failure },
}

/// Mathematical value of a [`Report`].
pub enum ReportView {
    Updated { branch: Seq<char>, was: Seq<char> },
    Deleted { branch: Seq<char>, was: Seq<char> },
    Unpushed { branch: Seq<char> },
    Unmerged { branch: Seq<char>, remote: Seq<char>, default_branch: Seq<char> },
    Failed { branch: Seq<char>, failure: FailureView },
}

impl View for Report {
    type V = ReportView;

    open spec fn view(&self) -> ReportView {
        match *self {
            Report::Updated { branch, was } => ReportView::Updated { branch: branch@, was: was@ },
            Report::Deleted { branch, was } => ReportView::Deleted { branch: branch@, was: was@ },
            Report::Unpushed { branch } => ReportView::Unpushed { branch: branch@ },
            Report::Unmerged { branch, remote, default_branch } => ReportView::Unmerged {
                branch: branch@,
                remote: remote@,
                default_branch: default_branch@,
            },
            Report::Failed { branch, failure } => ReportView::Failed {
                branch: branch@,
                failure: failure@,
            },
        }
    }
}

/// The view of an optional report.
pub open spec fn opt_report(o: Option<Report>) -> Option<ReportView> {
    match o {
        Some(r) => Some(r@),
        None => None,
    }
}

/// A part of a line.
pub open spec fn part(text: Seq<char>, style: Style) -> SegmentView {
    SegmentView { text, style }
}

impl ReportView {
    /// The branch that the report is about.
    pub open spec fn branch(self) -> Seq<char> {
        match self {
            ReportView::Updated { branch, .. } => branch,
            ReportView::Deleted { branch, .. } => branch,
            ReportView::Unpushed { branch } => branch,
            ReportView::Unmerged { branch, .. } => branch,
            ReportView::Failed { branch, .. } => branch,
        }
    }

    /// The line in parts. Updates are green, deletions and errors red,
    /// warnings yellow; the name of the branch is bold.
    pub open spec fn segments(self) -> Seq<SegmentView> {
        match self {
            ReportView::Updated { branch, was } => seq![
                part("Updated branch"@, Style::Green),
                part(" "@, Style::Plain),
                part(branch, Style::GreenBold),
                part(" (was "@ + was + ")."@, Style::Plain),
            ],
            ReportView::Deleted { branch, was } => seq![
                part("Deleted branch"@, Style::Red),
                part(" "@, Style::Plain),
                part(branch, Style::RedBold),
                part(" (was "@ + was + ")."@, Style::Plain),
            ],
            ReportView::Unpushed { branch } => seq![
                part("Warning:"@, Style::Yellow),
                part(" "@, Style::Plain),
                part(branch, Style::YellowBold),
                part(" seems to contain unpushed commits"@, Style::Plain),
            ],
            ReportView::Unmerged { branch, remote, default_branch } => seq![
                part("Warning:"@, Style::Yellow),
                part(" "@, Style::Plain),
                part(branch, Style::YellowBold),
                part(
                    " was deleted on "@ + remote + ", but appears not merged into "@,
                    Style::Plain,
                ),
                part(default_branch, Style::Bold),
            ],
            ReportView::Failed { branch, failure } => seq![
                part("Error:"@, Style::Red),
                part(" "@, Style::Plain),
                part(branch, Style::RedBold),
                part(" failed to process branch: "@ + failure.message(), Style::Plain),
            ],
        }
    }

    /// The line as plain text.
    pub open spec fn message(self) -> Seq<char> {
        joined(self.segments())
    }
}

/// A part of a line.
fn segment(text: String, style: Style) -> (r: Segment)
    ensures
        r@ == part(text@, style),
{
    Segment { text, style }
}

impl Report {
    /// The line in parts.
    pub fn segments(&self) -> (r: Vec<Segment>)
        ensures
            segment_views(r@) == self@.segments(),
    {
        let r = match self {
            Report::Updated { branch, was } => {
                let mut tail = " (was ".to_owned();
                tail.append(was.as_str());
                tail.append(").");
                vec![
                    segment("Updated branch".to_owned(), Style::Green),
                    segment(" ".to_owned(), Style::Plain),
                    segment(branch.clone(), Style::GreenBold),
                    segment(tail, Style::Plain),
                ]
            },
            Report::Deleted { branch, was } => {
                let mut tail = " (was ".to_owned();
                tail.append(was.as_str());
                tail.append(").");
                vec![
                    segment("Deleted branch".to_owned(), Style::Red),
                    segment(" ".to_owned(), Style::Plain),
                    segment(branch.clone(), Style::RedBold),
                    segment(tail, Style::Plain),
                ]
            },
            Report::Unpushed { branch } => vec![
                segment("Warning:".to_owned(), Style::Yellow),
                segment(" ".to_owned(), Style::Plain),
                segment(branch.clone(), Style::YellowBold),
                segment(" seems to contain unpushed commits".to_owned(), Style::Plain),
            ],
            Report::Unmerged { branch, remote, default_branch } => {
                let mut tail = " was deleted on ".to_owned();
                tail.append(remote.as_str());
                tail.append(", but appears not merged into ");
                vec![
                    segment("Warning:".to_owned(), Style::Yellow),
                    segment(" ".to_owned(), Style::Plain),
                    segment(branch.clone(), Style::YellowBold),
                    segment(tail, Style::Plain),
                    segment(default_branch.clone(), Style::Bold),
                ]
            },
            Report::Failed { branch, failure } => {
                let mut tail = " failed to process branch: ".to_owned();
                tail.append(failure.message().as_str());
                vec![
                    segment("Error:".to_owned(), Style::Red),
                    segment(" ".to_owned(), Style::Plain),
                    segment(branch.clone(), Style::RedBold),
                    segment(tail, Style::Plain),
                ]
            },
        };
        assert(segment_views(r@) =~= self@.segments());
        r
    }

    /// The line as plain text.
    pub fn message(&self) -> (r: String)
        ensures
            r@ == self@.message(),
    {
        let parts = self.segments();
        let ghost all = segment_views(parts@);
        let mut r = String::new();
        let mut i: usize = 0;
        assert(all.take(0) =~= Seq::empty());
        while i < parts.len()
            invariant
                i <= parts.len(),
                all == segment_views(parts@),
                r@ == joined(all.take(i as int)),
            decreases parts.len() - i,
        {
            proof {
                assert(all.take(i + 1).drop_last() =~= all.take(i as int));
                assert(all.take(i + 1).last() == parts@[i as int]@);
            }
            r.append(parts[i].text.as_str());
            i += 1;
        }
        assert(all.take(i as int) =~= all);
        r
    }
}

} // verus!
