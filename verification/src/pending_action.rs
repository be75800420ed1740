//! An asynchronous unit of work, as far as a view needs to know it.
//!
//! The work itself runs outside. Triggering it records a submission and hands
//! out a ticket; when the work completes, its outcome is recorded under that
//! ticket. The status that a view binds to is that of the submission that
//! was triggered last: a completion of an earlier submission is recorded but
//! does not change what the view shows.

use crate::busy_container::BusyAction;
use vstd::prelude::*;
use vstd::string::StringExecFns;

verus! {

/// The text of the busy overlay while the work is in flight.
pub const WORKING_TEXT: &'static str = "Working...";

/// One run of the work: the input it was triggered with and, once it has
/// completed, its outcome.
#[derive(Debug, PartialEq, Eq)]
pub struct Submission<I, O, E> {
    pub input: I,
    pub value: Option<Result<O, E>>,
}

/// What the action is doing: nothing yet, running, or done with an outcome.
#[derive(Debug, PartialEq, Eq)]
pub enum Status<R> {
    /// The work was never triggered.
    Idle,
    /// The run that was triggered last has not completed.
    Pending,
    /// The run that was triggered last completed with this outcome.
    Resolved(R),
}

/// The submission that was triggered last, if there is one.
pub open spec fn last_of<I, O, E>(submissions: Seq<Submission<I, O, E>>) -> Option<
    Submission<I, O, E>,
> {
    if submissions.len() > 0 {
        Some(submissions.last())
    } else {
        None
    }
}

/// Whether the submission that was triggered last is still running. An
/// action that was never triggered is not running.
pub open spec fn is_pending<I, O, E>(submissions: Seq<Submission<I, O, E>>) -> bool {
    match last_of(submissions) {
        Some(submission) => submission.value is None,
        None => false,
    }
}

/// The outcome of the submission that was triggered last, once it has one.
pub open spec fn state_of<I, O, E>(submissions: Seq<Submission<I, O, E>>) -> Option<Result<O, E>> {
    match last_of(submissions) {
        Some(submission) => submission.value,
        None => None,
    }
}

/// The status of an action with these submissions.
pub open spec fn status_of<I, O, E>(submissions: Seq<Submission<I, O, E>>) -> Status<Result<O, E>> {
    match last_of(submissions) {
        None => Status::Idle,
        Some(submission) => match submission.value {
            None => Status::Pending,
            Some(outcome) => Status::Resolved(outcome),
        },
    }
}

/// The submissions after the work was triggered with `input`.
pub open spec fn triggered<I, O, E>(submissions: Seq<Submission<I, O, E>>, input: I) -> Seq<
    Submission<I, O, E>,
> {
    submissions.push(Submission { input, value: None })
}

/// Whether an outcome reported under `ticket` is accepted: the ticket names
/// a submission that is still running.
pub open spec fn awaits_outcome<I, O, E>(
    submissions: Seq<Submission<I, O, E>>,
    ticket: int,
) -> bool {
    0 <= ticket < submissions.len() && submissions[ticket].value is None
}

/// The submissions after `outcome` was reported under `ticket`.
pub open spec fn completed<I, O, E>(
    submissions: Seq<Submission<I, O, E>>,
    ticket: int,
    outcome: Result<O, E>,
) -> Seq<Submission<I, O, E>> {
    if awaits_outcome(submissions, ticket) {
        submissions.update(
            ticket,
            Submission { input: submissions[ticket].input, value: Some(outcome) },
        )
    } else {
        submissions
    }
}

/// An asynchronous action with the status of its latest run.
#[derive(Debug)]
pub struct PendingAction<I, O, E> {
    submissions: Vec<Submission<I, O, E>>,
}

impl<I, O, E> View for PendingAction<I, O, E> {
    type V = Seq<Submission<I, O, E>>;

    closed spec fn view(&self) -> Seq<Submission<I, O, E>> {
        self.submissions@
    }
}

impl<I, O, E> PendingAction<I, O, E> {
    /// An action that was never triggered.
    pub fn new() -> (action: Self)
        ensures
            action@ == Seq::<Submission<I, O, E>>::empty(),
            status_of(action@) is Idle,
    {
        PendingAction { submissions: Vec::new() }
    }

    /// Records that the work was started with `input` and returns the ticket
    /// under which its outcome is to be reported. The action is pending from
    /// now on, whatever it was before.
    pub fn trigger(&mut self, input: I) -> (ticket: usize)
        ensures
            final(self)@ == triggered(old(self)@, input),
            ticket == old(self)@.len(),
            is_pending(final(self)@),
            awaits_outcome(final(self)@, ticket as int),
    {
        let ticket = self.submissions.len();
        self.submissions.push(Submission { input, value: None });
        ticket
    }

    /// Records the outcome of the run with the given ticket.
    ///
    /// The outcome is accepted if the ticket names a run that is still
    /// pending; the call then returns `true`. A ticket that was never handed
    /// out, or whose outcome is already known, changes nothing and gives
    /// `false`. A failure of the work is recorded like any other outcome and
    /// is read from the status.
    pub fn resolve(&mut self, ticket: usize, outcome: Result<O, E>) -> (accepted: bool)
        ensures
            accepted == awaits_outcome(old(self)@, ticket as int),
            final(self)@ == completed(old(self)@, ticket as int, outcome),
    {
        if ticket < self.submissions.len() && self.submissions[ticket].value.is_none() {
            self.submissions[ticket].value = Some(outcome);
            true
        } else {
            false
        }
    }

    /// The submission that was triggered last, if there is one.
    pub fn last_submission(&self) -> (last: Option<&Submission<I, O, E>>)
        ensures
            match last {
                Some(submission) => Some(*submission) == last_of(self@),
                None => last_of(self@) is None,
            },
    {
        let n = self.submissions.len();
        if n > 0 {
            Some(&self.submissions[n - 1])
        } else {
            None
        }
    }

    /// Whether the run that was triggered last has not completed.
    pub fn pending(&self) -> (pending: bool)
        ensures
            pending == is_pending(self@),
    {
        match self.last_submission() {
            Some(submission) => submission.value.is_none(),
            None => false,
        }
    }

    /// The outcome of the run that was triggered last, once it is known.
    pub fn state(&self) -> (state: Option<&Result<O, E>>)
        ensures
            match state {
                Some(outcome) => Some(*outcome) == state_of(self@),
                None => state_of(self@) is None,
            },
    {
        match self.last_submission() {
            Some(submission) => submission.value.as_ref(),
            None => None,
        }
    }

    /// What the action is doing.
    pub fn status(&self) -> (status: Status<&Result<O, E>>)
        ensures
            match status {
                Status::Idle => status_of(self@) is Idle,
                Status::Pending => status_of(self@) is Pending,
                Status::Resolved(outcome) => status_of(self@) == Status::Resolved(*outcome),
            },
    {
        match self.last_submission() {
            None => Status::Idle,
            Some(submission) => match &submission.value {
                None => Status::Pending,
                Some(outcome) => Status::Resolved(outcome),
            },
        }
    }
}

/// An action is busy while its latest run is pending.
impl<I, O, E> BusyAction for PendingAction<I, O, E> {
    fn is_busy(&self) -> (busy: bool)
        ensures
            busy == is_pending(self@),
    {
        self.pending()
    }

    fn busy_text(&self) -> (text: String)
        ensures
            text@ == WORKING_TEXT@,
    {
        String::from_str(WORKING_TEXT)
    }
}

/// The run that was triggered last decides the status. Reporting the outcome
/// of an earlier run, while a later one exists, leaves the status as it was.
pub proof fn lemma_earlier_outcome_keeps_status<I, O, E>(
    submissions: Seq<Submission<I, O, E>>,
    ticket: int,
    outcome: Result<O, E>,
)
    requires
        0 <= ticket < submissions.len() - 1,
    ensures
        status_of(completed(submissions, ticket, outcome)) == status_of(submissions),
        is_pending(completed(submissions, ticket, outcome)) == is_pending(submissions),
{
}

/// Triggering makes the action pending, and reporting the outcome of that
/// run resolves it with exactly that outcome.
pub proof fn lemma_trigger_then_complete<I, O, E>(
    submissions: Seq<Submission<I, O, E>>,
    input: I,
    outcome: Result<O, E>,
)
    ensures
        status_of(triggered(submissions, input)) is Pending,
        status_of(completed(triggered(submissions, input), submissions.len() as int, outcome))
            == Status::Resolved(outcome),
{
}

} // verus!
