//! Print jobs and the session that stages and commits one of them.
//!
//! A session is driven from outside: the caller asks `next_action`, performs
//! it against the printer, and hands the outcome to `record`. A session opens
//! the printer, stages each step of its job, and commits; the first failure
//! ends it, and after that it asks for nothing more.

use vstd::prelude::*;
use crate::barcode::{check_payload, payload_accepted, BarcodeKind};
use crate::error::PrintError;

verus! {

/// What a user asked to print.
#[derive(Clone, Debug, PartialEq, Eq)]
pub enum PrintJob {
    /// A line of text.
    Text(String),
    /// A picture, by its file identifier, with an optional caption printed below it.
    Image(String, Option<String>),
    /// A sticker, by its file identifier.
    Sticker(String),
    /// A QR code of the payload.
    QrCode(String),
    /// A barcode of the payload in the given symbology.
    Barcode(BarcodeKind, String),
}

/// One piece of content staged into an open printer session.
#[derive(Clone, Debug, PartialEq, Eq)]
pub enum SessionStep {
    /// Write a line of text.
    WriteLine(String),
    /// Fetch the picture with this file identifier, convert it to a bitmap and stage it.
    Bitmap(String),
    /// Stage a QR code.
    Qr(String),
    /// Stage a barcode.
    Barcode(BarcodeKind, String),
}

/// What the caller is to do next for a session.
#[derive(Clone, Debug, PartialEq, Eq)]
pub enum SessionAction {
    /// Open (initialise) a printer session.
    Open,
    /// Stage one step into the open session.
    Stage(SessionStep),
    /// Send the staged session to the device and finish it.
    Commit,
    /// Nothing: the session has ended.
    Finish,
}

/// Where a session stands.
#[derive(Clone, Debug, PartialEq, Eq)]
pub enum PrintStage {
    /// The job is captured; nothing has been done.
    Constructed,
    /// The session is open and some steps are staged.
    Staging,
    /// Every step is staged.
    Prepared,
    /// The session reached the device.
    Committed,
    /// The session ended on this error.
    Failed(PrintError),
}

/// The abstract state of a session: its steps, how many are staged, and its stage.
pub struct SessionModel {
    pub steps: Seq<SessionStep>,
    pub staged: nat,
    pub stage: PrintStage,
}

/// The steps that stage a job.
pub open spec fn steps_of(job: PrintJob) -> Seq<SessionStep> {
    match job {
        PrintJob::Text(s) => seq![SessionStep::WriteLine(s)],
        PrintJob::Image(id, caption) => match caption {
            Some(c) => seq![SessionStep::Bitmap(id), SessionStep::WriteLine(c)],
            None => seq![SessionStep::Bitmap(id)],
        },
        PrintJob::Sticker(id) => seq![SessionStep::Bitmap(id)],
        PrintJob::QrCode(p) => seq![SessionStep::Qr(p)],
        PrintJob::Barcode(k, p) => seq![SessionStep::Barcode(k, p)],
    }
}

/// A new session for a job. A barcode whose payload the symbology refuses
/// fails at once, before the printer is touched.
pub open spec fn started(job: PrintJob) -> SessionModel {
    let stage = match job {
        PrintJob::Barcode(k, p) => if payload_accepted(k, p@) {
            PrintStage::Constructed
        } else {
            PrintStage::Failed(PrintError::InvalidPayload(k, p))
        },
        _ => PrintStage::Constructed,
    };
    SessionModel { steps: steps_of(job), staged: 0, stage }
}

/// The job for a message that is not a command, given its picture (the file
/// identifier of its first size), its text and its sticker (present only
/// where the sticker is static): a picture first, captioned with the text,
/// then text, then a sticker; `None` for a message with none of them.
pub open spec fn message_job(
    photo: Option<String>,
    text: Option<String>,
    sticker: Option<String>,
) -> Option<PrintJob> {
    match photo {
        Some(id) => Some(PrintJob::Image(id, text)),
        None => match text {
            Some(t) => Some(PrintJob::Text(t)),
            None => match sticker {
                Some(id) => Some(PrintJob::Sticker(id)),
                None => None,
            },
        },
    }
}

/// The job for a message; see `message_job`.
pub fn job_for_message(photo: Option<String>, text: Option<String>, sticker: Option<String>) -> (r: Option<
    PrintJob,
>)
    ensures
        r == message_job(photo, text, sticker),
{
    match photo {
        Some(id) => Some(PrintJob::Image(id, text)),
        None => match text {
            Some(t) => Some(PrintJob::Text(t)),
            None => match sticker {
                Some(id) => Some(PrintJob::Sticker(id)),
                None => None,
            },
        },
    }
}

/// The counters agree with the stage.
pub open spec fn model_wf(m: SessionModel) -> bool {
    &&& m.staged <= m.steps.len()
    &&& (m.stage is Staging ==> m.staged < m.steps.len())
    &&& (m.stage is Constructed ==> m.staged == 0)
}

/// What a session in state `m` asks for.
pub open spec fn action_of(m: SessionModel) -> SessionAction {
    match m.stage {
        PrintStage::Constructed => SessionAction::Open,
        PrintStage::Staging => SessionAction::Stage(m.steps[m.staged as int]),
        PrintStage::Prepared => SessionAction::Commit,
        _ => SessionAction::Finish,
    }
}

/// The state after the outcome of the action that `m` asked for.
pub open spec fn advanced(m: SessionModel, outcome: Result<(), PrintError>) -> SessionModel {
    match m.stage {
        PrintStage::Committed => m,
        PrintStage::Failed(_) => m,
        _ => match outcome {
            Err(e) => SessionModel { stage: PrintStage::Failed(e), ..m },
            Ok(()) => match m.stage {
                PrintStage::Constructed => if m.steps.len() == 0 {
                    SessionModel { stage: PrintStage::Prepared, ..m }
                } else {
                    SessionModel { stage: PrintStage::Staging, ..m }
                },
                PrintStage::Staging => if m.staged + 1 == m.steps.len() {
                    SessionModel { staged: m.staged + 1, stage: PrintStage::Prepared, ..m }
                } else {
                    SessionModel { staged: m.staged + 1, ..m }
                },
                _ => SessionModel { stage: PrintStage::Committed, ..m },
            },
        },
    }
}

/// The state after a run of outcomes, one for each action asked.
pub open spec fn after(m: SessionModel, outcomes: Seq<Result<(), PrintError>>) -> SessionModel
    decreases outcomes.len(),
{
    if outcomes.len() == 0 {
        m
    } else {
        after(advanced(m, outcomes[0]), outcomes.drop_first())
    }
}

/// The actions asked along a run of outcomes: one before each outcome and
/// one after the last.
pub open spec fn actions_along(m: SessionModel, outcomes: Seq<Result<(), PrintError>>) -> Seq<SessionAction>
    decreases outcomes.len(),
{
    if outcomes.len() == 0 {
        seq![action_of(m)]
    } else {
        seq![action_of(m)] + actions_along(advanced(m, outcomes[0]), outcomes.drop_first())
    }
}

/// How many successful outcomes in a row a session in state `m` still needs
/// to reach the device: opening, each step not yet staged, and the commit.
pub open spec fn successes_needed(m: SessionModel) -> nat {
    match m.stage {
        PrintStage::Constructed => (m.steps.len() + 2) as nat,
        PrintStage::Staging => (m.steps.len() - m.staged + 1) as nat,
        PrintStage::Prepared => 1,
        _ => 0,
    }
}

/// A failed session stays as it is and asks for nothing more, whatever
/// outcomes follow.
pub proof fn failed_session_is_final(m: SessionModel, outcomes: Seq<Result<(), PrintError>>)
    requires
        m.stage is Failed,
    ensures
        after(m, outcomes) == m,
        forall|i: int| 0 <= i < actions_along(m, outcomes).len() ==> #[trigger] actions_along(m, outcomes)[i] is Finish,
    decreases outcomes.len(),
{
    if outcomes.len() > 0 {
        failed_session_is_final(advanced(m, outcomes[0]), outcomes.drop_first());
    }
}

/// A barcode job whose payload the symbology refuses ends failed with that
/// payload, and never asks to open, stage or commit: nothing reaches the device.
pub proof fn refused_barcode_never_reaches_device(
    kind: BarcodeKind,
    payload: String,
    outcomes: Seq<Result<(), PrintError>>,
)
    requires
        !payload_accepted(kind, payload@),
    ensures
        after(started(PrintJob::Barcode(kind, payload)), outcomes).stage == PrintStage::Failed(
            PrintError::InvalidPayload(kind, payload),
        ),
        forall|i: int|
            0 <= i < actions_along(started(PrintJob::Barcode(kind, payload)), outcomes).len()
                ==> #[trigger] actions_along(started(PrintJob::Barcode(kind, payload)), outcomes)[i] is Finish,
{
    failed_session_is_final(started(PrintJob::Barcode(kind, payload)), outcomes);
}

/// A session reaches the device only if each outcome, from opening through
/// every step to the commit, succeeded.
pub proof fn committed_only_after_every_success(m: SessionModel, outcomes: Seq<Result<(), PrintError>>)
    requires
        model_wf(m),
        !(m.stage is Committed),
        after(m, outcomes).stage is Committed,
    ensures
        outcomes.len() >= successes_needed(m),
        forall|i: int| 0 <= i < successes_needed(m) ==> #[trigger] outcomes[i] is Ok,
    decreases outcomes.len(),
{
    if m.stage is Failed {
        failed_session_is_final(m, outcomes);
    } else if outcomes.len() == 0 {
    } else {
        let n = advanced(m, outcomes[0]);
        if outcomes[0] is Err {
            failed_session_is_final(n, outcomes.drop_first());
        } else if n.stage is Committed {
        } else {
            committed_only_after_every_success(n, outcomes.drop_first());
            assert forall|i: int| 0 <= i < successes_needed(m) implies #[trigger] outcomes[i] is Ok by {
                if i > 0 {
                    assert(outcomes[i] == outcomes.drop_first()[i - 1]);
                }
            }
        }
    }
}

/// `n` successful outcomes.
pub open spec fn successes(n: nat) -> Seq<Result<(), PrintError>> {
    Seq::new(n, |i: int| Ok(()))
}

/// The stage actions for the steps from index `from` on.
pub open spec fn stage_actions(steps: Seq<SessionStep>, from: int) -> Seq<SessionAction> {
    steps.subrange(from, steps.len() as int).map_values(|st: SessionStep| SessionAction::Stage(st))
}

proof fn staging_succeeds(m: SessionModel)
    requires
        model_wf(m),
        m.stage is Staging,
    ensures
        after(m, successes(successes_needed(m))).stage is Committed,
        actions_along(m, successes(successes_needed(m))) == stage_actions(m.steps, m.staged as int) + seq![
            SessionAction::Commit,
            SessionAction::Finish,
        ],
    decreases m.steps.len() - m.staged,
{
    let k = successes_needed(m);
    let oks = successes(k);
    let n = advanced(m, Ok(()));
    assert(oks.drop_first() =~= successes((k - 1) as nat));
    if n.stage is Prepared {
        let last = successes(1);
        let c = advanced(n, Ok(()));
        assert(last.drop_first() =~= successes(0));
        assert(last[0] == Ok::<(), PrintError>(()));
        assert(c.stage is Committed);
        assert(after(c, successes(0)) == c);
        assert(after(n, last) == after(c, successes(0)));
        assert(actions_along(c, successes(0)) == seq![SessionAction::Finish]);
        assert(actions_along(n, last) == seq![action_of(n)] + actions_along(c, successes(0)));
        assert(actions_along(n, last) =~= seq![SessionAction::Commit, SessionAction::Finish]);
        assert(stage_actions(m.steps, m.staged as int) =~= seq![SessionAction::Stage(m.steps[m.staged as int])]);
    } else {
        staging_succeeds(n);
        assert(stage_actions(m.steps, m.staged as int) =~= seq![SessionAction::Stage(m.steps[m.staged as int])]
            + stage_actions(n.steps, n.staged as int));
    }
    assert(oks[0] == Ok::<(), PrintError>(()));
    assert(after(m, oks) == after(n, successes((k - 1) as nat)));
    assert(actions_along(m, oks) =~= seq![action_of(m)] + actions_along(n, successes((k - 1) as nat)));
}

/// A job that is not refused up front, whose every action succeeds, opens
/// the printer, stages each of its steps in order, commits, and then asks
/// for nothing more: it reaches the device exactly once.
pub proof fn successful_session_commits(job: PrintJob)
    requires
        started(job).stage is Constructed,
    ensures
        after(started(job), successes(steps_of(job).len() + 2)).stage is Committed,
        actions_along(started(job), successes(steps_of(job).len() + 2)) == seq![SessionAction::Open]
            + stage_actions(steps_of(job), 0) + seq![SessionAction::Commit, SessionAction::Finish],
{
    let m = started(job);
    let k = (steps_of(job).len() + 2) as nat;
    let n = advanced(m, Ok(()));
    assert(successes(k).drop_first() =~= successes((k - 1) as nat));
    assert(successes(k)[0] == Ok::<(), PrintError>(()));
    staging_succeeds(n);
    assert(after(m, successes(k)) == after(n, successes((k - 1) as nat)));
    assert(successes_needed(n) == k - 1);
    assert(actions_along(m, successes(k)) =~= seq![SessionAction::Open] + actions_along(
        n,
        successes((k - 1) as nat),
    ));
}

impl SessionStep {
    /// A copy of the step.
    pub fn copy(&self) -> (r: SessionStep)
        ensures
            r == *self,
    {
        match self {
            SessionStep::WriteLine(s) => SessionStep::WriteLine(s.clone()),
            SessionStep::Bitmap(s) => SessionStep::Bitmap(s.clone()),
            SessionStep::Qr(s) => SessionStep::Qr(s.clone()),
            SessionStep::Barcode(k, s) => SessionStep::Barcode(*k, s.clone()),
        }
    }
}

/// The session that prints one job.
pub struct PrintRun {
    steps: Vec<SessionStep>,
    staged: usize,
    stage: PrintStage,
}

impl View for PrintRun {
    type V = SessionModel;

    closed spec fn view(&self) -> SessionModel {
        SessionModel { steps: self.steps@, staged: self.staged as nat, stage: self.stage }
    }
}

impl PrintRun {
    /// A session for `job`; see `started`.
    pub fn new(job: PrintJob) -> (r: PrintRun)
        ensures
            r@ == started(job),
            model_wf(r@),
    {
        let ghost j = job;
        let mut stage = PrintStage::Constructed;
        let steps: Vec<SessionStep> = match job {
            PrintJob::Text(s) => vec![SessionStep::WriteLine(s)],
            PrintJob::Image(id, caption) => match caption {
                Some(c) => vec![SessionStep::Bitmap(id), SessionStep::WriteLine(c)],
                None => vec![SessionStep::Bitmap(id)],
            },
            PrintJob::Sticker(id) => vec![SessionStep::Bitmap(id)],
            PrintJob::QrCode(p) => vec![SessionStep::Qr(p)],
            PrintJob::Barcode(k, p) => {
                if let Err(e) = check_payload(k, &p) {
                    stage = PrintStage::Failed(e);
                }
                vec![SessionStep::Barcode(k, p)]
            },
        };
        assert(steps@ =~= steps_of(j));
        PrintRun { steps, staged: 0, stage }
    }

    /// What the caller is to do next; see `action_of`.
    pub fn next_action(&self) -> (r: SessionAction)
        requires
            model_wf(self@),
        ensures
            r == action_of(self@),
    {
        match self.stage {
            PrintStage::Constructed => SessionAction::Open,
            PrintStage::Staging => SessionAction::Stage(self.steps[self.staged].copy()),
            PrintStage::Prepared => SessionAction::Commit,
            _ => SessionAction::Finish,
        }
    }

    /// Takes the outcome of the last action asked; see `advanced`.
    pub fn record(&mut self, outcome: Result<(), PrintError>)
        requires
            model_wf(old(self)@),
        ensures
            final(self)@ == advanced(old(self)@, outcome),
            model_wf(final(self)@),
    {
        match self.stage {
            PrintStage::Committed => {},
            PrintStage::Failed(_) => {},
            _ => match outcome {
                Err(e) => {
                    self.stage = PrintStage::Failed(e);
                },
                Ok(()) => match self.stage {
                    PrintStage::Constructed => {
                        if self.steps.len() == 0 {
                            self.stage = PrintStage::Prepared;
                        } else {
                            self.stage = PrintStage::Staging;
                        }
                    },
                    PrintStage::Staging => {
                        let n: usize = self.steps.len();
                        self.staged = self.staged + 1;
                        if self.staged == n {
                            self.stage = PrintStage::Prepared;
                        }
                    },
                    _ => {
                        self.stage = PrintStage::Committed;
                    },
                },
            },
        }
    }

    /// Where the session stands.
    pub fn stage(&self) -> (r: &PrintStage)
        ensures
            *r == self@.stage,
    {
        &self.stage
    }
}

} // verus!
