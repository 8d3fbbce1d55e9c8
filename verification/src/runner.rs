use vstd::prelude::*;

use crate::plans::{Attempt, Plan};
use crate::pngtext::{is_current_thumbnail, thumbnail_is_current};

verus! {

/// Where a plan run stands within its current attempt.
#[derive(Debug, Clone, Copy, PartialEq, Eq, Structural)]
pub enum RunStage {
    /// The attempt's command is running.
    Running,
    /// The attempt's output file is being looked for.
    Checking,
    /// The attempt's output file is being read.
    Reading,
}

/// The progress of a plan run: the attempt under way and its stage.
#[derive(Debug, Clone, Copy)]
pub struct PlanRun {
    pub attempt: usize,
    pub stage: RunStage,
}

/// What the caller saw when it carried out the last move.
#[derive(Debug)]
pub enum RunEvent {
    /// The command ran and exited successfully (`true`), or did not.
    Finished(bool),
    /// The output file exists, or does not.
    Exists(bool),
    /// The output file's bytes, or `None` where reading it failed.
    Read(Option<Vec<u8>>),
}

/// What the caller is to do next.
#[derive(Debug)]
pub enum RunMove {
    /// Run the command of attempt `i`.
    Run(usize),
    /// Look for the output file of attempt `i`.
    Check(usize),
    /// Read the output file of attempt `i`.
    Read(usize),
    /// The thumbnail was read from attempt `i`: move or remove its output as
    /// the attempt says, and hand out the bytes.
    Deliver(usize, Vec<u8>),
    /// The command of attempt `i` succeeded, but the attempt names no output
    /// file.
    Unnamed(usize),
    /// No attempt produced a file.
    GiveUp,
    /// Reading a produced file failed: the plan fails.
    Fail,
}

/// Whether `event` answers a move made at `stage`.
pub open spec fn answers(stage: RunStage, event: RunEvent) -> bool {
    match stage {
        RunStage::Running => event is Finished,
        RunStage::Checking => event is Exists,
        RunStage::Reading => event is Read,
    }
}

/// The stage that a move leaves the run in, where it leaves one.
pub open spec fn move_stage(m: RunMove) -> Option<(usize, RunStage)> {
    match m {
        RunMove::Run(i) => Some((i, RunStage::Running)),
        RunMove::Check(i) => Some((i, RunStage::Checking)),
        RunMove::Read(i) => Some((i, RunStage::Reading)),
        _ => None,
    }
}

/// How far a run has come: three steps per attempt.
pub open spec fn run_rank(attempt: int, stage: RunStage) -> int {
    3 * attempt + match stage {
        RunStage::Running => 0int,
        RunStage::Checking => 1int,
        RunStage::Reading => 2int,
    }
}

/// Whether the bytes read for attempt `a` are taken: always, unless the
/// attempt requires a cache key that they do not record.
pub open spec fn accepts(a: Attempt, data: Seq<u8>) -> bool {
    match a.require {
        Some(k) => thumbnail_is_current(data, k.uri@, k.mtime),
        None => true,
    }
}

/// The move that starts attempt `i`, or gives up past the last one.
pub open spec fn starts_attempt(plan: Plan, i: int, m: RunMove) -> bool {
    if i >= plan.attempts@.len() {
        m is GiveUp
    } else if plan.attempts@[i].run is Some {
        m == RunMove::Run(i as usize)
    } else {
        looks_for_output(plan, i, m)
    }
}

/// The move that looks for the output of attempt `i`.
pub open spec fn looks_for_output(plan: Plan, i: int, m: RunMove) -> bool {
    if plan.attempts@[i].output is Some {
        m == RunMove::Check(i as usize)
    } else {
        m == RunMove::Unnamed(i as usize)
    }
}

fn look_for_output(plan: &Plan, i: usize) -> (r: (PlanRun, RunMove))
    requires
        i < plan.attempts@.len(),
    ensures
        looks_for_output(*plan, i as int, r.1),
        r.0.attempt == i && r.0.stage == RunStage::Checking,
{
    let next = PlanRun { attempt: i, stage: RunStage::Checking };
    if plan.attempts[i].output.is_some() {
        (next, RunMove::Check(i))
    } else {
        (next, RunMove::Unnamed(i))
    }
}

fn start_attempt(plan: &Plan, i: usize) -> (r: (PlanRun, RunMove))
    ensures
        starts_attempt(*plan, i as int, r.1),
        move_stage(r.1) matches Some(s) ==> r.0.attempt == s.0 && r.0.stage == s.1,
{
    if i >= plan.attempts.len() {
        (PlanRun { attempt: i, stage: RunStage::Running }, RunMove::GiveUp)
    } else if plan.attempts[i].run.is_some() {
        (PlanRun { attempt: i, stage: RunStage::Running }, RunMove::Run(i))
    } else {
        look_for_output(plan, i)
    }
}

impl PlanRun {
    /// Starts running `plan`: the first move of its first attempt.
    pub fn start(plan: &Plan) -> (r: (PlanRun, RunMove))
        ensures
            starts_attempt(*plan, 0, r.1),
            move_stage(r.1) matches Some(s) ==> r.0.attempt == s.0 && r.0.stage == s.1,
    {
        start_attempt(plan, 0)
    }

    /// The next move after `event`: a command that failed, or an output that
    /// is missing, passes to the next attempt; an output that exists is read;
    /// the first one read and accepted is delivered, one that is not accepted
    /// (a stale cached thumbnail) passes to the next attempt, and a failed
    /// read fails the plan.
    pub fn advance(self, plan: &Plan, event: RunEvent) -> (r: (PlanRun, RunMove))
        requires
            self.attempt < plan.attempts@.len(),
            answers(self.stage, event),
        ensures
            move_stage(r.1) matches Some(s) ==> r.0.attempt == s.0 && r.0.stage == s.1
                && run_rank(s.0 as int, s.1) > run_rank(self.attempt as int, self.stage),
            event == RunEvent::Finished(true) ==> looks_for_output(*plan, self.attempt as int, r.1),
            event == RunEvent::Finished(false) ==> starts_attempt(*plan, self.attempt + 1, r.1),
            event == RunEvent::Exists(true) ==> r.1 == RunMove::Read(self.attempt),
            event == RunEvent::Exists(false) ==> starts_attempt(*plan, self.attempt + 1, r.1),
            event matches RunEvent::Read(Some(d)) ==> if accepts(
                plan.attempts@[self.attempt as int],
                d@,
            ) {
                r.1 matches RunMove::Deliver(i, data) && i == self.attempt && data@ == d@
            } else {
                starts_attempt(*plan, self.attempt + 1, r.1)
            },
            event matches RunEvent::Read(None) ==> r.1 is Fail,
    {
        let i = self.attempt;
        let n = plan.attempts.len();
        assert(i < n);
        match event {
            RunEvent::Finished(ok) => {
                if ok {
                    look_for_output(plan, i)
                } else {
                    start_attempt(plan, i + 1)
                }
            },
            RunEvent::Exists(found) => {
                if found {
                    (PlanRun { attempt: i, stage: RunStage::Reading }, RunMove::Read(i))
                } else {
                    start_attempt(plan, i + 1)
                }
            },
            RunEvent::Read(data) => match data {
                Some(d) => {
                    let taken = match &plan.attempts[i].require {
                        Some(key) => is_current_thumbnail(d.as_slice(), key.uri.as_str(), key.mtime),
                        None => true,
                    };
                    if taken {
                        (self, RunMove::Deliver(i, d))
                    } else {
                        start_attempt(plan, i + 1)
                    }
                },
                None => (self, RunMove::Fail),
            },
        }
    }
}

} // verus!
