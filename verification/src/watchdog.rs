//! The watchdog: it is started once, and petted for as long as the firmware runs.

use vstd::prelude::*;

verus! {

/// How long the watchdog waits for its petting before it resets the board.
pub const WDT_TIMEOUT_US: u32 = 1_000_000;

/// How long the task waits before it pets the watchdog.
pub const WDT_PET_MS: u64 = 250;

/// Where the watchdog's task stands.
#[derive(Clone, Copy, Debug, PartialEq, Eq, Structural)]
pub enum WdtTask {
    /// The watchdog is to be started.
    Start,
    /// The next petting is not due yet.
    Waiting,
    /// The watchdog is to be petted.
    Due,
}

/// What the watchdog's task has to do next.
#[derive(Clone, Copy, Debug, PartialEq, Eq, Structural)]
pub enum WdtAction {
    /// Start the watchdog.
    Unleash,
    /// Wait for so many milliseconds.
    Pause(u64),
    /// Pet the watchdog.
    Pet,
}

impl WdtTask {
    /// What the stage calls for.
    pub open spec fn calls_for(self) -> WdtAction {
        match self {
            WdtTask::Start => WdtAction::Unleash,
            WdtTask::Waiting => WdtAction::Pause(WDT_PET_MS),
            WdtTask::Due => WdtAction::Pet,
        }
    }

    /// The stage that follows once the action has been done.
    pub open spec fn next(self) -> WdtTask {
        match self {
            WdtTask::Waiting => WdtTask::Due,
            WdtTask::Start | WdtTask::Due => WdtTask::Waiting,
        }
    }

    /// The task after a reset.
    pub fn new() -> (task: Self)
        ensures
            task == WdtTask::Start,
    {
        WdtTask::Start
    }

    /// What there is to do now.
    pub fn action(&self) -> (action: WdtAction)
        ensures
            action == self.calls_for(),
    {
        match *self {
            WdtTask::Start => WdtAction::Unleash,
            WdtTask::Waiting => WdtAction::Pause(WDT_PET_MS),
            WdtTask::Due => WdtAction::Pet,
        }
    }

    /// Goes on to the next stage once the action has been done.
    pub fn advance(&mut self)
        ensures
            *final(self) == old(self).next(),
    {
        *self = match *self {
            WdtTask::Waiting => WdtTask::Due,
            WdtTask::Start | WdtTask::Due => WdtTask::Waiting,
        };
    }
}

/// The stage after a reset and `done` actions.
pub open spec fn after_actions(done: nat) -> WdtTask
    decreases done,
{
    if done == 0 {
        WdtTask::Start
    } else {
        after_actions((done - 1) as nat).next()
    }
}

/// The watchdog is started first, and only once. From there on pauses and pettings
/// take turns, so that exactly one pause lies before each petting.
pub proof fn law_unleash_then_pause_and_pet(done: nat)
    ensures
        after_actions(done).calls_for() == (if done == 0 {
            WdtAction::Unleash
        } else if done % 2 == 1 {
            WdtAction::Pause(WDT_PET_MS)
        } else {
            WdtAction::Pet
        }),
    decreases done,
{
    if done > 0 {
        law_unleash_then_pause_and_pet((done - 1) as nat);
    }
}

} // verus!
