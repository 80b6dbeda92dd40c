//! The display: the logo at start-up, and the countdown to power-off.

use vstd::prelude::*;

verus! {

/// How often the logo is tried.
pub const LOGO_ATTEMPTS: u32 = 4;

/// The pause after an attempt at the logo that failed.
pub const LOGO_RETRY_MS: u64 = 100;

/// How many frames the countdown has.
pub const COUNTDOWN_FRAMES: u32 = 30;

/// How long a frame of the countdown is shown.
pub const FRAME_MS: u64 = 1000;

/// A text and where it stands on the display, by its top left corner.
#[derive(Clone, Copy, Debug, PartialEq, Eq)]
pub struct Label {
    pub text: &'static str,
    pub x: i32,
    pub y: i32,
}

/// The logo's place on the display, by its top left corner, and its width in pixels.
#[derive(Clone, Copy, Debug, PartialEq, Eq, Structural)]
pub struct Logo {
    pub x: i32,
    pub y: i32,
    pub width: u32,
}

/// Where the logo stands, and how wide it is.
pub open spec fn logo() -> Logo {
    Logo { x: 32, y: 0, width: 64 }
}

/// All that is on the display at a time.
#[derive(Clone, Copy, Debug, PartialEq, Eq)]
pub struct Frame {
    pub title: Label,
    pub message: Label,
    pub spinner: Option<Label>,
}

/// Where the display's task stands. Each stage calls for one action.
#[derive(Clone, Copy, Debug, PartialEq, Eq, Structural)]
pub enum DisplayTask {
    /// The controller is to be set up; so many attempts at the logo have failed.
    Init { failed: u32 },
    /// The logo is to be drawn.
    Logo { failed: u32 },
    /// The logo is to be sent to the controller; it could be drawn, or not.
    LogoFlush { failed: u32, drawn: bool },
    /// The attempt failed.
    Retry { failed: u32 },
    /// Nothing is to be done until the shutdown is asked for.
    Idle,
    /// A frame of the countdown is to be shown, after so many others.
    Countdown { shown: u32, spinner: u32 },
    /// The frame stays for a while.
    Tick { shown: u32, spinner: u32 },
    /// The countdown is over.
    Final,
    /// The power is to be cut.
    PowerOff,
}

/// What the display's task has to do next.
#[derive(Clone, Copy, Debug, PartialEq, Eq)]
pub enum DisplayAction {
    /// Set the controller up. It can fail.
    Init,
    /// Draw the logo. It can fail.
    DrawLogo(Logo),
    /// Send what was drawn to the controller. It can fail.
    Flush,
    /// Wait for so many milliseconds.
    Pause(u64),
    /// Wait until the shutdown is asked for.
    AwaitShutdown,
    /// Clear the display, draw the frame's labels and send them to the controller. There
    /// is no going on from a frame that could not be shown.
    Show(Frame),
    /// Tell the task of the power pin to cut the power.
    SignalPowerOff,
}

/// The glyph of the spinner's position.
pub open spec fn spinner_glyph(position: u32) -> &'static str {
    if position == 1 {
        "/"
    } else if position == 2 {
        "-"
    } else if position == 3 {
        "\\"
    } else {
        "|"
    }
}

/// The title that stands on every frame.
pub open spec fn title_label() -> Label {
    Label { text: "emonHP", x: 48, y: 0 }
}

/// A frame of the countdown.
pub open spec fn countdown_frame(spinner: u32) -> Frame {
    Frame {
        title: title_label(),
        message: Label { text: "Shutting down...", x: 10, y: 16 },
        spinner: Some(Label { text: spinner_glyph(spinner), x: 110, y: 16 }),
    }
}

/// The frame after the countdown.
pub open spec fn final_frame() -> Frame {
    Frame {
        title: title_label(),
        message: Label { text: "Shut down.", x: 37, y: 16 },
        spinner: None,
    }
}

impl DisplayTask {
    /// The counters are within their bounds, and the spinner turns by one position
    /// per frame.
    pub open spec fn wf(self) -> bool {
        match self {
            DisplayTask::Init { failed } => failed < LOGO_ATTEMPTS,
            DisplayTask::Logo { failed } => failed < LOGO_ATTEMPTS,
            DisplayTask::LogoFlush { failed, drawn: _ } => failed < LOGO_ATTEMPTS,
            DisplayTask::Retry { failed } => failed < LOGO_ATTEMPTS,
            DisplayTask::Countdown { shown, spinner } => shown < COUNTDOWN_FRAMES && spinner
                == shown % 4,
            DisplayTask::Tick { shown, spinner } => shown < COUNTDOWN_FRAMES && spinner == shown
                % 4,
            _ => true,
        }
    }

    /// What the stage calls for.
    pub open spec fn calls_for(self) -> DisplayAction {
        match self {
            DisplayTask::Init { .. } => DisplayAction::Init,
            DisplayTask::Logo { .. } => DisplayAction::DrawLogo(logo()),
            DisplayTask::LogoFlush { .. } => DisplayAction::Flush,
            DisplayTask::Retry { .. } => DisplayAction::Pause(LOGO_RETRY_MS),
            DisplayTask::Idle => DisplayAction::AwaitShutdown,
            DisplayTask::Countdown { spinner, .. } => DisplayAction::Show(countdown_frame(spinner)),
            DisplayTask::Tick { .. } => DisplayAction::Pause(FRAME_MS),
            DisplayTask::Final => DisplayAction::Show(final_frame()),
            DisplayTask::PowerOff => DisplayAction::SignalPowerOff,
        }
    }

    /// Whether the task can go on from a result: a frame of the shutdown has to be
    /// shown.
    pub open spec fn accepts(self, ok: bool) -> bool {
        self is Countdown || self is Final ==> ok
    }

    /// The stage that follows once the action has been done, with success or without.
    /// A frame of the shutdown that could not be shown has none: the task is stuck.
    pub open spec fn next(self, ok: bool) -> DisplayTask
        recommends
            self.accepts(ok),
    {
        match self {
            DisplayTask::Init { failed } => if ok {
                DisplayTask::Logo { failed }
            } else {
                DisplayTask::Retry { failed }
            },
            DisplayTask::Logo { failed } => DisplayTask::LogoFlush { failed, drawn: ok },
            DisplayTask::LogoFlush { failed, drawn } => if drawn && ok {
                DisplayTask::Idle
            } else {
                DisplayTask::Retry { failed }
            },
            DisplayTask::Retry { failed } => if failed + 1 < LOGO_ATTEMPTS {
                DisplayTask::Init { failed: (failed + 1) as u32 }
            } else {
                DisplayTask::Idle
            },
            DisplayTask::Idle => DisplayTask::Countdown { shown: 0, spinner: 0 },
            DisplayTask::Countdown { shown, spinner } => if ok {
                DisplayTask::Tick { shown, spinner }
            } else {
                self
            },
            DisplayTask::Tick { shown, .. } => if shown + 1 < COUNTDOWN_FRAMES {
                DisplayTask::Countdown {
                    shown: (shown + 1) as u32,
                    spinner: ((shown + 1) % 4) as u32,
                }
            } else {
                DisplayTask::Final
            },
            DisplayTask::Final => if ok {
                DisplayTask::PowerOff
            } else {
                self
            },
            DisplayTask::PowerOff => DisplayTask::Idle,
        }
    }

    /// The task after a reset.
    pub fn new() -> (task: Self)
        ensures
            task == (DisplayTask::Init { failed: 0 }),
            task.wf(),
    {
        DisplayTask::Init { failed: 0 }
    }

    /// What there is to do now.
    pub fn action(&self) -> (action: DisplayAction)
        ensures
            action == self.calls_for(),
    {
        let title = Label { text: "emonHP", x: 48, y: 0 };
        match *self {
            DisplayTask::Init { .. } => DisplayAction::Init,
            DisplayTask::Logo { .. } => DisplayAction::DrawLogo(Logo { x: 32, y: 0, width: 64 }),
            DisplayTask::LogoFlush { .. } => DisplayAction::Flush,
            DisplayTask::Retry { .. } => DisplayAction::Pause(LOGO_RETRY_MS),
            DisplayTask::Idle => DisplayAction::AwaitShutdown,
            DisplayTask::Countdown { spinner, .. } => {
                let glyph = match spinner {
                    0 => "|",
                    1 => "/",
                    2 => "-",
                    3 => "\\",
                    _ => "|",
                };
                DisplayAction::Show(
                    Frame {
                        title,
                        message: Label { text: "Shutting down...", x: 10, y: 16 },
                        spinner: Some(Label { text: glyph, x: 110, y: 16 }),
                    },
                )
            },
            DisplayTask::Tick { .. } => DisplayAction::Pause(FRAME_MS),
            DisplayTask::Final => DisplayAction::Show(
                Frame {
                    title,
                    message: Label { text: "Shut down.", x: 37, y: 16 },
                    spinner: None,
                },
            ),
            DisplayTask::PowerOff => DisplayAction::SignalPowerOff,
        }
    }

    /// Goes on to the next stage once the action has been done. `ok` says whether
    /// it succeeded.
    pub fn advance(&mut self, ok: bool)
        requires
            old(self).wf(),
            (*old(self) is Countdown || *old(self) is Final) ==> ok,
        ensures
            *final(self) == old(self).next(ok),
            final(self).wf(),
    {
        *self = match *self {
            DisplayTask::Init { failed } => if ok {
                DisplayTask::Logo { failed }
            } else {
                DisplayTask::Retry { failed }
            },
            DisplayTask::Logo { failed } => DisplayTask::LogoFlush { failed, drawn: ok },
            DisplayTask::LogoFlush { failed, drawn } => if drawn && ok {
                DisplayTask::Idle
            } else {
                DisplayTask::Retry { failed }
            },
            DisplayTask::Retry { failed } => if failed + 1 < LOGO_ATTEMPTS {
                DisplayTask::Init { failed: failed + 1 }
            } else {
                DisplayTask::Idle
            },
            DisplayTask::Idle => DisplayTask::Countdown { shown: 0, spinner: 0 },
            DisplayTask::Countdown { shown, spinner } => DisplayTask::Tick { shown, spinner },
            DisplayTask::Tick { shown, spinner } => if shown + 1 < COUNTDOWN_FRAMES {
                assert((spinner + 1) as u32 & 0x3 == ((spinner + 1) as u32) % 4) by (bit_vector);
                DisplayTask::Countdown { shown: shown + 1, spinner: (spinner + 1) & 0x3 }
            } else {
                DisplayTask::Final
            },
            DisplayTask::Final => DisplayTask::PowerOff,
            DisplayTask::PowerOff => DisplayTask::Idle,
        };
    }
}

/// The stage after as many actions as there are results in `oks`.
pub open spec fn after_all(task: DisplayTask, oks: Seq<bool>) -> DisplayTask
    decreases oks.len(),
{
    if oks.len() == 0 {
        task
    } else {
        after_all(task, oks.drop_last()).next(oks.last())
    }
}

/// Whether the task can go on through all of those results.
pub open spec fn accepts_all(task: DisplayTask, oks: Seq<bool>) -> bool
    decreases oks.len(),
{
    oks.len() == 0 || accepts_all(task, oks.drop_last()) && after_all(
        task,
        oks.drop_last(),
    ).accepts(oks.last())
}

/// How long the pauses among those actions are, in milliseconds.
pub open spec fn paused_ms(task: DisplayTask, oks: Seq<bool>) -> nat
    decreases oks.len(),
{
    if oks.len() == 0 {
        0
    } else {
        paused_ms(task, oks.drop_last()) + match after_all(task, oks.drop_last()).calls_for() {
            DisplayAction::Pause(ms) => ms as nat,
            _ => 0,
        }
    }
}

/// The actions from the request for a shutdown to the power-off.
pub open spec fn countdown_steps() -> nat {
    2 + 2 * COUNTDOWN_FRAMES as nat
}

/// How many actions have been done since the shutdown was asked for, on a stage
/// that belongs to the shutdown.
pub open spec fn steps_since_request(task: DisplayTask) -> nat {
    match task {
        DisplayTask::Countdown { shown, .. } => 1 + 2 * shown as nat,
        DisplayTask::Tick { shown, .. } => 2 + 2 * shown as nat,
        DisplayTask::Final => 1 + 2 * COUNTDOWN_FRAMES as nat,
        DisplayTask::PowerOff => countdown_steps(),
        _ => 0,
    }
}

/// A frame of the shutdown that could not be shown stops the shutdown for good: the
/// task goes on from no such result, and the power is not cut.
pub proof fn law_failed_frame_cuts_no_power(task: DisplayTask, before: Seq<bool>, after: Seq<bool>)
    requires
        after_all(task, before) is Countdown || after_all(task, before) is Final,
    ensures
        !accepts_all(task, before + seq![false] + after),
        !after_all(task, before).accepts(false),
        after_all(task, before).next(false).calls_for() != DisplayAction::SignalPowerOff,
    decreases after.len(),
{
    let oks = before + seq![false] + after;
    if after.len() == 0 {
        assert(oks.drop_last() =~= before);
    } else {
        assert(oks.drop_last() =~= before + seq![false] + after.drop_last());
        law_failed_frame_cuts_no_power(task, before, after.drop_last());
    }
}

/// Whatever the actions result in, the counters stay within their bounds.
pub proof fn law_always_well_formed(task: DisplayTask, oks: Seq<bool>)
    requires
        task.wf(),
    ensures
        after_all(task, oks).wf(),
    decreases oks.len(),
{
    if oks.len() > 0 {
        law_always_well_formed(task, oks.drop_last());
    }
}

/// Once the shutdown is asked for, the frames come one per second, and each turns
/// the spinner by one of its four positions, as long as every frame could be shown.
pub proof fn law_countdown_frames(oks: Seq<bool>, shown: u32)
    requires
        shown < COUNTDOWN_FRAMES,
        oks.len() == 1 + 2 * shown,
        accepts_all(DisplayTask::Idle, oks),
    ensures
        after_all(DisplayTask::Idle, oks) == (DisplayTask::Countdown {
            shown,
            spinner: shown % 4,
        }),
        after_all(DisplayTask::Idle, oks).calls_for() == DisplayAction::Show(
            countdown_frame(shown % 4),
        ),
        paused_ms(DisplayTask::Idle, oks) == shown * FRAME_MS,
    decreases shown,
{
    reveal_with_fuel(after_all, 3);
    reveal_with_fuel(accepts_all, 3);
    reveal_with_fuel(paused_ms, 3);
    if shown > 0 {
        law_countdown_frames(oks.drop_last().drop_last(), (shown - 1) as u32);
    }
}

/// When every frame of the shutdown could be shown, the power is cut after the whole
/// countdown, thirty seconds after the shutdown was asked for, and then the task waits for the next request.
pub proof fn law_countdown_ends_in_power_off(oks: Seq<bool>, ok: bool)
    requires
        oks.len() == countdown_steps(),
        accepts_all(DisplayTask::Idle, oks),
    ensures
        after_all(DisplayTask::Idle, oks) == DisplayTask::PowerOff,
        after_all(DisplayTask::Idle, oks).calls_for() == DisplayAction::SignalPowerOff,
        after_all(DisplayTask::Idle, oks).next(ok) == DisplayTask::Idle,
        paused_ms(DisplayTask::Idle, oks) == 30_000,
{
    reveal_with_fuel(after_all, 4);
    reveal_with_fuel(accepts_all, 4);
    reveal_with_fuel(paused_ms, 4);
    law_countdown_frames(
        oks.drop_last().drop_last().drop_last(),
        (COUNTDOWN_FRAMES - 1) as u32,
    );
}

/// The power is cut in no other way: behind every power-off there is a request for
/// a shutdown, with the whole countdown between them.
pub proof fn law_power_off_needs_countdown(oks: Seq<bool>)
    requires
        accepts_all(DisplayTask::Init { failed: 0 }, oks),
        after_all(DisplayTask::Init { failed: 0 }, oks).calls_for() == DisplayAction::SignalPowerOff,
    ensures
        oks.len() >= countdown_steps(),
        after_all(
            DisplayTask::Init { failed: 0 },
            oks.take(oks.len() - countdown_steps()),
        ).calls_for() == DisplayAction::AwaitShutdown,
{
    lemma_request_before(oks);
}

proof fn lemma_request_before(oks: Seq<bool>)
    requires
        accepts_all(DisplayTask::Init { failed: 0 }, oks),
    ensures
        ({
            let start = DisplayTask::Init { failed: 0 };
            let steps = steps_since_request(after_all(start, oks));
            steps > 0 ==> oks.len() >= steps && after_all(start, oks.take(oks.len() - steps))
                == DisplayTask::Idle
        }),
    decreases oks.len(),
{
    let start = DisplayTask::Init { failed: 0 };
    if oks.len() > 0 {
        let most = oks.drop_last();
        lemma_request_before(most);
        law_always_well_formed(start, most);
        let steps = steps_since_request(after_all(start, oks));
        if steps > 0 {
            assert(most.take(most.len() - (steps - 1)) =~= oks.take(oks.len() - steps));
            assert(most.take(most.len() as int) =~= most);
        }
    }
}

/// How many actions the logo takes from here, at most.
pub open spec fn logo_steps_left(task: DisplayTask) -> int {
    match task {
        DisplayTask::Init { failed } => 4 * (LOGO_ATTEMPTS - failed),
        DisplayTask::Logo { failed } => 4 * (LOGO_ATTEMPTS - failed) - 1,
        DisplayTask::LogoFlush { failed, drawn: _ } => 4 * (LOGO_ATTEMPTS - failed) - 2,
        DisplayTask::Retry { failed } => 4 * (LOGO_ATTEMPTS - failed) - 3,
        _ => 0,
    }
}

/// The logo is given up after the last attempt: whatever the actions result in,
/// the task comes to wait for the shutdown.
pub proof fn law_logo_comes_to_an_end(oks: Seq<bool>) -> (done: nat)
    requires
        oks.len() >= 4 * LOGO_ATTEMPTS,
    ensures
        done <= 4 * LOGO_ATTEMPTS,
        after_all(DisplayTask::Init { failed: 0 }, oks.take(done as int)) == DisplayTask::Idle,
{
    let start = DisplayTask::Init { failed: 0 };
    assert(after_all(start, oks.take(0)) == start);
    lemma_logo_from(oks, 0)
}

proof fn lemma_logo_from(oks: Seq<bool>, done: nat) -> (end: nat)
    requires
        oks.len() >= 4 * LOGO_ATTEMPTS,
        ({
            let task = after_all(DisplayTask::Init { failed: 0 }, oks.take(done as int));
            &&& task.wf()
            &&& task == DisplayTask::Idle || logo_steps_left(task) > 0
            &&& done + logo_steps_left(task) <= 4 * LOGO_ATTEMPTS
        }),
    ensures
        end <= 4 * LOGO_ATTEMPTS,
        after_all(DisplayTask::Init { failed: 0 }, oks.take(end as int)) == DisplayTask::Idle,
    decreases 4 * LOGO_ATTEMPTS - done,
{
    let start = DisplayTask::Init { failed: 0 };
    if after_all(start, oks.take(done as int)) == DisplayTask::Idle {
        done
    } else {
        let more = oks.take(done as int + 1);
        assert(more.drop_last() =~= oks.take(done as int));
        lemma_logo_from(oks, done + 1)
    }
}

/// Every attempt at the logo does the same, however many have failed before: it sets the
/// controller up, draws the logo 64 pixels wide at (32, 0), and sends it to the
/// controller, even when it could not be drawn.
pub proof fn law_attempts_are_alike(failed: u32, draw: bool)
    ensures
        ({
            let init = DisplayTask::Init { failed };
            &&& init.calls_for() == DisplayAction::Init
            &&& init.next(true).calls_for() == DisplayAction::DrawLogo(
                Logo { x: 32, y: 0, width: 64 },
            )
            &&& init.next(true).next(draw).calls_for() == DisplayAction::Flush
        }),
{
}

/// On any stage of the logo the action is that of the stage, and the number of attempts
/// that have failed changes by nothing but a pause.
pub proof fn law_logo_stages(failed: u32, drawn: bool, ok: bool)
    ensures
        (DisplayTask::Logo { failed }).calls_for() == DisplayAction::DrawLogo(
            Logo { x: 32, y: 0, width: 64 },
        ),
        (DisplayTask::Logo { failed }).next(ok) == (DisplayTask::LogoFlush { failed, drawn: ok }),
        (DisplayTask::LogoFlush { failed, drawn }).calls_for() == DisplayAction::Flush,
        (DisplayTask::LogoFlush { failed, drawn }).next(ok) == DisplayTask::Idle <==> drawn && ok,
        (DisplayTask::LogoFlush { failed, drawn }).next(ok) != DisplayTask::Idle ==> (
        DisplayTask::LogoFlush { failed, drawn }).next(ok) == (DisplayTask::Retry { failed }),
{
}

/// A failed attempt is followed by a pause of a tenth of a second, and the pause by the
/// next attempt, until four have failed.
pub proof fn law_failed_attempt_is_repeated(failed: u32, ok: bool)
    requires
        failed < 4,
    ensures
        ({
            let retry = (DisplayTask::Init { failed }).next(false);
            &&& retry.calls_for() == DisplayAction::Pause(100)
            &&& failed < 3 ==> retry.next(ok) == (DisplayTask::Init { failed: (failed + 1) as u32 })
            &&& failed == 3 ==> retry.next(ok) == DisplayTask::Idle
        }),
{
}

/// The task comes to wait for the shutdown in three ways only: the logo was drawn and
/// sent, the fourth attempt has failed, or the power was signalled to be cut.
pub proof fn law_ways_to_idle(task: DisplayTask, ok: bool)
    requires
        task.wf(),
        task.next(ok) == DisplayTask::Idle,
    ensures
        task.calls_for() == DisplayAction::Flush && ok && task->drawn || task
            == (DisplayTask::Retry { failed: 3 }) || task.calls_for()
            == DisplayAction::SignalPowerOff,
{
}

/// Waiting, and telling the power pin's task, cannot fail: on a stage that calls for
/// either, the next stage is the same whatever the result.
pub proof fn law_waits_cannot_fail(task: DisplayTask)
    requires
        task.wf(),
        task.calls_for() is Pause || task.calls_for() is AwaitShutdown || task.calls_for()
            is SignalPowerOff,
    ensures
        task.next(true) == task.next(false),
{
}

/// From the request for a shutdown each stage leads to one other: a frame to its second
/// on the display, that to the next frame or, after the thirtieth, to the last frame,
/// and that to the power-off.
pub proof fn law_shutdown_goes_one_way(shown: u32, ok: bool)
    requires
        shown < 30,
    ensures
        DisplayTask::Idle.next(ok) == (DisplayTask::Countdown { shown: 0, spinner: 0 }),
        ({
            let frame = DisplayTask::Countdown { shown, spinner: shown % 4 };
            let tick = frame.next(true);
            &&& tick.calls_for() == DisplayAction::Pause(1000)
            &&& shown < 29 ==> tick.next(ok) == (DisplayTask::Countdown {
                shown: (shown + 1) as u32,
                spinner: ((shown + 1) % 4) as u32,
            })
            &&& shown == 29 ==> tick.next(ok) == DisplayTask::Final
        }),
        DisplayTask::Final.next(true).calls_for() == DisplayAction::SignalPowerOff,
        DisplayTask::Final.next(true).next(ok) == DisplayTask::Idle,
{
}

/// Every frame has the title on it. A frame of the countdown says that the system is
/// shutting down, with the spinner beside it; the last one says that it has shut down.
pub proof fn law_frames_say_what_happens(shown: u32, spinner: u32)
    ensures
        (DisplayTask::Countdown { shown, spinner }).calls_for() matches DisplayAction::Show(frame)
            && frame.title == (Label { text: "emonHP", x: 48, y: 0 }) && frame.message == (Label {
            text: "Shutting down...",
            x: 10,
            y: 16,
        }) && (frame.spinner matches Some(label) && label.x == 110 && label.y == 16 && label.text
            == (if spinner == 1 {
            "/"
        } else if spinner == 2 {
            "-"
        } else if spinner == 3 {
            "\\"
        } else {
            "|"
        })),
        DisplayTask::Final.calls_for() matches DisplayAction::Show(frame) && frame.title == (Label {
            text: "emonHP",
            x: 48,
            y: 0,
        }) && frame.message == (Label { text: "Shut down.", x: 37, y: 16 }) && frame.spinner
            is None,
        (DisplayTask::Tick { shown, spinner }).calls_for() == DisplayAction::Pause(1000),
{
}

/// An attempt at the logo succeeds exactly when all of its actions do, and then
/// there is no other.
pub proof fn law_logo_needs_every_action(failed: u32, init: bool, draw: bool, flush: bool)
    ensures
        ({
            let drawn = (DisplayTask::Init { failed }).next(init);
            &&& !init ==> drawn == (DisplayTask::Retry { failed })
            &&& init ==> drawn.next(draw).next(flush) == if draw && flush {
                DisplayTask::Idle
            } else {
                DisplayTask::Retry { failed }
            }
        }),
{
}

} // verus!
