//! The clicker's shared state, the start and stop commands that change it,
//! and the loop that turns key events into clicks and pauses.

use vstd::prelude::*;
use vstd::string::StringExecFns;
use crate::keys::{KeyEvent, Key, spec_next_held, spec_held_after, spec_trigger_target, next_held, trigger_target, spec_pressed_last_at, lemma_held_iff_last_trigger_event_is_press};

verus! {

/// How long the loop pauses, in milliseconds, while the trigger is not held.
pub const IDLE_POLL_MS: u64 = 10;

/// The settings the clicker runs with: the window it targets, the clicks per
/// second, and the name of the trigger key.
pub struct AutoClickerState {
    pub window_title: String,
    pub cps: u32,
    pub trigger_key: String,
}

/// The settings as plain values.
pub struct ClickerSettings {
    pub window_title: Seq<char>,
    pub cps: u32,
    pub trigger_key: Seq<char>,
}

impl View for AutoClickerState {
    type V = ClickerSettings;

    open spec fn view(&self) -> ClickerSettings {
        ClickerSettings {
            window_title: self.window_title@,
            cps: self.cps,
            trigger_key: self.trigger_key@,
        }
    }
}

/// The settings that an optional borrowed configuration holds.
pub open spec fn settings_of(c: Option<&AutoClickerState>) -> Option<ClickerSettings> {
    match c {
        Some(c) => Some(c@),
        None => None,
    }
}

/// The shared state of the application as plain values.
pub struct AppStateView {
    pub running: bool,
    pub settings: Option<ClickerSettings>,
}

/// Whether the clicker runs, and with which settings.
pub struct AppState {
    running: bool,
    state: Option<AutoClickerState>,
}

impl View for AppState {
    type V = AppStateView;

    closed spec fn view(&self) -> AppStateView {
        AppStateView {
            running: self.running,
            settings: match self.state {
                Some(c) => Some(c@),
                None => None,
            },
        }
    }
}

/// The state before anything was started.
pub open spec fn spec_idle() -> AppStateView {
    AppStateView { running: false, settings: None }
}

/// A state that the commands can reach: the clicker runs exactly when it
/// has settings.
pub open spec fn spec_consistent(s: AppStateView) -> bool {
    s.running <==> s.settings is Some
}

/// The error text of a refused start.
pub open spec fn spec_already_running() -> Seq<char> {
    "AutoClicker is already running"@
}

/// Starting: refused, with nothing changed, while the clicker runs;
/// otherwise the settings are stored and the clicker runs.
pub open spec fn spec_start(s: AppStateView, settings: ClickerSettings) -> (
    AppStateView,
    Result<(), Seq<char>>,
) {
    if s.running {
        (s, Err(spec_already_running()))
    } else {
        (AppStateView { running: true, settings: Some(settings) }, Ok(()))
    }
}

/// Stopping: always succeeds and leaves the clicker idle without settings.
pub open spec fn spec_stop(s: AppStateView) -> (AppStateView, Result<(), Seq<char>>) {
    (spec_idle(), Ok(()))
}

/// A command's result with its error text as characters.
pub open spec fn result_view(r: Result<(), String>) -> Result<(), Seq<char>> {
    match r {
        Ok(()) => Ok(()),
        Err(e) => Err(e@),
    }
}

impl AppState {
    /// The state before anything was started.
    pub fn new() -> (s: AppState)
        ensures
            s@ == spec_idle(),
    {
        AppState { running: false, state: None }
    }

    /// Whether the clicker runs.
    pub fn is_running(&self) -> (r: bool)
        ensures
            r == self@.running,
    {
        self.running
    }

    /// The settings the clicker runs with, if any.
    pub fn config(&self) -> (c: Option<&AutoClickerState>)
        ensures
            settings_of(c) == self@.settings,
    {
        match &self.state {
            Some(c) => Some(c),
            None => None,
        }
    }

    /// Starts the clicker with the given target window, clicks per second
    /// and trigger key name.
    pub fn start(&mut self, window_title: String, cps: u32, trigger_key: String) -> (r: Result<
        (),
        String,
    >)
        ensures
            (final(self)@, result_view(r)) == spec_start(
                old(self)@,
                ClickerSettings { window_title: window_title@, cps, trigger_key: trigger_key@ },
            ),
    {
        if self.running {
            return Err(String::from_str("AutoClicker is already running"));
        }
        self.state = Some(AutoClickerState { window_title, cps, trigger_key });
        self.running = true;
        Ok(())
    }

    /// Stops the clicker and drops its settings.
    pub fn stop(&mut self) -> (r: Result<(), String>)
        ensures
            (final(self)@, result_view(r)) == spec_stop(old(self)@),
    {
        self.running = false;
        self.state = None;
        Ok(())
    }
}

/// What the window system reported about the target window before a click,
/// where the platform checks it at all.
#[derive(Clone, Copy, PartialEq, Eq, Structural, Debug)]
pub enum WindowCheck {
    /// The platform does not check the window: clicks go ahead.
    Unchecked,
    /// The target window's focus and whether the cursor is inside it.
    Observed { focused: bool, cursor_inside: bool },
}

/// What the loop does in one round after taking the pending key events.
#[derive(Clone, Copy, PartialEq, Eq, Structural, Debug)]
#[allow(inconsistent_fields)]
pub enum Tick {
    /// The trigger is not held: pause for `delay_ms`.
    Wait { delay_ms: u64 },
    /// The trigger is held: click if `click`, then pause for `delay_ms`;
    /// with no pause (at zero clicks per second) the pace divides by zero,
    /// which stops the loop after the click.
    Pace { click: bool, delay_ms: Option<u64> },
    /// The trigger is held but the clicker has no settings: go round again
    /// at once.
    Again,
}

/// The key that the settings name as trigger, if any.
pub open spec fn target_of(settings: Option<ClickerSettings>) -> Option<Key> {
    match settings {
        Some(s) => spec_trigger_target(s.trigger_key),
        None => None,
    }
}

/// The pause between two clicks at `cps` clicks per second, in whole
/// milliseconds.
pub open spec fn spec_click_delay_ms(cps: u32) -> u64
    recommends
        cps > 0,
{
    (1000nat / (cps as nat)) as u64
}

/// The pause of a clicking round: 1000 / cps milliseconds, and none at
/// zero clicks per second, where that division has no result.
pub open spec fn spec_pace_delay(cps: u32) -> Option<u64> {
    if cps > 0 {
        Some(spec_click_delay_ms(cps))
    } else {
        None
    }
}

/// The window check lets a click through.
pub open spec fn spec_window_allows_click(check: WindowCheck) -> bool {
    match check {
        WindowCheck::Unchecked => true,
        WindowCheck::Observed { focused, cursor_inside } => focused && cursor_inside,
    }
}

/// One round of the loop, given whether the trigger is held, the settings
/// and the window report.
pub open spec fn spec_tick(held: bool, settings: Option<ClickerSettings>, check: WindowCheck) -> Tick {
    if held {
        match settings {
            Some(s) => Tick::Pace {
                click: spec_window_allows_click(check),
                delay_ms: spec_pace_delay(s.cps),
            },
            None => Tick::Again,
        }
    } else {
        Tick::Wait { delay_ms: IDLE_POLL_MS }
    }
}

/// The pause between two clicks at `cps` clicks per second, in whole
/// milliseconds.
pub fn click_delay_ms(cps: u32) -> (d: u64)
    requires
        cps > 0,
    ensures
        d == spec_click_delay_ms(cps),
{
    1000u64 / (cps as u64)
}

/// The state the clicking loop keeps between rounds: whether the trigger key
/// is held.
pub struct ClickerLoop {
    key_held: bool,
}

impl ClickerLoop {
    /// Whether the trigger key is held.
    pub closed spec fn held(&self) -> bool {
        self.key_held
    }

    /// A loop that has seen no key event: the trigger is not held.
    pub fn new() -> (l: ClickerLoop)
        ensures
            !l.held(),
    {
        ClickerLoop { key_held: false }
    }

    /// Whether the trigger key is held.
    pub fn key_held(&self) -> (r: bool)
        ensures
            r == self.held(),
    {
        self.key_held
    }

    /// Takes one key event under the current settings.
    pub fn on_event(&mut self, config: Option<&AutoClickerState>, event: KeyEvent)
        ensures
            final(self).held() == spec_next_held(old(self).held(), target_of(settings_of(config)), event),
    {
        let target = match config {
            Some(c) => trigger_target(c.trigger_key.as_str()),
            None => None,
        };
        self.key_held = next_held(self.key_held, target, event);
    }

    /// Takes the pending key events, oldest first, under the current
    /// settings.
    pub fn on_events(&mut self, config: Option<&AutoClickerState>, events: &Vec<KeyEvent>)
        ensures
            final(self).held() == spec_held_after(
                old(self).held(),
                target_of(settings_of(config)),
                events@,
            ),
    {
        let ghost target = target_of(settings_of(config));
        let ghost start = self.key_held;
        let mut i: usize = 0;
        while i < events.len()
            invariant
                i <= events@.len(),
                target == target_of(settings_of(config)),
                self.key_held == spec_held_after(start, target, events@.take(i as int)),
            decreases events@.len() - i,
        {
            self.on_event(config, events[i]);
            assert(events@.take(i + 1).drop_last() =~= events@.take(i as int));
            i = i + 1;
        }
        assert(events@.take(i as int) =~= events@);
    }

    /// Whether this round would click, so that the window is worth asking
    /// about: the trigger is held and the clicker has settings.
    pub fn wants_click(&self, config: Option<&AutoClickerState>) -> (r: bool)
        ensures
            r == (self.held() && config is Some),
    {
        self.key_held && config.is_some()
    }

    /// One round of the loop under the current settings and window report.
    pub fn tick(&self, config: Option<&AutoClickerState>, check: WindowCheck) -> (t: Tick)
        ensures
            t == spec_tick(self.held(), settings_of(config), check),
    {
        if self.key_held {
            match config {
                Some(c) => {
                    let click = match check {
                        WindowCheck::Unchecked => true,
                        WindowCheck::Observed { focused, cursor_inside } => focused && cursor_inside,
                    };
                    let delay_ms = if c.cps > 0 {
                        Some(click_delay_ms(c.cps))
                    } else {
                        None
                    };
                    Tick::Pace { click, delay_ms }
                },
                None => Tick::Again,
            }
        } else {
            Tick::Wait { delay_ms: IDLE_POLL_MS }
        }
    }
}

/// A start from the idle state always succeeds and runs the clicker with
/// exactly the given settings.
pub proof fn lemma_start_from_idle_runs(settings: ClickerSettings)
    ensures
        spec_start(spec_idle(), settings) == (
            AppStateView { running: true, settings: Some(settings) },
            Ok::<(), Seq<char>>(()),
        ),
{
}

/// While the clicker runs, a start is refused with the "already running"
/// error and changes nothing.
pub proof fn lemma_start_refused_while_running(s: AppStateView, settings: ClickerSettings)
    requires
        s.running,
    ensures
        spec_start(s, settings) == (s, Err::<(), Seq<char>>(spec_already_running())),
{
}

/// A stop undoes a start: starting from the idle state and then stopping
/// gives the idle state back, and both commands succeed.
pub proof fn lemma_stop_undoes_start(settings: ClickerSettings)
    ensures
        spec_start(spec_idle(), settings).1 is Ok,
        spec_stop(spec_start(spec_idle(), settings).0) == (spec_idle(), Ok::<(), Seq<char>>(())),
{
}

/// Stopping twice is stopping once.
pub proof fn lemma_stop_idempotent(s: AppStateView)
    ensures
        spec_stop(spec_stop(s).0) == spec_stop(s),
{
}

/// Every state the commands reach from the idle state is consistent: the
/// clicker runs exactly when it has settings.
pub proof fn lemma_commands_keep_consistency(s: AppStateView, settings: ClickerSettings)
    requires
        spec_consistent(s),
    ensures
        spec_consistent(spec_idle()),
        spec_consistent(spec_start(s, settings).0),
        spec_consistent(spec_stop(s).0),
{
}

/// The loop clicks only while the trigger is held, the clicker has
/// settings and the window report (where there is one) says the target
/// window is focused with the cursor inside; it then waits 1000 / cps
/// milliseconds.
pub proof fn lemma_click_needs_trigger_and_window(
    held: bool,
    settings: Option<ClickerSettings>,
    check: WindowCheck,
)
    ensures
        (spec_tick(held, settings, check) matches Tick::Pace { click, .. } && click) ==> held
            && settings is Some && spec_window_allows_click(check),
        spec_tick(held, settings, check) matches Tick::Pace { delay_ms, .. } ==> settings is Some
            && delay_ms == spec_pace_delay(settings->0.cps),
        !held ==> spec_tick(held, settings, check) == (Tick::Wait { delay_ms: IDLE_POLL_MS }),
{
}

/// On a fresh loop under fixed settings, a round after some key events
/// paces (clicking as the window check allows, then pausing 1000 / cps
/// milliseconds) exactly when the last event that concerns the trigger
/// is a press, and otherwise waits the idle pause.
pub proof fn lemma_round_follows_last_trigger_event(
    settings: ClickerSettings,
    events: Seq<KeyEvent>,
    check: WindowCheck,
)
    ensures
        ({
            let target = target_of(Some(settings));
            let tick = spec_tick(spec_held_after(false, target, events), Some(settings), check);
            &&& (exists|i: int| spec_pressed_last_at(target, events, i)) ==> tick == (Tick::Pace {
                click: spec_window_allows_click(check),
                delay_ms: spec_pace_delay(settings.cps),
            })
            &&& !(exists|i: int| spec_pressed_last_at(target, events, i)) ==> tick == (Tick::Wait {
                delay_ms: IDLE_POLL_MS,
            })
        }),
{
    lemma_held_iff_last_trigger_event_is_press(target_of(Some(settings)), events);
}

/// The pause of a clicking round: at any positive number of clicks per
/// second it is the whole milliseconds of 1000 / cps, so `cps` pauses fit
/// in one second and one more would not; only at zero clicks per second is
/// there no pause.
pub proof fn lemma_pace_delay_exactly(cps: u32)
    ensures
        cps > 0 ==> (spec_pace_delay(cps) matches Some(d) && d as int == 1000int / (cps as int)
            && d * cps <= 1000 && 1000 < (d + 1) * cps),
        cps == 0 ==> spec_pace_delay(cps) is None,
        spec_click_delay_ms(1) == 1000,
{
    if cps > 0 {
        let d = 1000int / (cps as int);
        assert(d * cps <= 1000 && 1000 < (d + 1) * cps) by (nonlinear_arith)
            requires
                cps > 0,
                d == 1000int / (cps as int),
        ;
    }
}

/// One round of the loop, case by case: with the trigger released it waits
/// ten milliseconds; held with settings it clicks when the window check is
/// absent or finds the target focused with the cursor inside, and pauses
/// 1000 / cps milliseconds (none at zero cps); held without settings it
/// goes round again at once.
pub proof fn lemma_tick_exactly(held: bool, settings: Option<ClickerSettings>, check: WindowCheck)
    ensures
        !held ==> spec_tick(held, settings, check) == (Tick::Wait { delay_ms: 10 }),
        held && settings is None ==> spec_tick(held, settings, check) == Tick::Again,
        held && settings is Some ==> spec_tick(held, settings, check) == (Tick::Pace {
            click: match check {
                WindowCheck::Unchecked => true,
                WindowCheck::Observed { focused, cursor_inside } => focused && cursor_inside,
            },
            delay_ms: if settings->0.cps > 0 {
                Some((1000int / (settings->0.cps as int)) as u64)
            } else {
                None
            },
        }),
{
}

} // verus!
