//! The application state and the event loop's decisions.

use vstd::prelude::*;
use crate::event::{Event, KeyEvent};
use crate::progress::{clamp_progress, clamped, FULL};

verus! {

/// The key that ends the event loop.
pub const QUIT_KEY: char = 'q';

/// The key that changes the gauge's colour.
pub const COLOR_KEY: char = 'c';

/// The two colours of the gauge. `Green` is the one it starts with.
#[derive(Clone, Copy, Debug, PartialEq, Eq, Structural)]
pub enum Color {
    Green,
    LightYellow,
}

impl Color {
    /// The other colour.
    pub open spec fn toggled(self) -> Color {
        match self {
            Color::Green => Color::LightYellow,
            Color::LightYellow => Color::Green,
        }
    }

    /// The other colour.
    pub fn toggle(self) -> (other: Color)
        ensures
            other == self.toggled(),
    {
        match self {
            Color::Green => Color::LightYellow,
            Color::LightYellow => Color::Green,
        }
    }
}

/// What the application knows, as a mathematical value: whether the event
/// loop is still running, the gauge's colour, and the progress shown, in
/// hundredths of a percent.
pub struct AppState {
    pub running: bool,
    pub color: Color,
    pub progress: nat,
}

impl AppState {
    /// The state at startup: running, green, no progress.
    pub open spec fn initial() -> AppState {
        AppState { running: true, color: Color::Green, progress: 0 }
    }

    /// Whether the progress lies between nothing and `FULL`.
    pub open spec fn in_range(self) -> bool {
        self.progress <= FULL
    }

    /// The state after one key event. A press of the quit key stops the loop,
    /// a press of the colour key changes the colour, and every other key event
    /// changes nothing.
    pub open spec fn after_key(self, key_event: KeyEvent) -> AppState {
        if key_event.is_press_of(QUIT_KEY) {
            AppState { running: false, ..self }
        } else if key_event.is_press_of(COLOR_KEY) {
            AppState { color: self.color.toggled(), ..self }
        } else {
            self
        }
    }

    /// The state after one event. A progress report replaces the progress
    /// with the reported value, brought into range.
    pub open spec fn after(self, event: Event) -> AppState {
        match event {
            Event::Input(key_event) => self.after_key(key_event),
            Event::Progress(value) => AppState { progress: clamped(value as int), ..self },
        }
    }

    /// The state in which the event loop leaves off when it is fed `events`:
    /// it handles them in order while it is running, and none after it has
    /// stopped.
    pub open spec fn replay(self, events: Seq<Event>) -> AppState
        decreases events.len(),
    {
        if !self.running || events.len() == 0 {
            self
        } else {
            self.after(events[0]).replay(events.drop_first())
        }
    }

    /// How many of `events` the event loop handles, which is how often it
    /// asks for the screen to be drawn: once after each event it handles.
    pub open spec fn redraws(self, events: Seq<Event>) -> nat
        decreases events.len(),
    {
        if !self.running || events.len() == 0 {
            0
        } else {
            1 + self.after(events[0]).redraws(events.drop_first())
        }
    }
}

/// The application state. Only the event loop changes it, through
/// `handle_event`; drawing reads it.
pub struct App {
    exit: bool,
    progress_bar_color: Color,
    background_progress: u16,
}

impl View for App {
    type V = AppState;

    closed spec fn view(&self) -> AppState {
        AppState {
            running: !self.exit,
            color: self.progress_bar_color,
            progress: self.background_progress as nat,
        }
    }
}

impl App {
    #[verifier::type_invariant]
    spec fn progress_in_range(self) -> bool {
        self.background_progress <= FULL
    }

    /// The application at startup.
    pub fn new() -> (app: App)
        ensures
            app@ == AppState::initial(),
    {
        App { exit: false, progress_bar_color: Color::Green, background_progress: 0 }
    }

    /// Whether the event loop goes on.
    pub fn is_running(&self) -> (running: bool)
        ensures
            running == self@.running,
    {
        !self.exit
    }

    /// The gauge's colour.
    pub fn color(&self) -> (color: Color)
        ensures
            color == self@.color,
    {
        self.progress_bar_color
    }

    /// The progress shown, in hundredths of a percent: at most `FULL`.
    pub fn progress(&self) -> (progress: u16)
        ensures
            progress == self@.progress,
            progress <= FULL,
            self@.in_range(),
    {
        proof {
            use_type_invariant(self);
        }
        self.background_progress
    }

    /// Handles one key event.
    pub fn handle_key_event(&mut self, key_event: KeyEvent)
        ensures
            final(self)@ == old(self)@.after_key(key_event),
    {
        proof {
            use_type_invariant(&*self);
        }
        if key_event.pressed(QUIT_KEY) {
            self.exit = true;
        } else if key_event.pressed(COLOR_KEY) {
            self.progress_bar_color = self.progress_bar_color.toggle();
        }
    }

    /// Handles one event. The caller draws the screen once after each call.
    pub fn handle_event(&mut self, event: Event)
        ensures
            final(self)@ == old(self)@.after(event),
    {
        match event {
            Event::Input(key_event) => self.handle_key_event(key_event),
            Event::Progress(value) => {
                self.background_progress = clamp_progress(value);
            },
        }
    }

    /// Runs the event loop over recorded events: handles them in order until
    /// the loop stops or the events run out, and returns how often the screen
    /// was to be drawn.
    pub fn run(&mut self, events: &Vec<Event>) -> (redraws: usize)
        ensures
            final(self)@ == old(self)@.replay(events@),
            redraws == old(self)@.redraws(events@),
    {
        let mut handled: usize = 0;
        assert(events@.skip(0) == events@);
        while !self.exit && handled < events.len()
            invariant
                handled <= events.len(),
                self@.replay(events@.skip(handled as int)) == old(self)@.replay(events@),
                handled + self@.redraws(events@.skip(handled as int)) == old(self)@.redraws(events@),
            decreases events.len() - handled,
        {
            assert(events@.skip(handled as int).drop_first() == events@.skip(handled + 1));
            self.handle_event(events[handled]);
            handled = handled + 1;
        }
        handled
    }
}

/// A progress report overwrites: whatever the progress was, afterwards it is
/// the reported value, brought into range, and nothing else has changed.
pub proof fn lemma_report_overwrites(state: AppState, value: i32)
    ensures
        state.after(Event::Progress(value)) == (AppState {
            progress: clamped(value as int),
            ..state
        }),
        state.after(Event::Progress(value)).in_range(),
{
}

/// A run of progress reports, with no key in between, leaves a running loop
/// with the last reported value, brought into range. Earlier reports leave no
/// trace, nothing else changes, and the screen is drawn once for each report.
pub proof fn lemma_last_report_wins(state: AppState, events: Seq<Event>)
    requires
        state.running,
        events.len() > 0,
        forall|i: int| 0 <= i < events.len() ==> events[i] is Progress,
    ensures
        state.replay(events) == (AppState {
            progress: clamped(events.last()->Progress_0 as int),
            ..state
        }),
        state.redraws(events) == events.len(),
    decreases events.len(),
{
    let rest = events.drop_first();
    if rest.len() > 0 {
        assert(rest.last() == events.last());
        lemma_last_report_wins(state.after(events[0]), rest);
    } else {
        assert(state.after(events[0]).replay(rest) == state.after(events[0]));
        assert(state.after(events[0]).redraws(rest) == 0);
    }
}

/// The progress stays in range: under every single event, and from the start
/// to the end of every run of the event loop.
pub proof fn lemma_progress_stays_in_range(state: AppState, events: Seq<Event>)
    requires
        state.in_range(),
    ensures
        forall|event: Event| #[trigger] state.after(event).in_range(),
        state.replay(events).in_range(),
    decreases events.len(),
{
    if state.running && events.len() > 0 {
        lemma_progress_stays_in_range(state.after(events[0]), events.drop_first());
    }
}

/// The event loop draws the screen once for each event it handles, so never
/// more often than there are events.
pub proof fn lemma_redraws_at_most_events(state: AppState, events: Seq<Event>)
    ensures
        state.redraws(events) <= events.len(),
    decreases events.len(),
{
    if state.running && events.len() > 0 {
        lemma_redraws_at_most_events(state.after(events[0]), events.drop_first());
    }
}

/// A press of the colour key moves the gauge to the other of its two colours
/// and touches nothing else; a second press brings the first colour back.
pub proof fn lemma_color_key_toggles(state: AppState, key_event: KeyEvent)
    requires
        key_event.is_press_of(COLOR_KEY),
    ensures
        state.after_key(key_event) == (AppState { color: state.color.toggled(), ..state }),
        state.after_key(key_event).color != state.color,
        state.after_key(key_event).after_key(key_event) == state,
{
}

/// A press of the quit key stops the loop and touches nothing else. Pressed
/// again it changes nothing, and a stopped loop handles no further events.
pub proof fn lemma_quit_is_final(state: AppState, key_event: KeyEvent, events: Seq<Event>)
    requires
        key_event.is_press_of(QUIT_KEY),
    ensures
        state.after_key(key_event) == (AppState { running: false, ..state }),
        state.after_key(key_event).after_key(key_event) == state.after_key(key_event),
        state.after_key(key_event).replay(events) == state.after_key(key_event),
        state.after_key(key_event).redraws(events) == 0,
{
}

/// A key event that is not a press of the quit key or of the colour key
/// leaves the state as it was.
pub proof fn lemma_other_keys_change_nothing(state: AppState, key_event: KeyEvent)
    requires
        !key_event.is_press_of(QUIT_KEY),
        !key_event.is_press_of(COLOR_KEY),
    ensures
        state.after_key(key_event) == state,
        state.after(Event::Input(key_event)) == state,
{
}

} // verus!
