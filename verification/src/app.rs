//! The dashboard's main loop, as a function from an event to what to do next.

use vstd::prelude::*;
use crate::bank::{acknowledged, with_changed_blocked, Line, LineBank};
use crate::input::{command_for, dispatch, Command, Key};
use crate::terminal::{key_pressed, pressed_key};
use crate::viewport::{scrolled_down, scrolled_up, ViewportState};

verus! {

/// What the main loop waits for.
#[derive(Clone, Copy, Debug, PartialEq, Eq, Structural)]
pub enum LoopEvent {
    /// The frame timer fired.
    Tick,
    /// A key was pressed.
    Key(Key),
}

/// What the main loop has to do after an event.
#[derive(Clone, Copy, Debug, PartialEq, Eq, Structural)]
pub enum Action {
    /// Draw a frame from a snapshot of the bank.
    Draw,
    /// Lower every change flag of the bank.
    AcknowledgeAll,
    /// Block every changed line of the bank.
    BlockChanged,
    /// Leave the loop.
    Quit,
    /// Nothing.
    Nothing,
}

/// What the main loop keeps between events, as the contracts see it.
pub struct AppView {
    /// Whether the operator has asked to quit.
    pub quit: bool,
    /// The selected row.
    pub position: nat,
    /// The number of rows of the grid.
    pub rows: nat,
}

/// The action that an event asks for.
pub open spec fn action_for(event: LoopEvent) -> Action {
    match event {
        LoopEvent::Tick => Action::Draw,
        LoopEvent::Key(key) => match command_for(key) {
            Command::Quit => Action::Quit,
            Command::AcknowledgeAll => Action::AcknowledgeAll,
            Command::BlockChanged => Action::BlockChanged,
            Command::ScrollDown => Action::Nothing,
            Command::ScrollUp => Action::Nothing,
            Command::Ignore => Action::Nothing,
        },
    }
}

/// The state after an event: the quit keys ask to quit and nothing takes that
/// back, the scroll keys move the selected row, and nothing else changes.
pub open spec fn after_event(state: AppView, event: LoopEvent) -> AppView {
    match event {
        LoopEvent::Tick => state,
        LoopEvent::Key(key) => match command_for(key) {
            Command::Quit => AppView { quit: true, position: state.position, rows: state.rows },
            Command::ScrollDown => AppView {
                quit: state.quit,
                position: scrolled_down(state.position, state.rows),
                rows: state.rows,
            },
            Command::ScrollUp => AppView {
                quit: state.quit,
                position: scrolled_up(state.position),
                rows: state.rows,
            },
            _ => state,
        },
    }
}

/// The state after a run of events, the first of `events` first.
pub open spec fn after_events(state: AppView, events: Seq<LoopEvent>) -> AppView
    decreases events.len(),
{
    if events.len() == 0 {
        state
    } else {
        after_event(after_events(state, events.drop_last()), events.last())
    }
}

/// The action that a terminal event asks for, given the key press that it
/// came to: no key press asks for nothing.
pub open spec fn action_for_input(input: Option<Key>) -> Action {
    match input {
        Some(key) => action_for(LoopEvent::Key(key)),
        None => Action::Nothing,
    }
}

/// The state after a terminal event, given the key press that it came to: no
/// key press changes nothing.
pub open spec fn after_input(state: AppView, input: Option<Key>) -> AppView {
    match input {
        Some(key) => after_event(state, LoopEvent::Key(key)),
        None => state,
    }
}

/// The lines of the bank after the main loop performed an action on it.
pub open spec fn lines_after(lines: Seq<Line>, action: Action) -> Seq<Line> {
    match action {
        Action::AcknowledgeAll => acknowledged(lines),
        Action::BlockChanged => with_changed_blocked(lines),
        _ => lines,
    }
}

/// Whatever the events, the selected row stays on the grid, the grid keeps its
/// rows, and a request to quit stands.
pub proof fn lemma_events_keep_state_valid(state: AppView, events: Seq<LoopEvent>)
    requires
        state.position < state.rows,
    ensures
        after_events(state, events).position < state.rows,
        after_events(state, events).rows == state.rows,
        state.quit ==> after_events(state, events).quit,
    decreases events.len(),
{
    if events.len() > 0 {
        lemma_events_keep_state_valid(state, events.drop_last());
    }
}

/// What the main loop keeps between events.
#[derive(Clone, Copy, Debug)]
pub struct App {
    should_quit: bool,
    viewport: ViewportState,
}

impl View for App {
    type V = AppView;

    closed spec fn view(&self) -> AppView {
        AppView {
            quit: self.should_quit,
            position: self.viewport.position(),
            rows: self.viewport.rows(),
        }
    }
}

impl App {
    /// The selected row is on the grid.
    pub open spec fn wf(&self) -> bool {
        self@.position < self@.rows
    }

    /// The state at startup, for a grid of `rows` rows; `None` if there is no
    /// row.
    pub fn new(rows: usize) -> (app: Option<App>)
        ensures
            app.is_some() <==> rows > 0,
            app matches Some(a) ==> a@ == (AppView { quit: false, position: 0, rows: rows as nat }),
    {
        match ViewportState::new(rows) {
            Some(viewport) => Some(App { should_quit: false, viewport }),
            None => None,
        }
    }

    /// Whether the operator has asked to quit.
    pub fn should_quit(&self) -> (quit: bool)
        ensures
            quit == self@.quit,
    {
        self.should_quit
    }

    /// The scroll position.
    pub fn viewport(&self) -> (viewport: ViewportState)
        ensures
            viewport.position() == self@.position,
            viewport.rows() == self@.rows,
    {
        self.viewport
    }

    /// Takes one key press: quitting and scrolling change the state, and what
    /// concerns the bank is handed back as the action to perform on it.
    pub fn handle_key(&mut self, key: Key) -> (action: Action)
        requires
            old(self).wf(),
        ensures
            final(self).wf(),
            final(self)@ == after_event(old(self)@, LoopEvent::Key(key)),
            action == action_for(LoopEvent::Key(key)),
    {
        match dispatch(key) {
            Command::Quit => {
                self.should_quit = true;
                Action::Quit
            },
            Command::ScrollDown => {
                self.viewport.scroll_down();
                Action::Nothing
            },
            Command::ScrollUp => {
                self.viewport.scroll_up();
                Action::Nothing
            },
            Command::AcknowledgeAll => Action::AcknowledgeAll,
            Command::BlockChanged => Action::BlockChanged,
            Command::Ignore => Action::Nothing,
        }
    }

    /// Takes one event of the main loop and says what to do next: a tick of
    /// the frame timer asks for a frame, a key press is handled as a key.
    pub fn step(&mut self, event: LoopEvent) -> (action: Action)
        requires
            old(self).wf(),
        ensures
            final(self).wf(),
            final(self)@ == after_event(old(self)@, event),
            action == action_for(event),
    {
        match event {
            LoopEvent::Tick => Action::Draw,
            LoopEvent::Key(key) => self.handle_key(key),
        }
    }

    /// Takes what a terminal event came to: a key press, or nothing.
    pub fn handle_input(&mut self, input: Option<Key>) -> (action: Action)
        requires
            old(self).wf(),
        ensures
            final(self).wf(),
            final(self)@ == after_input(old(self)@, input),
            action == action_for_input(input),
    {
        match input {
            Some(key) => self.handle_key(key),
            None => Action::Nothing,
        }
    }

    /// Takes one terminal event: it is handled as the key press that it stands
    /// for, and an event that is no key press changes nothing and asks for
    /// nothing.
    pub fn handle_event(&mut self, event: &crossterm::event::Event) -> (action: Action)
        requires
            old(self).wf(),
        ensures
            final(self).wf(),
            final(self)@ == after_input(old(self)@, key_pressed(*event)),
            action == action_for_input(key_pressed(*event)),
    {
        let input = pressed_key(event);
        self.handle_input(input)
    }
}

/// Performs on the bank what an action asks of it; an action that does not
/// concern the bank leaves it as it is.
pub fn perform(bank: &mut LineBank, action: Action)
    requires
        old(bank).wf(),
    ensures
        final(bank).wf(),
        final(bank)@ == lines_after(old(bank)@, action),
        final(bank).last_poll() == old(bank).last_poll(),
{
    match action {
        Action::AcknowledgeAll => bank.acknowledge_all(),
        Action::BlockChanged => bank.block_changed(),
        _ => {},
    }
}

} // verus!
