//! The decisions of the progress spinner. While an operation runs, a timer
//! ticks; the two race, and the spinner only decides what each event leads to.
//! The runner that owns the timer and the terminal asks `SpinnerRun::step`
//! at each event and does what it answers.

use vstd::prelude::*;

verus! {

/// Colour of the spinner.
#[derive(Clone, Copy, Debug, PartialEq, Eq, Structural)]
pub enum SpinnerColor {
    Black,
    Red,
    Green,
    Yellow,
    Blue,
    Magenta,
    Cyan,
    White,
}

/// The name of a colour in a spinner template.
pub open spec fn color_name_spec(c: SpinnerColor) -> Seq<char> {
    match c {
        SpinnerColor::Black => "black"@,
        SpinnerColor::Red => "red"@,
        SpinnerColor::Green => "green"@,
        SpinnerColor::Yellow => "yellow"@,
        SpinnerColor::Blue => "blue"@,
        SpinnerColor::Magenta => "magenta"@,
        SpinnerColor::Cyan => "cyan"@,
        SpinnerColor::White => "white"@,
    }
}

/// The template that draws the spinner in colour `c`, followed by the message.
pub open spec fn template_spec(c: SpinnerColor) -> Seq<char> {
    "{spinner:."@ + color_name_spec(c) + "} {msg}"@
}

impl SpinnerColor {
    /// The colour's name.
    pub fn to_string(&self) -> (r: &'static str)
        ensures
            r@ == color_name_spec(*self),
    {
        match self {
            SpinnerColor::Black => "black",
            SpinnerColor::Red => "red",
            SpinnerColor::Green => "green",
            SpinnerColor::Yellow => "yellow",
            SpinnerColor::Blue => "blue",
            SpinnerColor::Magenta => "magenta",
            SpinnerColor::Cyan => "cyan",
            SpinnerColor::White => "white",
        }
    }
}

/// The template that draws the spinner in `color`, followed by the message.
pub fn format_tpl(color: SpinnerColor) -> (r: String)
    ensures
        r@ == template_spec(color),
{
    String::from_str("{spinner:.").concat(color.to_string()).concat("} {msg}")
}

/// The template to install when the colour changes; none when the spinner is
/// silent, which draws nothing.
pub fn style_for(silent: bool, color: SpinnerColor) -> (r: Option<String>)
    ensures
        silent ==> r is None,
        !silent ==> r is Some && r->0@ == template_spec(color),
{
    if silent {
        None
    } else {
        Some(format_tpl(color))
    }
}

/// What happens while an operation runs.
#[derive(Clone, Copy, Debug, PartialEq, Eq, Structural)]
pub enum Event {
    /// The timer ticked.
    Tick,
    /// The operation completed.
    Finished,
}

/// What the runner does in answer to an event.
#[derive(Clone, Copy, Debug, PartialEq, Eq, Structural)]
pub enum Action {
    /// Draw the next frame.
    Draw,
    /// Draw nothing and keep waiting.
    Skip,
    /// Stop the timer and hand back the operation's result as it is.
    Stop,
}

/// The answer to an event in state `(silent, finished)`, and the next state.
/// Once the operation has completed every event is answered with `Stop`; a
/// silent spinner never draws.
pub open spec fn step_spec(s: (bool, bool), e: Event) -> ((bool, bool), Action) {
    let (silent, finished) = s;
    if finished {
        (s, Action::Stop)
    } else {
        match e {
            Event::Finished => ((silent, true), Action::Stop),
            Event::Tick => if silent {
                (s, Action::Skip)
            } else {
                (s, Action::Draw)
            },
        }
    }
}

/// The state after a sequence of events.
pub open spec fn state_after(s: (bool, bool), events: Seq<Event>) -> (bool, bool)
    decreases events.len(),
{
    if events.len() == 0 {
        s
    } else {
        step_spec(state_after(s, events.drop_last()), events.last()).0
    }
}

/// The answers to a sequence of events, in order.
pub open spec fn actions_of(s: (bool, bool), events: Seq<Event>) -> Seq<Action>
    decreases events.len(),
{
    if events.len() == 0 {
        Seq::<Action>::empty()
    } else {
        actions_of(s, events.drop_last()).push(
            step_spec(state_after(s, events.drop_last()), events.last()).1,
        )
    }
}

/// Number of frames drawn among some answers.
pub open spec fn frames_drawn(actions: Seq<Action>) -> nat
    decreases actions.len(),
{
    if actions.len() == 0 {
        0
    } else {
        frames_drawn(actions.drop_last()) + if actions.last() == Action::Draw {
            1nat
        } else {
            0nat
        }
    }
}

proof fn lemma_actions_len(s: (bool, bool), events: Seq<Event>)
    ensures
        actions_of(s, events).len() == events.len(),
    decreases events.len(),
{
    if events.len() > 0 {
        lemma_actions_len(s, events.drop_last());
    }
}

proof fn lemma_state_keeps_silent(s: (bool, bool), events: Seq<Event>)
    ensures
        state_after(s, events).0 == s.0,
    decreases events.len(),
{
    if events.len() > 0 {
        lemma_state_keeps_silent(s, events.drop_last());
    }
}

/// A silent spinner draws no frame, whatever events come; it still answers
/// the operation's completion with `Stop`, so the race goes on as usual.
pub proof fn lemma_silent_draws_nothing(finished: bool, events: Seq<Event>)
    ensures
        frames_drawn(actions_of((true, finished), events)) == 0,
        forall|i: int|
            0 <= i < events.len() && events[i] == Event::Finished ==> #[trigger] actions_of(
                (true, finished),
                events,
            )[i] == Action::Stop,
    decreases events.len(),
{
    if events.len() > 0 {
        let init = events.drop_last();
        lemma_silent_draws_nothing(finished, init);
        lemma_state_keeps_silent((true, finished), init);
        lemma_actions_len((true, finished), init);
        let acts = actions_of((true, finished), events);
        assert(acts.drop_last() == actions_of((true, finished), init));
        assert forall|i: int|
            0 <= i < events.len() && events[i] == Event::Finished implies #[trigger] acts[i]
            == Action::Stop by {
            if i < init.len() {
                assert(init[i] == events[i]);
                assert(acts[i] == acts.drop_last()[i]);
            }
        }
    }
}

/// Once the operation has completed no frame is drawn: every later event is
/// answered with `Stop` and the state stays as it is.
pub proof fn lemma_no_tick_after_finish(silent: bool, events: Seq<Event>)
    ensures
        state_after((silent, true), events) == (silent, true),
        actions_of((silent, true), events) == Seq::new(events.len(), |i: int| Action::Stop),
        frames_drawn(actions_of((silent, true), events)) == 0,
    decreases events.len(),
{
    if events.len() > 0 {
        lemma_no_tick_after_finish(silent, events.drop_last());
        lemma_actions_len((silent, true), events.drop_last());
        assert(actions_of((silent, true), events).drop_last() == actions_of(
            (silent, true),
            events.drop_last(),
        ));
        assert(actions_of((silent, true), events) =~= Seq::new(
            events.len(),
            |i: int| Action::Stop,
        ));
    }
}

/// The state of one run of an operation under the spinner.
#[derive(Clone, Copy, Debug)]
pub struct SpinnerRun {
    silent: bool,
    finished: bool,
}

impl View for SpinnerRun {
    /// Whether the spinner is silent, and whether the operation has completed.
    type V = (bool, bool);

    closed spec fn view(&self) -> (bool, bool) {
        (self.silent, self.finished)
    }
}

impl SpinnerRun {
    /// A run that has just started.
    pub fn new(silent: bool) -> (r: Self)
        ensures
            r@ == (silent, false),
    {
        SpinnerRun { silent, finished: false }
    }

    /// Whether the operation has completed.
    pub fn is_finished(&self) -> (r: bool)
        ensures
            r == self@.1,
    {
        self.finished
    }

    /// The answer to an event.
    pub fn step(&mut self, event: Event) -> (a: Action)
        ensures
            (final(self)@, a) == step_spec(old(self)@, event),
    {
        if self.finished {
            return Action::Stop;
        }
        match event {
            Event::Finished => {
                self.finished = true;
                Action::Stop
            },
            Event::Tick => {
                if self.silent {
                    Action::Skip
                } else {
                    Action::Draw
                }
            },
        }
    }
}

} // verus!
