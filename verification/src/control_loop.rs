//! The decisions of the polling loop: what one iteration does with the
//! events it was handed, and when the loop stops.

use vstd::prelude::*;
use crate::config::{Config, ConfigView};
use crate::keys::{role_of, KeyRole};
use crate::motion::{motion_sequence, motion_vector, move_mouse};
use crate::state::ControlState;
use crate::translator::{
    click_actions, click_sequence, effect_of, lemma_click_presses_once, next_state, press_count,
    release_count, Action, Button, Effect, EventTranslator, RawEvent, TranslatorState,
};

verus! {

/// The pause that ends every iteration, in milliseconds. It is the loop's
/// only clock.
pub const TICK_MS: u64 = 10;

/// The exit code of a run that was asked to stop.
pub const EXIT_OK: i32 = 0;

/// Whether the loop still runs. `Stopped` is final.
#[derive(Clone, Copy, Debug, PartialEq, Eq, Structural)]
pub enum LoopState {
    Running,
    Stopped,
}

/// The loop as plain mathematical values.
pub struct LoopView {
    pub phase: LoopState,
    pub keys: TranslatorState,
    pub config: ConfigView,
}

/// Where a batch of events has got to: the held-key state, the actions
/// collected so far, and whether the terminate key has gone down.
pub struct Drain {
    pub keys: TranslatorState,
    pub actions: Seq<Action>,
    pub terminated: bool,
}

/// Whether `event` is the terminate key going down.
pub open spec fn is_terminate_press(event: RawEvent) -> bool {
    event.is_key() && event.pressed() && role_of(event.code) == Some(KeyRole::Terminate)
}

/// One more event of a batch. After the terminate key has gone down nothing
/// further is looked at. Before that the event updates the held keys, a click
/// adds its five actions, and the terminate key adds the exit.
pub open spec fn drain_step(so_far: Drain, event: RawEvent) -> Drain {
    if so_far.terminated {
        so_far
    } else {
        let keys = next_state(so_far.keys, event);
        match effect_of(so_far.keys, event) {
            Effect::Nothing => Drain { keys, actions: so_far.actions, terminated: false },
            Effect::Click(button) => Drain {
                keys,
                actions: so_far.actions + click_sequence(button),
                terminated: false,
            },
            Effect::Terminate => Drain {
                keys,
                actions: so_far.actions.push(Action::Exit(EXIT_OK)),
                terminated: true,
            },
        }
    }
}

/// A whole batch of events, taken in order from the state `keys`.
pub open spec fn drain(keys: TranslatorState, events: Seq<RawEvent>) -> Drain
    decreases events.len(),
{
    if events.len() == 0 {
        Drain { keys, actions: Seq::empty(), terminated: false }
    } else {
        drain_step(drain(keys, events.drop_last()), events.last())
    }
}

/// The events of an iteration: a failed read counts as no events.
pub open spec fn drained_events(drained: Option<Seq<RawEvent>>) -> Seq<RawEvent> {
    match drained {
        Some(events) => events,
        None => Seq::empty(),
    }
}

/// The loop after an iteration that was handed `drained`. A stopped loop
/// stays as it is. A running loop takes the events in; it stops if the
/// terminate key went down among them.
pub open spec fn iteration_state(v: LoopView, drained: Option<Seq<RawEvent>>) -> LoopView {
    match v.phase {
        LoopState::Stopped => v,
        LoopState::Running => {
            let batch = drain(v.keys, drained_events(drained));
            LoopView {
                phase: if batch.terminated {
                    LoopState::Stopped
                } else {
                    LoopState::Running
                },
                keys: batch.keys,
                config: v.config,
            }
        },
    }
}

/// What an iteration that was handed `drained` asks the caller to do. A
/// stopped loop asks for nothing. A running loop asks for the clicks of the
/// batch, then for the motion of the keys held after the batch, then for the
/// tick's pause; if the terminate key went down, it asks for the clicks
/// before that and the exit, and for nothing after it.
pub open spec fn iteration_plan(v: LoopView, drained: Option<Seq<RawEvent>>) -> Seq<Action> {
    match v.phase {
        LoopState::Stopped => Seq::empty(),
        LoopState::Running => {
            let batch = drain(v.keys, drained_events(drained));
            if batch.terminated {
                batch.actions
            } else {
                batch.actions + motion_sequence(motion_vector(batch.keys.control, v.config))
                    + seq![Action::Pause(TICK_MS)]
            }
        },
    }
}

/// What reading the run flag at the top of an iteration asks for: a running
/// loop that reads `false` gives up the keyboard and exits; in every other
/// case there is nothing to do.
pub open spec fn run_flag_plan(v: LoopView, run_flag: bool) -> Seq<Action> {
    if v.phase == LoopState::Running && !run_flag {
        seq![Action::ReleaseGrab, Action::Exit(EXIT_OK)]
    } else {
        Seq::empty()
    }
}

/// The loop after reading the run flag: `false` stops it.
pub open spec fn run_flag_state(v: LoopView, run_flag: bool) -> LoopView {
    if run_flag {
        v
    } else {
        LoopView { phase: LoopState::Stopped, ..v }
    }
}

/// The loop's own state: whether it runs, which keys are held, and the
/// configuration it was started with.
#[derive(Debug)]
pub struct ControlLoop {
    phase: LoopState,
    translator: EventTranslator,
    config: Config,
}

impl View for ControlLoop {
    type V = LoopView;

    closed spec fn view(&self) -> LoopView {
        LoopView { phase: self.phase, keys: self.translator@, config: self.config@ }
    }
}

impl ControlLoop {
    /// A running loop with nothing held.
    pub fn new(config: Config) -> (control: Self)
        ensures
            control@ == (LoopView {
                phase: LoopState::Running,
                keys: TranslatorState::initial(),
                config: config@,
            }),
            control@.keys.wf(),
    {
        ControlLoop { phase: LoopState::Running, translator: EventTranslator::new(), config }
    }

    /// Whether the loop has not stopped yet.
    pub fn is_running(&self) -> (running: bool)
        ensures
            running == (self@.phase == LoopState::Running),
    {
        match self.phase {
            LoopState::Running => true,
            LoopState::Stopped => false,
        }
    }

    /// The held-key flags as they stand, by value.
    pub fn snapshot(&self) -> (state: ControlState)
        ensures
            state == self@.keys.control,
    {
        self.translator.snapshot()
    }

    /// The configuration the loop was started with.
    pub fn config(&self) -> (config: &Config)
        ensures
            config@ == self@.config,
    {
        &self.config
    }

    /// Takes in the run flag as read at the top of an iteration. The caller
    /// carries out the returned actions and goes on to read events only if
    /// the loop still runs.
    pub fn observe_run_flag(&mut self, run_flag: bool) -> (plan: Vec<Action>)
        ensures
            final(self)@ == run_flag_state(old(self)@, run_flag),
            plan@ == run_flag_plan(old(self)@, run_flag),
            old(self)@.keys.wf() ==> final(self)@.keys.wf(),
    {
        let mut plan: Vec<Action> = Vec::new();
        if !run_flag {
            if self.is_running() {
                plan.push(Action::ReleaseGrab);
                plan.push(Action::Exit(EXIT_OK));
            }
            self.phase = LoopState::Stopped;
        }
        plan
    }

    /// Runs one iteration on the events that were read, `None` standing for a
    /// read that failed. The caller carries out the returned actions in
    /// order and stops at the first that fails.
    pub fn run_iteration(&mut self, drained: Option<Vec<RawEvent>>) -> (plan: Vec<Action>)
        ensures
            final(self)@ == iteration_state(old(self)@, drained_view(drained)),
            plan@ == iteration_plan(old(self)@, drained_view(drained)),
            old(self)@.keys.wf() ==> final(self)@.keys.wf(),
    {
        let mut plan: Vec<Action> = Vec::new();
        if !self.is_running() {
            return plan;
        }
        let events: Vec<RawEvent> = match drained {
            Some(events) => events,
            None => Vec::new(),
        };
        let ghost start = self.translator@;
        let mut terminated = false;
        let mut i: usize = 0;
        while i < events.len() && !terminated
            invariant
                i <= events.len(),
                self.phase == old(self).phase,
                self.config == old(self).config,
                drain(start, events@.take(i as int)) == (Drain {
                    keys: self.translator@,
                    actions: plan@,
                    terminated,
                }),
            decreases events.len() - i, if terminated { 0int } else { 1int },
        {
            let event = events[i];
            let effect = self.translator.process_event(event);
            match effect {
                Effect::Nothing => {},
                Effect::Click(button) => {
                    let mut click = click_actions(button);
                    plan.append(&mut click);
                },
                Effect::Terminate => {
                    plan.push(Action::Exit(EXIT_OK));
                    terminated = true;
                },
            }
            proof {
                assert(events@.take(i + 1).drop_last() == events@.take(i as int));
                assert(events@.take(i + 1).last() == event);
            }
            i = i + 1;
        }
        proof {
            lemma_drain_ends_at_termination(start, events@, i as int);
            if start.wf() {
                lemma_drain_keeps_wf(start, events@);
            }
        }
        if terminated {
            self.phase = LoopState::Stopped;
        } else {
            let mut motion = move_mouse(self.translator.snapshot(), &self.config);
            plan.append(&mut motion);
            plan.push(Action::Pause(TICK_MS));
        }
        plan
    }
}

/// The events handed to an iteration, as a sequence.
pub open spec fn drained_view(drained: Option<Vec<RawEvent>>) -> Option<Seq<RawEvent>> {
    match drained {
        Some(events) => Some(events@),
        None => None,
    }
}

/// A batch that is cut where the terminate key went down has the same
/// outcome as the whole batch.
pub proof fn lemma_drain_ends_at_termination(
    keys: TranslatorState,
    events: Seq<RawEvent>,
    cut: int,
)
    requires
        0 <= cut <= events.len(),
        cut < events.len() ==> drain(keys, events.take(cut)).terminated,
    ensures
        drain(keys, events) == drain(keys, events.take(cut)),
    decreases events.len(),
{
    if cut == events.len() {
        assert(events.take(cut) == events);
    } else {
        assert(events.drop_last().take(cut) == events.take(cut));
        lemma_drain_ends_at_termination(keys, events.drop_last(), cut);
    }
}

/// A batch never breaks the tie between the modifier flag and the latches.
pub proof fn lemma_drain_keeps_wf(keys: TranslatorState, events: Seq<RawEvent>)
    requires
        keys.wf(),
    ensures
        drain(keys, events).keys.wf(),
    decreases events.len(),
{
    if events.len() > 0 {
        lemma_drain_keeps_wf(keys, events.drop_last());
    }
}

/// Whether an action moves the pointer.
pub open spec fn is_move(action: Action) -> bool {
    action is MoveX || action is MoveY
}

/// A batch asks only for clicks and, at most once and at its very end, for
/// the exit: it never moves the pointer, and it ends with the exit exactly
/// when the terminate key went down in it.
pub proof fn lemma_drain_never_moves(keys: TranslatorState, events: Seq<RawEvent>)
    ensures
        forall|j: int|
            0 <= j < drain(keys, events).actions.len() ==> !is_move(
                #[trigger] drain(keys, events).actions[j],
            ),
        drain(keys, events).terminated ==> drain(keys, events).actions.len() > 0 && drain(
            keys,
            events,
        ).actions.last() == Action::Exit(EXIT_OK),
        drain(keys, events).terminated <==> exists|i: int|
            0 <= i < events.len() && is_terminate_press(#[trigger] events[i]),
    decreases events.len(),
{
    if events.len() > 0 {
        let before = events.drop_last();
        lemma_drain_never_moves(keys, before);
        let so_far = drain(keys, before);
        if so_far.terminated {
            let i = choose|i: int| 0 <= i < before.len() && is_terminate_press(#[trigger] before[i]);
            assert(is_terminate_press(events[i]));
        } else {
            assert forall|i: int| 0 <= i < before.len() implies !is_terminate_press(
                #[trigger] events[i],
            ) by {
                assert(events[i] == before[i]);
            }
            if is_terminate_press(events.last()) {
                assert(is_terminate_press(events[events.len() - 1]));
            }
        }
    }
}

/// Once the terminate key goes down in a running loop's batch, the loop
/// stops and the plan is what the batch asked for up to that key and no
/// more: it ends with an exit of code 0, nothing in it moves the pointer,
/// and neither the motion of that iteration nor its closing pause is added.
pub proof fn lemma_terminate_skips_motion(v: LoopView, events: Seq<RawEvent>)
    requires
        v.phase == LoopState::Running,
        exists|i: int| 0 <= i < events.len() && is_terminate_press(#[trigger] events[i]),
    ensures
        iteration_state(v, Some(events)).phase == LoopState::Stopped,
        iteration_plan(v, Some(events)) == drain(v.keys, events).actions,
        iteration_plan(v, Some(events)).len() > 0,
        iteration_plan(v, Some(events)).last() == Action::Exit(EXIT_OK),
        forall|j: int|
            0 <= j < iteration_plan(v, Some(events)).len() ==> !is_move(
                #[trigger] iteration_plan(v, Some(events))[j],
            ),
{
    lemma_drain_never_moves(v.keys, events);
}

/// Events that follow the terminate key in a batch are not looked at: the
/// batch cut right after that key has the same outcome.
pub proof fn lemma_events_after_terminate_are_ignored(
    keys: TranslatorState,
    events: Seq<RawEvent>,
    at: int,
)
    requires
        0 <= at < events.len(),
        is_terminate_press(events[at]),
    ensures
        drain(keys, events) == drain(keys, events.take(at + 1)),
{
    let cut = events.take(at + 1);
    assert(cut[at] == events[at]);
    lemma_drain_never_moves(keys, cut);
    lemma_drain_ends_at_termination(keys, events, at + 1);
}

/// How many events of a batch click `button`: those that arrive before the
/// terminate key has gone down and whose effect, in the state the batch has
/// reached by then, is a click on that button.
pub open spec fn clicks_asked(keys: TranslatorState, events: Seq<RawEvent>, button: Button) -> nat
    decreases events.len(),
{
    if events.len() == 0 {
        0
    } else {
        let before = drain(keys, events.drop_last());
        let here: nat = if !before.terminated && effect_of(before.keys, events.last())
            == Effect::Click(button) {
            1
        } else {
            0
        };
        clicks_asked(keys, events.drop_last(), button) + here
    }
}

/// A batch presses and releases a button exactly once for each event that
/// clicks it, and for no other reason.
pub proof fn lemma_one_click_per_qualifying_press(
    keys: TranslatorState,
    events: Seq<RawEvent>,
    button: Button,
)
    ensures
        press_count(drain(keys, events).actions, button) == clicks_asked(keys, events, button),
        release_count(drain(keys, events).actions, button) == clicks_asked(keys, events, button),
    decreases events.len(),
{
    reveal_with_fuel(Seq::filter, 2);
    if events.len() > 0 {
        lemma_one_click_per_qualifying_press(keys, events.drop_last(), button);
        let before = drain(keys, events.drop_last());
        if !before.terminated {
            let pressed = |a: Action| a == Action::Press(button);
            let released = |a: Action| a == Action::Release(button);
            match effect_of(before.keys, events.last()) {
                Effect::Nothing => {},
                Effect::Click(clicked) => {
                    lemma_click_presses_once(clicked, button);
                    Seq::filter_distributes_over_add(
                        before.actions,
                        click_sequence(clicked),
                        pressed,
                    );
                    Seq::filter_distributes_over_add(
                        before.actions,
                        click_sequence(clicked),
                        released,
                    );
                },
                Effect::Terminate => {
                    let exit = seq![Action::Exit(EXIT_OK)];
                    assert(before.actions.push(Action::Exit(EXIT_OK)) == before.actions + exit);
                    assert(exit.drop_last() == Seq::<Action>::empty());
                    Seq::filter_distributes_over_add(before.actions, exit, pressed);
                    Seq::filter_distributes_over_add(before.actions, exit, released);
                },
            }
        }
    }
}

/// A read that failed is an iteration without events: the held keys stay,
/// and the plan is the motion of the held keys and the tick's pause.
pub proof fn lemma_failed_read_is_no_events(v: LoopView)
    ensures
        iteration_state(v, None) == iteration_state(v, Some(Seq::empty())),
        iteration_plan(v, None) == iteration_plan(v, Some(Seq::empty())),
        v.phase == LoopState::Running ==> iteration_state(v, None) == v,
        v.phase == LoopState::Running ==> iteration_plan(v, None) == motion_sequence(
            motion_vector(v.keys.control, v.config),
        ) + seq![Action::Pause(TICK_MS)],
{
}

/// A stopped loop stays stopped and asks for nothing more.
pub proof fn lemma_stopped_is_final(v: LoopView, drained: Option<Seq<RawEvent>>, run_flag: bool)
    requires
        v.phase == LoopState::Stopped,
    ensures
        iteration_state(v, drained) == v,
        iteration_plan(v, drained) == Seq::<Action>::empty(),
        run_flag_state(v, run_flag) == v,
        run_flag_plan(v, run_flag) == Seq::<Action>::empty(),
{
}

} // verus!
