//! The application state machine: a running flag and the latest memory
//! sample. Once per render tick the run loop drains the channel and folds the
//! batch into the state, in order; once the quit predicate fires, the state is
//! terminal and later events are ignored.

use vstd::prelude::*;

use crate::event::{quits, Event};

verus! {

/// The state the run loop owns: whether the application is still running, and
/// the most recently consumed memory sample, if any has arrived yet.
#[derive(Clone, Copy, Debug, PartialEq, Eq, Structural)]
pub struct App {
    /// Is the application running? Starts true and only ever falls to false.
    pub running: bool,
    /// The last memory sample consumed, in bytes; unset until one arrives.
    pub latest_mem: Option<u64>,
}

/// What one event does to the state: nothing once stopped; a memory sample
/// overwrites the latest value; a key press quits when the quit predicate
/// holds.
pub open spec fn step_spec(s: App, e: Event) -> App {
    if !s.running {
        s
    } else {
        match e {
            Event::Memory(v) => App { running: s.running, latest_mem: Some(v) },
            Event::Input(key) => if quits(key) {
                App { running: false, latest_mem: s.latest_mem }
            } else {
                s
            },
        }
    }
}

/// Folding a whole drained batch: each event applied in arrival order.
pub open spec fn fold_spec(s: App, es: Seq<Event>) -> App
    decreases es.len(),
{
    if es.len() == 0 {
        s
    } else {
        fold_spec(step_spec(s, es[0]), es.drop_first())
    }
}

/// Whether every event in the batch is a memory sample.
pub open spec fn all_memory(es: Seq<Event>) -> bool {
    forall|i: int| 0 <= i < es.len() ==> es[i] is Memory
}

/// The sample a memory event carries.
pub open spec fn memory_value(e: Event) -> Option<u64> {
    match e {
        Event::Memory(v) => Some(v),
        Event::Input(_) => None,
    }
}

/// Last write wins: folding a batch of memory samples leaves the state
/// running and holding exactly the last sample of the batch; earlier samples
/// are overwritten, never aggregated.
pub proof fn lemma_last_write_wins(s: App, es: Seq<Event>)
    requires
        s.running,
        all_memory(es),
        es.len() > 0,
    ensures
        fold_spec(s, es).running,
        fold_spec(s, es).latest_mem == memory_value(es.last()),
    decreases es.len(),
{
    assert(es[0] is Memory);
    let s1 = step_spec(s, es[0]);
    if es.len() > 1 {
        let rest = es.drop_first();
        assert forall|i: int| 0 <= i < rest.len() implies rest[i] is Memory by {
            assert(es[i + 1] is Memory);
        }
        lemma_last_write_wins(s1, rest);
        assert(rest.last() == es.last());
    }
}

/// A key press flips the running flag exactly when the quit predicate holds
/// of it; no other key has any effect on a running state.
pub proof fn lemma_quit_transition(s: App, key: crate::event::KeyEvent)
    requires
        s.running,
    ensures
        step_spec(s, Event::Input(key)).running == !quits(key),
        step_spec(s, Event::Input(key)).latest_mem == s.latest_mem,
{
}

/// A stopped state is terminal: whatever is drained afterwards, folding it
/// changes nothing — the running flag never returns to true and no later
/// sample is consumed.
pub proof fn lemma_stopped_is_terminal(s: App, es: Seq<Event>)
    requires
        !s.running,
    ensures
        fold_spec(s, es) == s,
    decreases es.len(),
{
    if es.len() > 0 {
        lemma_stopped_is_terminal(s, es.drop_first());
    }
}

/// The running flag is monotonic: no batch of events can make a state run
/// again, so a running result proves the state was running before.
pub proof fn lemma_running_monotonic(s: App, es: Seq<Event>)
    ensures
        fold_spec(s, es).running ==> s.running,
    decreases es.len(),
{
    if es.len() > 0 {
        lemma_running_monotonic(step_spec(s, es[0]), es.drop_first());
    }
}

impl App {
    /// Construct the startup state: running, with no sample yet.
    pub fn new() -> (app: App)
        ensures
            app.running,
            app.latest_mem is None,
    {
        App { running: true, latest_mem: None }
    }

    /// Set running to false to quit the application.
    pub fn quit(&mut self)
        ensures
            !final(self).running,
            final(self).latest_mem == old(self).latest_mem,
    {
        self.running = false;
    }

    /// Whether the run loop should keep ticking.
    pub fn is_running(&self) -> (b: bool)
        ensures
            b == self.running,
    {
        self.running
    }

    /// Handles a key event: applies the quit predicate, nothing else.
    pub fn on_key_event(&mut self, key: crate::event::KeyEvent)
        ensures
            *final(self) == (if quits(key) {
                App { running: false, latest_mem: old(self).latest_mem }
            } else {
                *old(self)
            }),
    {
        if crate::event::is_quit_key(&key) {
            self.quit();
        }
    }

    /// Fold one drained event into the state.
    pub fn handle_event(&mut self, e: Event)
        ensures
            *final(self) == step_spec(*old(self), e),
    {
        if self.running {
            match e {
                Event::Memory(v) => {
                    self.latest_mem = Some(v);
                },
                Event::Input(key) => {
                    self.on_key_event(key);
                },
            }
        }
    }

    /// Fold a whole drained batch into the state, in arrival order.
    pub fn apply_events(&mut self, events: &Vec<Event>)
        ensures
            *final(self) == fold_spec(*old(self), events@),
    {
        let ghost s0 = *self;
        proof {
            assert(events@.skip(0) =~= events@);
        }
        let n = events.len();
        for i in 0..n
            invariant
                n == events@.len(),
                fold_spec(s0, events@) == fold_spec(*self, events@.skip(i as int)),
        {
            proof {
                assert(events@.skip(i as int).len() > 0);
                assert(events@.skip(i as int)[0] == events@[i as int]);
                assert(events@.skip(i as int).drop_first() =~= events@.skip(i as int + 1));
            }
            self.handle_event(events[i]);
        }
        proof {
            assert(events@.skip(n as int) =~= Seq::<Event>::empty());
        }
    }
}

} // verus!
