use vstd::prelude::*;
use crate::queue::{place, EventQueue};
use crate::time::Time;

verus! {

/// The simulation kernel: logical time, the actor whose turn it is, the
/// actions pending for that turn, and the timed events still to deliver.
pub struct Engine<Actor, Action, Event> {
    pub stop: bool,
    pub turn: Option<Actor>,
    pub event_queue: EventQueue<Event>,
    pub action_queue: Vec<(Actor, Action)>,
    pub time: Time,
}

impl<Actor, Action, Event> Engine<Actor, Action, Event> {
    pub open spec fn wf(&self) -> bool {
        self.event_queue.wf()
    }

    /// Whether one more event can be scheduled: insertion numbers are not used up.
    pub open spec fn can_schedule(&self) -> bool {
        self.event_queue.last_generation() < u64::MAX
    }

    /// The event queue after scheduling `event` at `at`.
    pub open spec fn scheduled(old_queue: EventQueue<Event>, new_queue: EventQueue<Event>, at: Time, event: Event) -> bool {
        &&& new_queue.wf()
        &&& new_queue.last_generation() == old_queue.last_generation() + 1
        &&& new_queue@ == old_queue@.insert(place(old_queue@, at) as int, old_queue.next_entry(at, event))
    }

    pub fn new() -> (r: Engine<Actor, Action, Event>)
        ensures
            r.wf(),
            !r.stop,
            r.turn is None,
            r.event_queue@.len() == 0,
            r.event_queue.last_generation() == 0,
            r.action_queue@.len() == 0,
            r.time == (Time { ticks: 0, micro_ticks: 0 }),
    {
        Engine {
            stop: false,
            turn: None,
            event_queue: EventQueue::new(),
            action_queue: Vec::new(),
            time: Time::new(0, 0),
        }
    }

    /// Ends the current turn: no actor holds it and the pending actions are
    /// dropped, whatever the state before. `actor` is not checked.
    pub fn end_turn(&mut self, actor: Actor)
        ensures
            final(self).turn is None,
            final(self).action_queue@.len() == 0,
            final(self).stop == old(self).stop,
            final(self).event_queue == old(self).event_queue,
            final(self).time == old(self).time,
    {
        self.turn = None;
        self.action_queue.clear();
    }

    pub fn current_turn(&self) -> (r: &Option<Actor>)
        ensures
            *r == self.turn,
    {
        &self.turn
    }

    /// Gives the turn to `actor`; pending actions are left as they are.
    pub fn new_turn(&mut self, actor: Actor)
        ensures
            final(self).turn == Some(actor),
            final(self).action_queue == old(self).action_queue,
            final(self).stop == old(self).stop,
            final(self).event_queue == old(self).event_queue,
            final(self).time == old(self).time,
    {
        self.turn = Some(actor);
    }

    pub fn finish(&mut self)
        ensures
            final(self).stop,
            final(self).turn == old(self).turn,
            final(self).action_queue == old(self).action_queue,
            final(self).event_queue == old(self).event_queue,
            final(self).time == old(self).time,
    {
        self.stop = true;
    }

    pub fn is_finished(&self) -> (r: bool)
        ensures
            r == self.stop,
    {
        self.stop
    }

    /// Queues an action at the back of the pending actions.
    pub fn action(&mut self, actor: Actor, action: Action)
        ensures
            final(self).action_queue@ == old(self).action_queue@.push((actor, action)),
            final(self).turn == old(self).turn,
            final(self).stop == old(self).stop,
            final(self).event_queue == old(self).event_queue,
            final(self).time == old(self).time,
    {
        self.action_queue.push((actor, action));
    }

    /// Takes the oldest pending action, stamped with the current time.
    pub fn next_action(&mut self) -> (r: Option<(Time, Actor, Action)>)
        ensures
            old(self).action_queue@.len() == 0 ==> r is None
                && final(self).action_queue@ == old(self).action_queue@,
            old(self).action_queue@.len() > 0 ==> r == Some((
                old(self).time,
                old(self).action_queue@[0].0,
                old(self).action_queue@[0].1,
            )) && final(self).action_queue@ == old(self).action_queue@.drop_first(),
            final(self).turn == old(self).turn,
            final(self).stop == old(self).stop,
            final(self).event_queue == old(self).event_queue,
            final(self).time == old(self).time,
    {
        if self.action_queue.len() == 0 {
            None
        } else {
            let (actor, action) = self.action_queue.remove(0);
            Some((self.time, actor, action))
        }
    }

    /// Schedules `event` at the current time.
    pub fn event(&mut self, event: Event)
        requires
            old(self).wf(),
            old(self).can_schedule(),
        ensures
            final(self).wf(),
            Self::scheduled(
                old(self).event_queue,
                final(self).event_queue,
                old(self).time.sum(Time { ticks: 0, micro_ticks: 0 }),
                event,
            ),
            old(self).time.wf() ==> old(self).time.sum(Time { ticks: 0, micro_ticks: 0 }) == old(self).time,
            final(self).turn == old(self).turn,
            final(self).action_queue == old(self).action_queue,
            final(self).stop == old(self).stop,
            final(self).time == old(self).time,
    {
        self.event_after(Time::default(), event);
    }

    /// Schedules `event` at the current time plus `delay`.
    pub fn event_after(&mut self, delay: Time, event: Event)
        requires
            old(self).wf(),
            old(self).can_schedule(),
        ensures
            final(self).wf(),
            Self::scheduled(old(self).event_queue, final(self).event_queue, old(self).time.sum(delay), event),
            final(self).turn == old(self).turn,
            final(self).action_queue == old(self).action_queue,
            final(self).stop == old(self).stop,
            final(self).time == old(self).time,
    {
        let at = self.time.add_time(delay);
        self.event_at(at, event);
    }

    /// Schedules `event` at the absolute time `at`, which may lie before the
    /// current time: such an event is still delivered by the usual order.
    pub fn event_at(&mut self, at: Time, event: Event)
        requires
            old(self).wf(),
            old(self).can_schedule(),
        ensures
            final(self).wf(),
            Self::scheduled(old(self).event_queue, final(self).event_queue, at, event),
            final(self).turn == old(self).turn,
            final(self).action_queue == old(self).action_queue,
            final(self).stop == old(self).stop,
            final(self).time == old(self).time,
    {
        self.event_queue.add(at, event);
    }

    /// Delivers the next event and moves the current time to its time.
    pub fn next_event(&mut self) -> (r: Option<(Time, Event)>)
        requires
            old(self).wf(),
        ensures
            final(self).wf(),
            final(self).event_queue.last_generation() == old(self).event_queue.last_generation(),
            old(self).event_queue@.len() == 0 ==> r is None
                && final(self).event_queue@ == old(self).event_queue@
                && final(self).time == old(self).time,
            old(self).event_queue@.len() > 0 ==> r == Some((
                old(self).event_queue@[0].time,
                old(self).event_queue@[0].item,
            )) && final(self).event_queue@ == old(self).event_queue@.drop_first()
                && final(self).time == old(self).event_queue@[0].time,
            final(self).turn == old(self).turn,
            final(self).action_queue == old(self).action_queue,
            final(self).stop == old(self).stop,
    {
        match self.event_queue.next() {
            Some((time, event)) => {
                self.time = time;
                Some((time, event))
            },
            None => None,
        }
    }
}

/// Pending actions leave first in, first out: with `pending` waiting, `a`
/// queued and then `b` (scheduling or delivering events in between leaves
/// the pending list as it is), taking the front `pending.len()` times
/// leaves `a` in front of `b`.
pub proof fn lemma_actions_leave_in_queued_order<P>(pending: Seq<P>, a: P, b: P)
    ensures
        pending.push(a).push(b).skip(pending.len() as int) =~= seq![a, b],
        forall|n: nat| n <= pending.len() ==> (#[trigger] pending.push(a).push(b).skip(n as int))
            =~= pending.skip(n as int).push(a).push(b),
{
}

impl<Actor, Action, Event> Default for Engine<Actor, Action, Event> {
    fn default() -> (r: Engine<Actor, Action, Event>)
        ensures
            r.wf(),
            !r.stop,
            r.turn is None,
            r.event_queue@.len() == 0,
            r.action_queue@.len() == 0,
            r.time == (Time { ticks: 0, micro_ticks: 0 }),
    {
        Engine::new()
    }
}

} // verus!
