//! The event bridge: a first-in-first-out queue of terminal events fed by a
//! producer (in a real session, a background task that polls the terminal)
//! and drained without blocking by the render loop. The producer delivers
//! every event it reads; it stops — and the queue reports exhaustion once
//! drained — exactly when it read the configured exit key while exit-key
//! suppression was off.

use vstd::prelude::*;

verus! {

/// A key press, reduced to what the bridge and the host loop inspect.
/// Keys that the command line does not tell apart map to `Other`; the exit
/// key should be configured as one of the distinguished values.
#[derive(Clone, Copy, PartialEq, Eq, Structural, Debug)]
pub enum Key {
    Char(char),
    Enter,
    Backspace,
    Esc,
    Up,
    Down,
    Left,
    Right,
    Tab,
    Other,
}

/// A terminal event, reduced to what the core inspects: a key press, a
/// resize to (columns, rows), or anything else.
#[derive(Clone, Copy, PartialEq, Eq, Structural, Debug)]
pub enum TermEvent {
    Key(Key),
    Resize(u16, u16),
    Other,
}

/// Immutable bridge settings: the exit key and the poll tick in
/// milliseconds.
#[derive(Clone, Copy, PartialEq, Eq, Structural, Debug)]
pub struct Config {
    pub exit_key: Key,
    pub tick_millis: u64,
}

impl Default for Config {
    /// The stock configuration: `q` exits, the terminal is polled every
    /// 250 milliseconds.
    fn default() -> (r: Config)
        ensures
            r.exit_key == Key::Char('q'),
            r.tick_millis == 250,
    {
        Config { exit_key: Key::Char('q'), tick_millis: 250 }
    }
}

/// The queue is exhausted: the producer has stopped and every delivered
/// event has been consumed; no further event will ever arrive.
#[derive(Clone, Copy, PartialEq, Eq, Structural, Debug)]
pub struct Disconnected;

/// Does observing `ev` stop the producer? Exactly when it is a key event
/// matching the exit key and suppression is off. The event itself is still
/// delivered either way.
pub open spec fn stops_producer(ev: TermEvent, exit_key: Key, ignore_exit_key: bool) -> bool {
    !ignore_exit_key && ev == TermEvent::Key(exit_key)
}

/// Mathematical model of the bridge: the queued events oldest first,
/// whether the producer is still running, the suppression flag, and the
/// configured exit key.
pub ghost struct EventsModel {
    pub queue: Seq<TermEvent>,
    pub producer_alive: bool,
    pub ignore_exit_key: bool,
    pub exit_key: Key,
}

/// The event bridge as the render loop sees it: a FIFO queue of events in
/// arrival order plus the producer's state.
pub struct Events {
    queue: Vec<TermEvent>,
    producer_alive: bool,
    ignore_exit_key: bool,
    exit_key: Key,
}

impl View for Events {
    type V = EventsModel;

    closed spec fn view(&self) -> EventsModel {
        EventsModel {
            queue: self.queue@,
            producer_alive: self.producer_alive,
            ignore_exit_key: self.ignore_exit_key,
            exit_key: self.exit_key,
        }
    }
}

impl Default for Events {
    /// A bridge with the stock configuration.
    fn default() -> (r: Events)
        ensures
            r@.queue =~= Seq::<TermEvent>::empty(),
            r@.producer_alive,
            !r@.ignore_exit_key,
            r@.exit_key == Key::Char('q'),
    {
        Events::from_config(Config::default())
    }
}

impl Events {
    /// A fresh bridge for `config`: nothing queued, the producer running,
    /// suppression off.
    pub fn from_config(config: Config) -> (r: Events)
        ensures
            r@.queue =~= Seq::<TermEvent>::empty(),
            r@.producer_alive,
            !r@.ignore_exit_key,
            r@.exit_key == config.exit_key,
    {
        Events {
            queue: Vec::new(),
            producer_alive: true,
            ignore_exit_key: false,
            exit_key: config.exit_key,
        }
    }

    /// The producer delivers one event it read from the terminal. The event
    /// is queued unconditionally — a matching exit key is still delivered —
    /// and the producer keeps running unless the event is the unsuppressed
    /// exit key.
    pub fn push_event(&mut self, ev: TermEvent)
        requires
            old(self)@.producer_alive,
        ensures
            final(self)@.queue == old(self)@.queue.push(ev),
            final(self)@.producer_alive == !stops_producer(
                ev,
                old(self)@.exit_key,
                old(self)@.ignore_exit_key,
            ),
            final(self)@.ignore_exit_key == old(self)@.ignore_exit_key,
            final(self)@.exit_key == old(self)@.exit_key,
    {
        self.queue.push(ev);
        let stops = !self.ignore_exit_key && ev == TermEvent::Key(self.exit_key);
        if stops {
            self.producer_alive = false;
        }
    }

    /// One non-blocking fetch: the oldest queued event if any, `None` when
    /// the queue is empty but more may come, and `Disconnected` when the
    /// queue is empty and the producer has stopped for good.
    pub fn next(&mut self) -> (r: Result<Option<TermEvent>, Disconnected>)
        ensures
            old(self)@.queue.len() > 0 ==> r == Result::<Option<TermEvent>, Disconnected>::Ok(
                Some(old(self)@.queue[0]),
            ) && final(self)@.queue == old(self)@.queue.drop_first(),
            old(self)@.queue.len() == 0 ==> final(self)@.queue == old(self)@.queue && r == (
            if old(self)@.producer_alive {
                Result::<Option<TermEvent>, Disconnected>::Ok(None)
            } else {
                Result::<Option<TermEvent>, Disconnected>::Err(Disconnected)
            }),
            final(self)@.producer_alive == old(self)@.producer_alive,
            final(self)@.ignore_exit_key == old(self)@.ignore_exit_key,
            final(self)@.exit_key == old(self)@.exit_key,
    {
        if self.queue.len() > 0 {
            let ev = self.queue.remove(0);
            proof {
                assert(self.queue@ =~= old(self).queue@.drop_first());
            }
            Ok(Some(ev))
        } else if self.producer_alive {
            Ok(None)
        } else {
            Err(Disconnected)
        }
    }

    /// Let the host own the exit key for a while: the producer keeps
    /// running even when it observes the exit key.
    pub fn disable_exit_key(&mut self)
        ensures
            final(self)@ == (EventsModel { ignore_exit_key: true, ..old(self)@ }),
    {
        self.ignore_exit_key = true;
    }

    /// Hand the exit key back to the bridge.
    pub fn enable_exit_key(&mut self)
        ensures
            final(self)@ == (EventsModel { ignore_exit_key: false, ..old(self)@ }),
    {
        self.ignore_exit_key = false;
    }

    /// Whether the producer is still running.
    pub fn producer_alive(&self) -> (r: bool)
        ensures
            r == self@.producer_alive,
    {
        self.producer_alive
    }

    /// How many events are queued and not yet consumed.
    pub fn pending(&self) -> (r: usize)
        ensures
            r == self@.queue.len(),
    {
        self.queue.len()
    }
}

/// The terminating decision a real background poll task makes after
/// forwarding one event; the task stops exactly when this returns true.
pub fn should_stop_after(ev: &TermEvent, exit_key: Key, ignore_exit_key: bool) -> (r: bool)
    ensures
        r == stops_producer(*ev, exit_key, ignore_exit_key),
{
    !ignore_exit_key && *ev == TermEvent::Key(exit_key)
}

/// Event ordering law: delivering `e1`, `e2`, `e3` to a drained queue
/// queues them in exactly that order, so three fetches observe `e1`, then
/// `e2`, then `e3`, each fetch consuming exactly one event (see the
/// contracts of `push_event` and `next`).
pub proof fn lemma_fifo_order(e1: TermEvent, e2: TermEvent, e3: TermEvent)
    ensures
        ({
            let q = Seq::<TermEvent>::empty().push(e1).push(e2).push(e3);
            &&& q[0] == e1
            &&& q.drop_first()[0] == e2
            &&& q.drop_first().drop_first()[0] == e3
            &&& q.drop_first().drop_first().drop_first().len() == 0
        }),
{
}

/// Exit-key suppression law: with suppression on, no event stops the
/// producer — a matching key event is still delivered (`push_event` queues
/// unconditionally) and the producer keeps running.
pub proof fn lemma_suppression_keeps_producer(ev: TermEvent, exit_key: Key)
    ensures
        !stops_producer(ev, exit_key, true),
{
}

} // verus!
