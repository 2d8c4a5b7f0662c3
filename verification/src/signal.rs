//! The failure-signal protocol of the realtime event bridge.
//!
//! The realtime transport is callback-driven and delivers events on a thread
//! the bridge does not control, while the rest of the process is structured
//! as cooperatively-scheduled tasks.  The bridge therefore shares one owned
//! flag between the transport's failure callback and a single blocking
//! waiter: the callback records the first failure exactly once and wakes the
//! waiter; the waiter re-checks the flag after every wakeup, so a spurious
//! wakeup never lets it proceed.  Once the wait resolves, the outcome is
//! unconditionally terminal: the bridge reports a `StreamError` carrying the
//! recorded failure.
//!
//! This module holds the protocol's decisions; the mutual exclusion and the
//! wait/notify primitive that carry them across threads live outside the
//! verified core and call in here under their lock.

use vstd::prelude::*;
use crate::errors::BridgeError;

verus! {

/// The shared failure flag: `None` until the first failure is recorded, then
/// `Some(message)` for the rest of the bridge's lifetime.  Write-once in
/// practice: the first failure wins, and later callbacks are idempotent.
pub struct FailureSignal {
    pub failure: Option<String>,
}

impl View for FailureSignal {
    type V = Option<Seq<char>>;

    open spec fn view(&self) -> Option<Seq<char>> {
        match self.failure {
            Some(m) => Some(m@),
            None => None,
        }
    }
}

/// One observable occurrence at the failure-signal primitive.
pub ghost enum SignalEvent {
    /// The transport's failure callback runs, carrying this message.
    Failure(Seq<char>),
    /// The waiter is woken without a notification (a spurious wakeup).
    SpuriousWake,
}

/// How one occurrence changes the flag: the first failure sets it, every
/// later occurrence leaves it unchanged.
pub open spec fn apply_event(state: Option<Seq<char>>, e: SignalEvent) -> Option<Seq<char>> {
    match e {
        SignalEvent::Failure(m) => if state is Some {
            state
        } else {
            Some(m)
        },
        SignalEvent::SpuriousWake => state,
    }
}

/// The flag after a whole history of occurrences, starting from the fresh
/// (unset) flag.
pub open spec fn run_signal(events: Seq<SignalEvent>) -> Option<Seq<char>>
    decreases events.len(),
{
    if events.len() == 0 {
        None
    } else {
        apply_event(run_signal(events.drop_last()), events.last())
    }
}

/// The message of the first failure in a history, if there is one.
pub open spec fn first_failure(events: Seq<SignalEvent>) -> Option<Seq<char>>
    decreases events.len(),
{
    if events.len() == 0 {
        None
    } else if events[0] is Failure {
        Some(events[0]->Failure_0)
    } else {
        first_failure(events.subrange(1, events.len() as int))
    }
}

impl FailureSignal {
    /// Whether a failure has been recorded.
    pub open spec fn failed(&self) -> bool {
        self@ is Some
    }

    /// The recorded failure message.
    pub open spec fn message(&self) -> Seq<char>
        recommends
            self.failed(),
    {
        self@->Some_0
    }

    /// A fresh flag: no failure recorded yet.
    pub fn new() -> (r: Self)
        ensures
            !r.failed(),
    {
        FailureSignal { failure: None }
    }

    /// The failure callback's decision: record the first failure and leave
    /// the flag unchanged on every later call.  Total — a repeated callback
    /// is a possible race and must not panic the process.
    pub fn record_failure(&mut self, message: String)
        ensures
            final(self)@ == apply_event(old(self)@, SignalEvent::Failure(message@)),
            final(self).failed(),
            !old(self).failed() ==> final(self).message() == message@,
            old(self).failed() ==> final(self)@ == old(self)@,
    {
        if self.failure.is_none() {
            self.failure = Some(message);
        }
    }

    /// The waiter's loop condition: keep waiting exactly while no failure
    /// has been recorded, whatever woke the waiter up.
    pub fn should_keep_waiting(&self) -> (r: bool)
        ensures
            r == !self.failed(),
    {
        self.failure.is_none()
    }

    /// The bridge's outcome once the blocking wait has resolved: there is no
    /// non-error exit from streaming, so the wait's resolution is always a
    /// `StreamError` carrying the recorded failure.
    pub fn stream_verdict(&self) -> (r: Result<(), BridgeError>)
        requires
            self.failed(),
        ensures
            r matches Err(e) && e is StreamError && e.message_spec() == self.message(),
    {
        match &self.failure {
            Some(m) => Err(BridgeError::StreamError(m.clone())),
            None => unreached(),
        }
    }
}

/// How the first failure of a history relates to the history one occurrence
/// shorter: an early failure stays the first one.
proof fn lemma_first_failure_push(events: Seq<SignalEvent>, e: SignalEvent)
    ensures
        first_failure(events.push(e)) == (if first_failure(events) is Some {
            first_failure(events)
        } else if e is Failure {
            Some(e->Failure_0)
        } else {
            None::<Seq<char>>
        }),
    decreases events.len(),
{
    if events.len() == 0 {
        assert(events.push(e)[0] == e);
        assert(events.push(e).subrange(1, 1) =~= Seq::<SignalEvent>::empty());
    } else {
        let tail = events.subrange(1, events.len() as int);
        assert(events.push(e)[0] == events[0]);
        assert(events.push(e).subrange(1, events.len() as int + 1) =~= tail.push(e));
        lemma_first_failure_push(tail, e);
        if events[0] is Failure {
            assert(first_failure(events.push(e)) == Some(events[0]->Failure_0));
            assert(first_failure(events) == Some(events[0]->Failure_0));
        } else {
            assert(first_failure(events.push(e)) == first_failure(tail.push(e)));
            assert(first_failure(events) == first_failure(tail));
        }
    }
}

/// The law of the failure-signal primitive.  After any history of callback
/// runs and wakeups, the flag holds the first failure's message: if the
/// failure callback ran at least once the waiter is released with that first
/// message (and the bridge then reports exactly one `StreamError`), and if
/// it never ran — however many spurious wakeups occurred — the flag is still
/// unset and the waiter keeps waiting.
pub proof fn lemma_signal_holds_first_failure(events: Seq<SignalEvent>)
    ensures
        run_signal(events) == first_failure(events),
        run_signal(events) is Some <==> exists|i: int|
            0 <= i < events.len() && events[i] is Failure,
    decreases events.len(),
{
    if events.len() == 0 {
    } else {
        let prefix = events.drop_last();
        lemma_signal_holds_first_failure(prefix);
        assert(events =~= prefix.push(events.last()));
        lemma_first_failure_push(prefix, events.last());
        if run_signal(events) is Some {
            if run_signal(prefix) is Some {
                let i = choose|i: int| 0 <= i < prefix.len() && prefix[i] is Failure;
                assert(events[i] is Failure);
            } else {
                assert(events[events.len() - 1] is Failure);
            }
        }
        if exists|i: int| 0 <= i < events.len() && events[i] is Failure {
            let i = choose|i: int| 0 <= i < events.len() && events[i] is Failure;
            if i < events.len() - 1 {
                assert(prefix[i] is Failure);
            }
        }
    }
}

} // verus!
