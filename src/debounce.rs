use vstd::prelude::*;

verus! {

/// An event that a debounced actor understands.
///
/// An event either asks for a quiescence window (`Some(ms)`), in which case
/// later events of the same family may coalesce with it, or asks to act at
/// once (`None`).
pub trait DebouncedEvent: Sized {
    spec fn delay_spec(&self) -> Option<u64>;

    fn delay(&self) -> (r: Option<u64>)
        ensures
            r == self.delay_spec(),
    ;
}

/// What the actor's loop hands to the state machine: a received event with
/// the time it arrived, a wake-up of its timer, or the closing of its channel.
/// Times are milliseconds on a clock that never runs backwards.
pub enum Input<E> {
    Event { event: E, now: u64 },
    Tick { now: u64 },
    Closed,
}

/// What the loop must do after one input: run the effect on each event of
/// `effects`, in order; then sleep until `wake_at` (or until the next
/// message); or end when `stop` is set.
pub struct Outcome<E> {
    pub effects: Vec<E>,
    pub wake_at: Option<u64>,
    pub stop: bool,
}

/// The coalescing state of one actor: the latest event that waits for its
/// window to pass, the instant at which the window ends, and whether the
/// channel has closed.
///
/// Coalescing replaces: an event that asks for a window takes the place of
/// the pending one and restarts the timer from its own arrival with its own
/// delay. An event that asks for no window runs at once and cancels what was
/// pending. An event whose window has already ended when the next input comes
/// runs first, so nothing is lost to a late wake-up.
pub struct Debouncer<E> {
    pub pending: Option<E>,
    pub deadline: u64,
    pub closed: bool,
}

/// `now + delay`, held at the clock's largest value.
pub open spec fn deadline_from(now: u64, delay: u64) -> u64 {
    if now + delay <= u64::MAX {
        (now + delay) as u64
    } else {
        u64::MAX
    }
}

pub open spec fn idle<E>() -> Debouncer<E> {
    Debouncer { pending: None, deadline: 0, closed: false }
}

pub open spec fn shut<E>() -> Debouncer<E> {
    Debouncer { pending: None, deadline: 0, closed: true }
}

/// The pending event's window has passed at `now`.
pub open spec fn is_due<E>(s: Debouncer<E>, now: u64) -> bool {
    s.pending is Some && s.deadline <= now
}

/// The pending event, if its window has passed at `now`.
pub open spec fn due_effects<E>(s: Debouncer<E>, now: u64) -> Seq<E> {
    match s.pending {
        Some(p) => if s.deadline <= now { seq![p] } else { seq![] },
        None => seq![],
    }
}

/// One transition: the next state, the effects to run, the instant to wake
/// at, and whether the loop ends.
pub open spec fn step_spec<E: DebouncedEvent>(s: Debouncer<E>, i: Input<E>) -> (
    Debouncer<E>,
    Seq<E>,
    Option<u64>,
    bool,
) {
    if s.closed {
        (shut(), seq![], None, true)
    } else {
        match i {
            Input::Closed => (shut(), seq![], None, true),
            Input::Tick { now } => if is_due(s, now) {
                (idle(), due_effects(s, now), None, false)
            } else {
                (s, seq![], if s.pending is Some { Some(s.deadline) } else { None }, false)
            },
            Input::Event { event, now } => match event.delay_spec() {
                Some(d) => (
                    Debouncer { pending: Some(event), deadline: deadline_from(now, d), closed: false },
                    due_effects(s, now),
                    Some(deadline_from(now, d)),
                    false,
                ),
                None => (idle(), due_effects(s, now).push(event), None, false),
            },
        }
    }
}

/// The state after a run of inputs, and every effect run along the way.
pub open spec fn run_spec<E: DebouncedEvent>(s: Debouncer<E>, inputs: Seq<Input<E>>) -> (
    Debouncer<E>,
    Seq<E>,
) 
    decreases inputs.len(),
{
    if inputs.len() == 0 {
        (s, seq![])
    } else {
        let st = step_spec(s, inputs[0]);
        let rest = run_spec(st.0, inputs.subrange(1, inputs.len() as int));
        (rest.0, st.1 + rest.1)
    }
}

impl<E: DebouncedEvent> Debouncer<E> {
    pub open spec fn wf(&self) -> bool {
        self.closed ==> self.pending is None
    }

    /// A state with nothing pending and the channel open.
    pub fn new() -> (r: Self)
        ensures
            r == idle::<E>(),
    {
        Debouncer { pending: None, deadline: 0, closed: false }
    }

    /// Takes one input and says what the loop does next. After the channel
    /// closes, nothing more runs and every input asks the loop to stop.
    pub fn step(&mut self, input: Input<E>) -> (r: Outcome<E>)
        ensures
            (*final(self), r.effects@, r.wake_at, r.stop) == step_spec(*old(self), input),
            final(self).wf(),
    {
        if self.closed {
            self.pending = None;
            self.deadline = 0;
            return Outcome { effects: Vec::new(), wake_at: None, stop: true };
        }
        match input {
            Input::Closed => {
                self.pending = None;
                self.deadline = 0;
                self.closed = true;
                Outcome { effects: Vec::new(), wake_at: None, stop: true }
            },
            Input::Tick { now } => {
                if self.pending.is_some() && self.deadline <= now {
                    let effects = self.take_due(now);
                    Outcome { effects, wake_at: None, stop: false }
                } else {
                    let wake_at = if self.pending.is_some() { Some(self.deadline) } else { None };
                    Outcome { effects: Vec::new(), wake_at, stop: false }
                }
            },
            Input::Event { event, now } => {
                let mut effects = self.take_due(now);
                match event.delay() {
                    Some(d) => {
                        let deadline: u64 = if d <= u64::MAX - now { now + d } else { u64::MAX };
                        self.pending = Some(event);
                        self.deadline = deadline;
                        Outcome { effects, wake_at: Some(deadline), stop: false }
                    },
                    None => {
                        effects.push(event);
                        Outcome { effects, wake_at: None, stop: false }
                    },
                }
            },
        }
    }

    /// Hands out the pending event if its window has passed at `now`, and
    /// leaves nothing pending.
    fn take_due(&mut self, now: u64) -> (r: Vec<E>)
        requires
            !old(self).closed,
        ensures
            r@ == due_effects(*old(self), now),
            *final(self) == idle::<E>(),
    {
        let mut r: Vec<E> = Vec::new();
        let mut pending: Option<E> = None;
        std::mem::swap(&mut pending, &mut self.pending);
        match pending {
            Some(p) => {
                if self.deadline <= now {
                    r.push(p);
                }
            },
            None => {},
        }
        self.deadline = 0;
        proof {
            assert(r@ =~= due_effects(*old(self), now));
        }
        r
    }
}

} // verus!
