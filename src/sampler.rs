use vstd::prelude::*;

verus! {

/// What to do with a raw scroll notification.
#[derive(Clone, Copy, Debug, PartialEq, Eq, Structural)]
pub enum SampleStep {
    /// The notification was captured: arm one timer for the sampler's delay.
    Armed,
    /// A timer is pending already: the notification is dropped.
    Dropped,
}

/// The sampler's state after one raw notification carrying `payload`.
pub open spec fn sample_step<T>(pending: Option<T>, payload: T) -> Option<T> {
    match pending {
        Some(p) => Some(p),
        None => Some(payload),
    }
}

/// The sampler's state after a burst of raw notifications, with no timer
/// firing in between.
pub open spec fn after_burst<T>(pending: Option<T>, burst: Seq<T>) -> Option<T>
    decreases burst.len(),
{
    if burst.len() == 0 {
        pending
    } else {
        after_burst(sample_step(pending, burst[0]), burst.drop_first())
    }
}

/// How many timers a burst of raw notifications arms.
pub open spec fn timers_armed<T>(pending: Option<T>, burst: Seq<T>) -> nat
    decreases burst.len(),
{
    if burst.len() == 0 {
        0
    } else {
        (if pending is None {
            1nat
        } else {
            0nat
        }) + timers_armed(sample_step(pending, burst[0]), burst.drop_first())
    }
}

/// Leading-edge rate limiting of scroll notifications: the first
/// notification of a cycle is held until its timer fires; the ones that come
/// meanwhile are dropped.
#[derive(Debug)]
pub struct ScrollSampler<T> {
    pending: Option<T>,
    delay_ms: u32,
}

impl<T> View for ScrollSampler<T> {
    type V = Option<T>;

    /// The captured notification, while a timer is pending.
    closed spec fn view(&self) -> Option<T> {
        self.pending
    }
}

impl<T> ScrollSampler<T> {
    /// The delay of each timer, in milliseconds.
    pub closed spec fn delay_spec(&self) -> u32 {
        self.delay_ms
    }

    /// An idle sampler whose timers last `delay_ms` milliseconds.
    pub fn new(delay_ms: u32) -> (s: ScrollSampler<T>)
        ensures
            s@ is None,
            s.delay_spec() == delay_ms,
    {
        ScrollSampler { pending: None, delay_ms }
    }

    /// The delay of each timer, in milliseconds.
    pub fn delay_ms(&self) -> (r: u32)
        ensures
            r == self.delay_spec(),
    {
        self.delay_ms
    }

    /// Whether a timer is pending.
    pub fn is_pending(&self) -> (r: bool)
        ensures
            r == self@ is Some,
    {
        self.pending.is_some()
    }

    /// Takes a raw notification: captures it and asks for a timer where none
    /// is pending, and drops it otherwise.
    pub fn on_raw(&mut self, payload: T) -> (r: SampleStep)
        ensures
            final(self)@ == sample_step(old(self)@, payload),
            final(self).delay_spec() == old(self).delay_spec(),
            r == (if old(self)@ is None {
                SampleStep::Armed
            } else {
                SampleStep::Dropped
            }),
    {
        if self.pending.is_some() {
            SampleStep::Dropped
        } else {
            self.pending = Some(payload);
            SampleStep::Armed
        }
    }

    /// The timer fired: hands out the captured notification, if any, and
    /// lets the next one start a new cycle.
    pub fn on_timer(&mut self) -> (r: Option<T>)
        ensures
            r == old(self)@,
            final(self)@ is None,
            final(self).delay_spec() == old(self).delay_spec(),
    {
        self.pending.take()
    }
}

proof fn lemma_burst_while_pending<T>(p: T, burst: Seq<T>)
    ensures
        after_burst(Some(p), burst) == Some(p),
        timers_armed(Some(p), burst) == 0,
    decreases burst.len(),
{
    if burst.len() > 0 {
        lemma_burst_while_pending(p, burst.drop_first());
    }
}

/// A burst of raw notifications that reaches an idle sampler arms exactly one
/// timer, and that timer hands out the burst's first notification.
pub proof fn lemma_burst_emits_first<T>(burst: Seq<T>)
    requires
        burst.len() > 0,
    ensures
        after_burst(None, burst) == Some(burst[0]),
        timers_armed(None, burst) == 1,
{
    lemma_burst_while_pending(burst[0], burst.drop_first());
}

} // verus!
