use vstd::prelude::*;

verus! {

/// Kinds of scheduled events.
#[derive(Debug, PartialEq, Eq, Structural, Copy, Clone)]
pub enum EventType {
    RunLimitReached,
    Gpu(GpuEvent),
    Apu(ApuEvent),
    DmaActivateChannel(usize),
    TimerOverflow(usize),
}

/// Display events.
#[derive(Debug, PartialEq, Eq, Structural, Copy, Clone)]
pub enum GpuEvent {
    HDraw,
    HBlank,
    VBlankHDraw,
    VBlankHBlank,
}

/// Sound events.
#[derive(Debug, PartialEq, Eq, Structural, Copy, Clone)]
pub enum ApuEvent {
    Sample,
}

/// An event due at `time`, which a cancellation turns into a no-op.
#[derive(Debug, Clone, Copy)]
pub struct Event {
    pub ty: EventType,
    pub time: usize,
    pub cancel: bool,
}

impl Event {
    pub fn new(ty: EventType, time: usize) -> (r: Event)
        ensures
            r == (Event { ty, time, cancel: false }),
    {
        Event { ty, time, cancel: false }
    }

    pub fn get_type(&self) -> (r: EventType)
        ensures
            r == self.ty,
    {
        self.ty
    }

    pub fn is_canceled(&self) -> (r: bool)
        ensures
            r == self.cancel,
    {
        self.cancel
    }
}

/// `t` is the earliest time among the events `s`.
pub open spec fn is_min_time(s: Seq<Event>, t: usize) -> bool {
    &&& exists|i: int| 0 <= i < s.len() && s[i].time == t
    &&& forall|j: int| 0 <= j < s.len() ==> t <= #[trigger] s[j].time
}

/// Index of an event with the earliest time among the first `n` of `s`.
pub open spec fn min_index(s: Seq<Event>, n: int) -> int
    decreases n,
{
    if n <= 1 {
        0
    } else {
        let m = min_index(s, n - 1);
        if s[n - 1].time < s[m].time { n - 1 } else { m }
    }
}

proof fn lemma_min_index(s: Seq<Event>, n: int)
    requires
        1 <= n <= s.len(),
    ensures
        0 <= min_index(s, n) < n,
        forall|j: int| 0 <= j < n ==> s[min_index(s, n)].time <= #[trigger] s[j].time,
    decreases n,
{
    if n > 1 {
        lemma_min_index(s, n - 1);
    }
}

/// The event queue and the current time, in cycles.
#[derive(Debug, Clone)]
pub struct Scheduler {
    pub timestamp: usize,
    pub events: Vec<Event>,
}

impl Scheduler {
    pub fn new() -> (r: Self)
        ensures
            r.timestamp == 0,
            r.events@ == Seq::<Event>::empty(),
    {
        Self { timestamp: 0, events: Vec::new() }
    }

    pub fn timestamp(&self) -> (r: usize)
        ensures
            r == self.timestamp,
    {
        self.timestamp
    }

    /// Index of an event due first.
    fn next_index(&self) -> (r: usize)
        requires
            self.events.len() > 0,
        ensures
            r < self.events.len(),
            is_min_time(self.events@, self.events@[r as int].time),
    {
        let mut m: usize = 0;
        let mut i: usize = 1;
        while i < self.events.len()
            invariant
                1 <= i <= self.events.len(),
                m < i,
                forall|j: int| 0 <= j < i ==> self.events@[m as int].time <= #[trigger] self.events@[j].time,
            decreases self.events.len() - i,
        {
            if self.events[i].time < self.events[m].time {
                m = i;
            }
            i = i + 1;
        }
        m
    }

    /// Time of the event due first.
    pub fn timestamp_of_next_event(&self) -> (r: usize)
        requires
            self.events.len() > 0,
        ensures
            is_min_time(self.events@, r),
    {
        let i = self.next_index();
        self.events[i].time
    }

    /// Schedules an event of kind `ty` in `cycles` cycles.
    pub fn push(&mut self, ty: EventType, cycles: usize)
        requires
            old(self).timestamp + cycles <= usize::MAX,
        ensures
            final(self).timestamp == old(self).timestamp,
            final(self).events@ == old(self).events@.push(Event { ty, time: (old(self).timestamp + cycles) as usize, cancel: false }),
    {
        let event = Event::new(ty, self.timestamp + cycles);
        self.events.push(event)
    }

    /// Schedules a display event in `cycles` cycles.
    pub fn push_gpu_event(&mut self, e: GpuEvent, cycles: usize)
        requires
            old(self).timestamp + cycles <= usize::MAX,
        ensures
            final(self).timestamp == old(self).timestamp,
            final(self).events@ == old(self).events@.push(
                Event { ty: EventType::Gpu(e), time: (old(self).timestamp + cycles) as usize, cancel: false },
            ),
    {
        self.push(EventType::Gpu(e), cycles);
    }

    /// Takes an event that is due: one with the earliest time, if that time has come.
    /// A cancelled event is dropped and gives `None`; otherwise its kind and how many
    /// cycles late it is come back.
    pub fn pop_pending_event(&mut self) -> (r: Option<(EventType, usize)>)
        ensures
            final(self).timestamp == old(self).timestamp,
            old(self).events.len() == 0 ==> r is None && final(self).events@ == old(self).events@,
            old(self).events.len() > 0 ==> exists|k: int| {
                &&& 0 <= k < old(self).events.len()
                &&& is_min_time(old(self).events@, #[trigger] old(self).events@[k].time)
                &&& if old(self).timestamp >= old(self).events@[k].time {
                    &&& final(self).events@ == old(self).events@.remove(k)
                    &&& r == if old(self).events@[k].cancel {
                        None
                    } else {
                        Some((old(self).events@[k].ty, (old(self).timestamp - old(self).events@[k].time) as usize))
                    }
                } else {
                    r is None && final(self).events@ == old(self).events@
                }
            },
    {
        if self.events.len() == 0 {
            return None;
        }
        let i = self.next_index();
        let ghost k = i as int;
        if self.timestamp >= self.events[i].time {
            let event = self.events.remove(i);
            assert(event == old(self).events@[k]);
            if !event.is_canceled() {
                Some((event.get_type(), self.timestamp - event.time))
            } else {
                None
            }
        } else {
            None
        }
    }

    /// Cycles until the event due first (0 without events).
    pub fn get_cycles_to_next_event(&self) -> (r: usize)
        requires
            forall|j: int| 0 <= j < self.events.len() ==> self.timestamp <= #[trigger] self.events@[j].time,
        ensures
            self.events.len() == 0 ==> r == 0,
            self.timestamp + r <= usize::MAX,
            self.events.len() > 0 ==> is_min_time(self.events@, (self.timestamp + r) as usize),
    {
        if self.events.len() > 0 {
            let i = self.next_index();
            self.events[i].time - self.timestamp
        } else {
            0
        }
    }

    /// Advances the time to the event due first.
    pub fn fast_forward_to_next(&mut self)
        requires
            forall|j: int| 0 <= j < old(self).events.len() ==> old(self).timestamp <= #[trigger] old(self).events@[j].time,
        ensures
            final(self).events@ == old(self).events@,
            old(self).events.len() == 0 ==> final(self).timestamp == old(self).timestamp,
            old(self).events.len() > 0 ==> is_min_time(old(self).events@, final(self).timestamp),
    {
        let c = self.get_cycles_to_next_event();
        self.timestamp = self.timestamp + c;
    }

    /// Advances the time by `cycles`.
    pub fn update(&mut self, cycles: usize)
        requires
            old(self).timestamp + cycles <= usize::MAX,
        ensures
            final(self).timestamp == old(self).timestamp + cycles,
            final(self).events@ == old(self).events@,
    {
        self.timestamp = self.timestamp + cycles;
    }

    /// Cancels every scheduled event of kind `ty`.
    pub fn cancel(&mut self, ty: EventType)
        ensures
            final(self).timestamp == old(self).timestamp,
            final(self).events.len() == old(self).events.len(),
            forall|j: int| 0 <= j < old(self).events.len() ==> #[trigger] final(self).events@[j] == if old(
                self,
            ).events@[j].ty == ty {
                Event { cancel: true, ..old(self).events@[j] }
            } else {
                old(self).events@[j]
            },
    {
        let mut i: usize = 0;
        while i < self.events.len()
            invariant
                i <= self.events.len(),
                self.events.len() == old(self).events.len(),
                self.timestamp == old(self).timestamp,
                forall|j: int| 0 <= j < self.events.len() ==> #[trigger] self.events@[j] == if j < i && old(
                    self,
                ).events@[j].ty == ty {
                    Event { cancel: true, ..old(self).events@[j] }
                } else {
                    old(self).events@[j]
                },
            decreases self.events.len() - i,
        {
            if self.events[i].ty == ty {
                let e = Event { cancel: true, ..self.events[i] };
                self.events.set(i, e);
            }
            i = i + 1;
        }
    }
}

impl Default for Scheduler {
    fn default() -> (r: Self)
        ensures
            r.timestamp == 0,
            r.events@ == Seq::<Event>::empty(),
    {
        Self::new()
    }
}

/// Events come out in time order: a popped event is due no later than any event left.
pub proof fn law_pop_in_time_order(before: Seq<Event>, k: int, j: int)
    requires
        0 <= k < before.len(),
        is_min_time(before, before[k].time),
        0 <= j < before.remove(k).len(),
    ensures
        before[k].time <= before.remove(k)[j].time,
{
    if j < k {
        assert(before.remove(k)[j] == before[j]);
    } else {
        assert(before.remove(k)[j] == before[j + 1]);
    }
}

/// Cancelling a kind keeps every event's kind and time, and leaves no event of that
/// kind uncancelled: what a later pop delivers is of another kind.
pub proof fn law_cancel_silences_kind(before: Seq<Event>, after: Seq<Event>, ty: EventType)
    requires
        after.len() == before.len(),
        forall|j: int| 0 <= j < before.len() ==> #[trigger] after[j] == if before[j].ty == ty {
            Event { cancel: true, ..before[j] }
        } else {
            before[j]
        },
    ensures
        forall|j: int|
            0 <= j < after.len() ==> #[trigger] after[j].ty == before[j].ty && after[j].time == before[j].time && (
            !after[j].cancel ==> after[j].ty != ty),
{
}

} // verus!
