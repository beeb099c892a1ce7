//! TSC time base and the alarm table behind the embassy time driver.
//!
//! Time is counted in microseconds: TSC ticks divided by the calibrated
//! ticks per microsecond. Alarms are kept in a fixed table of deadlines;
//! the wakers that go with them are held by the caller at the same slot
//! positions.
use vstd::prelude::*;
use crate::apic::{LocalApic, valid_divider, divider_code, APIC_TIMER_DIV, APIC_LVT_TIMER, APIC_TIMER_INIT_CNT, APIC_TIMER_PERIODIC};
use crate::regs::RegWrite;

verus! {

/// Alarm slots of the APIC-timer driver.
pub const MAX_ALARMS: usize = 8;

/// IDT vector used for the APIC periodic timer.
pub const APIC_TIMER_VECTOR: u8 = 32;

/// IDT vector used for the spurious interrupt handler.
pub const SPURIOUS_VECTOR: u8 = 39;

/// Divider of the APIC timer used by the runtime.
pub const APIC_TIMER_DIVIDER: u8 = 16;

/// PIT input clock.
pub const PIT_FREQ_HZ: u64 = 1_193_182;

/// TSC calibration: ticks per microsecond.
pub struct TscClock {
    pub tsc_per_us: u64,
}

impl TscClock {
    /// Clock before calibration, assuming `tsc_per_us` ticks per microsecond.
    pub fn new(tsc_per_us: u64) -> (c: Self)
        ensures
            c.tsc_per_us == tsc_per_us,
    {
        TscClock { tsc_per_us }
    }

    /// Set the TSC calibration value.
    pub fn set_tsc_per_us(&mut self, tsc_per_us: u64)
        ensures
            final(self).tsc_per_us == tsc_per_us,
    {
        self.tsc_per_us = tsc_per_us;
    }

    /// Microseconds at TSC value `tsc`.
    pub fn now(&self, tsc: u64) -> (us: u64)
        requires
            self.tsc_per_us > 0,
        ensures
            us == tsc / self.tsc_per_us,
    {
        tsc / self.tsc_per_us
    }
}

/// Time never runs backwards: a later TSC reading gives a later (or the
/// same) microsecond count.
pub proof fn lemma_now_monotonic(tsc_per_us: u64, t1: u64, t2: u64)
    requires
        tsc_per_us > 0,
        t1 <= t2,
    ensures
        t1 / tsc_per_us <= t2 / tsc_per_us,
{
    assert(t1 / tsc_per_us <= t2 / tsc_per_us) by (nonlinear_arith)
        requires
            tsc_per_us > 0,
            t1 <= t2,
    ;
}

/// Microseconds a PIT one-shot of `count` input clocks lasts (rounded down).
pub fn pit_expected_us(count: u16) -> (us: u64)
    ensures
        us == (count as int) * 1_000_000 / (PIT_FREQ_HZ as int),
{
    (count as u64 * 1_000_000) / PIT_FREQ_HZ
}

/// TSC ticks per microsecond measured over `elapsed_us` microseconds.
pub fn calibrate_tsc_per_us(tsc_elapsed: u64, elapsed_us: u64) -> (r: u64)
    requires
        elapsed_us > 0,
    ensures
        r == tsc_elapsed / elapsed_us,
{
    tsc_elapsed / elapsed_us
}

/// APIC timer initial count for a period of `period_us` microseconds at
/// the runtime's divider of 16 (truncated to 32 bits).
pub open spec fn apic_timer_count_spec(tsc_per_us: u64, period_us: u32) -> u32 {
    ((tsc_per_us * period_us) / 16) as u32
}

/// Start the APIC periodic timer: vector 32, divider 16, one interrupt
/// every `period_us` microseconds.
pub fn start_apic_timer(lapic: &mut LocalApic, tsc_per_us: u64, period_us: u32) -> (w: Vec<RegWrite>)
    requires
        tsc_per_us * period_us <= u64::MAX,
    ensures
        final(lapic).base == old(lapic).base,
        w@ == seq![
            RegWrite { offset: APIC_TIMER_DIV, value: divider_code(16) },
            RegWrite { offset: APIC_LVT_TIMER, value: APIC_TIMER_PERIODIC | (APIC_TIMER_VECTOR as u32) },
            RegWrite { offset: APIC_TIMER_INIT_CNT, value: apic_timer_count_spec(tsc_per_us, period_us) },
        ],
{
    let count = #[verifier::truncate] (((tsc_per_us * period_us as u64) / 16) as u32);
    lapic.set_timer_periodic(APIC_TIMER_VECTOR, APIC_TIMER_DIVIDER, count)
}

/// What scheduling an alarm did.
#[derive(Debug, Clone, Copy, PartialEq, Eq, Structural)]
pub enum Schedule {
    /// The deadline has passed, or no slot is free: wake the task now.
    WakeNow,
    /// The task's existing alarm in this slot was moved to the new deadline.
    Updated(usize),
    /// The alarm was placed in this (previously free) slot.
    Inserted(usize),
}

/// Fixed table of alarm deadlines (microseconds); `None` marks a free slot.
pub struct AlarmTable {
    pub slots: Vec<Option<u64>>,
}

/// Slots after expiring the alarms due at `now`: every deadline at or
/// before `now` frees its slot, the others stay.
pub open spec fn expire_spec(slots: Seq<Option<u64>>, now: u64) -> Seq<Option<u64>> {
    Seq::new(
        slots.len(),
        |i: int|
            match slots[i] {
                Some(at) => if at <= now {
                    None
                } else {
                    Some(at)
                },
                None => None,
            },
    )
}

/// `matching` names an occupied slot of `slots`.
pub open spec fn names_alarm(slots: Seq<Option<u64>>, matching: Option<usize>) -> bool {
    matching matches Some(i) && i < slots.len() && slots[i as int] is Some
}

/// Scheduling a wake-up at `at`, at time `now`, on `before` answered `s`
/// and left `after`: a past deadline wakes now and changes nothing; an
/// existing alarm of the task is moved; otherwise the first free slot takes
/// it; with no free slot the task is woken now.
pub open spec fn schedule_outcome(
    before: Seq<Option<u64>>,
    at: u64,
    now: u64,
    matching: Option<usize>,
    s: Schedule,
    after: Seq<Option<u64>>,
) -> bool {
    &&& after.len() == before.len()
    &&& at <= now ==> s == Schedule::WakeNow && after == before
    &&& at > now && names_alarm(before, matching) ==> s == Schedule::Updated(matching->0) && after == before.update(
        matching->0 as int,
        Some(at),
    )
    &&& at > now && !names_alarm(before, matching) ==> match s {
        Schedule::Inserted(j) => {
            &&& j < before.len()
            &&& before[j as int] is None
            &&& forall|k: int| 0 <= k < j ==> before[k] is Some
            &&& after == before.update(j as int, Some(at))
        },
        Schedule::WakeNow => {
            &&& forall|k: int| 0 <= k < before.len() ==> before[k] is Some
            &&& after == before
        },
        Schedule::Updated(_) => false,
    }
}

/// A scheduled alarm fires at its deadline: once `schedule_wake` has put
/// the deadline `at` in a slot, a tick at `t` frees that slot exactly when
/// `t >= at`, and the other slots are those of the table before, expired
/// alike. A wake-now answer leaves the table as it was.
pub proof fn lemma_scheduled_alarm_fires_at_deadline(
    before: Seq<Option<u64>>,
    at: u64,
    now: u64,
    matching: Option<usize>,
    s: Schedule,
    after: Seq<Option<u64>>,
    t: u64,
)
    requires
        schedule_outcome(before, at, now, matching, s, after),
    ensures
        s == Schedule::WakeNow ==> after == before,
        s matches Schedule::Updated(j) ==> j < after.len() && expire_spec(after, t)[j as int] == (if at <= t {
            None::<u64>
        } else {
            Some(at)
        }),
        s matches Schedule::Inserted(j) ==> j < after.len() && expire_spec(after, t)[j as int] == (if at <= t {
            None::<u64>
        } else {
            Some(at)
        }),
        forall|k: int|
            0 <= k < after.len() && !(s matches Schedule::Updated(j) && k == j) && !(s matches Schedule::Inserted(
                j,
            ) && k == j) ==> #[trigger] expire_spec(after, t)[k] == expire_spec(before, t)[k],
{
}

impl AlarmTable {
    /// Table of `n` free slots.
    pub fn new(n: usize) -> (t: Self)
        ensures
            t.slots@.len() == n,
            forall|i: int| 0 <= i < n ==> #[trigger] t.slots@[i] is None,
    {
        let mut slots: Vec<Option<u64>> = Vec::new();
        let mut i: usize = 0;
        while i < n
            invariant
                i <= n,
                slots@.len() == i,
                forall|k: int| 0 <= k < i ==> #[trigger] slots@[k] is None,
            decreases n - i,
        {
            slots.push(None);
            i = i + 1;
        }
        AlarmTable { slots }
    }

    /// Schedule a wake-up at `at` for a task, at time `now`. `matching` is
    /// the first occupied slot whose waker wakes the same task (found by
    /// the caller among its wakers), if any. A past deadline wakes now;
    /// an existing alarm of the task is moved; otherwise the first free
    /// slot takes it; with no free slot the task is woken now.
    pub fn schedule_wake(&mut self, at: u64, now: u64, matching: Option<usize>) -> (s: Schedule)
        ensures
            schedule_outcome(old(self).slots@, at, now, matching, s, final(self).slots@),
    {
        if at <= now {
            return Schedule::WakeNow;
        }
        match matching {
            Some(i) => {
                if i < self.slots.len() && self.slots[i].is_some() {
                    self.slots.set(i, Some(at));
                    return Schedule::Updated(i);
                }
            },
            None => {},
        }
        let mut j: usize = 0;
        while j < self.slots.len()
            invariant
                j <= self.slots@.len(),
                self.slots@ == old(self).slots@,
                at > now,
                !(matching matches Some(i) && i < old(self).slots@.len() && old(self).slots@[i as int] is Some),
                forall|k: int| 0 <= k < j ==> self.slots@[k] is Some,
            decreases self.slots@.len() - j,
        {
            if self.slots[j].is_none() {
                self.slots.set(j, Some(at));
                return Schedule::Inserted(j);
            }
            j = j + 1;
        }
        Schedule::WakeNow
    }

    /// Expire the alarms due at `now`: their slots are freed and returned
    /// in increasing order, so the caller wakes the wakers kept there.
    pub fn on_timer_tick(&mut self, now: u64) -> (expired: Vec<usize>)
        ensures
            final(self).slots@ == expire_spec(old(self).slots@, now),
            forall|k: int| 0 <= k < expired@.len() ==> #[trigger] expired@[k] < old(self).slots@.len(),
            forall|k: int|
                0 <= k < expired@.len() ==> (old(self).slots@[#[trigger] expired@[k] as int] matches Some(at) && at
                    <= now),
            forall|k1: int, k2: int| 0 <= k1 < k2 < expired@.len() ==> expired@[k1] < expired@[k2],
            forall|i: int|
                0 <= i < old(self).slots@.len() && (#[trigger] old(self).slots@[i] matches Some(at) && at <= now)
                    ==> expired@.contains(i as usize),
    {
        let mut expired: Vec<usize> = Vec::new();
        let mut i: usize = 0;
        while i < self.slots.len()
            invariant
                i <= self.slots@.len(),
                self.slots@.len() == old(self).slots@.len(),
                forall|k: int| i <= k < self.slots@.len() ==> self.slots@[k] == old(self).slots@[k],
                forall|k: int|
                    0 <= k < i ==> #[trigger] self.slots@[k] == (match old(self).slots@[k] {
                        Some(at) => if at <= now {
                            None
                        } else {
                            Some(at)
                        },
                        None => None,
                    }),
                forall|m: int| 0 <= m < expired@.len() ==> #[trigger] expired@[m] < i,
                forall|m: int|
                    0 <= m < expired@.len() ==> (old(self).slots@[#[trigger] expired@[m] as int] matches Some(at) && at
                        <= now),
                forall|m1: int, m2: int| 0 <= m1 < m2 < expired@.len() ==> expired@[m1] < expired@[m2],
                forall|k: int|
                    0 <= k < i && (#[trigger] old(self).slots@[k] matches Some(at) && at <= now) ==> expired@.contains(
                        k as usize,
                    ),
            decreases self.slots@.len() - i,
        {
            match self.slots[i] {
                Some(at) => {
                    if at <= now {
                        self.slots.set(i, None);
                        let ghost before = expired@;
                        expired.push(i);
                        proof {
                            assert forall|k: int|
                                0 <= k < i + 1 && (#[trigger] old(self).slots@[k] matches Some(a) && a <= now) implies expired@.contains(
                                k as usize,
                            ) by {
                                if k < i {
                                    assert(before.contains(k as usize));
                                    let w = choose|w: int| 0 <= w < before.len() && before[w] == k as usize;
                                    assert(expired@[w] == k as usize);
                                } else {
                                    assert(expired@[before.len() as int] == i);
                                }
                            }
                        }
                    }
                },
                None => {},
            }
            i = i + 1;
        }
        assert(self.slots@ =~= expire_spec(old(self).slots@, now));
        expired
    }
}

} // verus!
