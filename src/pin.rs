//! The shared "pinned" flag.

use std::sync::atomic::AtomicBool;
use std::sync::atomic::Ordering;
use vstd::prelude::*;

verus! {

/// The flag after `n` successive toggles starting from `start`.
pub open spec fn toggled_times(start: bool, n: nat) -> bool
    decreases n,
{
    if n == 0 {
        start
    } else {
        !toggled_times(start, (n - 1) as nat)
    }
}

/// Toggling `n` times from `start` leaves the flag changed exactly when `n` is
/// odd; in particular, from an unpinned start the flag is set exactly when `n`
/// is odd. Each toggle negates the flag, so `n` successive toggles leave it at
/// `toggled_times(start, n)`.
pub proof fn lemma_toggle_parity(start: bool, n: nat)
    ensures
        toggled_times(start, n) == (start != (n % 2 == 1)),
        toggled_times(false, n) == (n % 2 == 1),
    decreases n,
{
    if n > 0 {
        lemma_toggle_parity(start, (n - 1) as nat);
    }
}

/// One caller of the shared store.
#[derive(Clone, Copy, PartialEq, Eq, Structural, Debug)]
pub enum Caller {
    First,
    Second,
}

/// How many steps of `schedule` belong to `who`.
pub open spec fn calls_of(schedule: Seq<Caller>, who: Caller) -> nat
    decreases schedule.len(),
{
    if schedule.len() == 0 {
        0
    } else {
        calls_of(schedule.drop_last(), who) + if schedule.last() == who { 1nat } else { 0nat }
    }
}

/// The flag after the toggles of `schedule` have run, each as one atomic
/// read-modify-write that flips whatever value it finds.
pub open spec fn run_schedule(start: bool, schedule: Seq<Caller>) -> bool
    decreases schedule.len(),
{
    if schedule.len() == 0 {
        start
    } else {
        !run_schedule(start, schedule.drop_last())
    }
}

/// What the `k`-th toggle of `schedule` (counting from zero) hands back to its caller.
pub open spec fn returned_at(start: bool, schedule: Seq<Caller>, k: int) -> bool {
    run_schedule(start, schedule.take(k + 1))
}

/// Whatever the interleaving of two callers' toggles, no toggle is lost: the
/// final flag is the one that the serial order "all of the first caller's
/// calls, then all of the second's" gives, and the `k`-th toggle to take
/// effect returns the flag after `k + 1` serial toggles.
pub proof fn lemma_interleaved_toggles(start: bool, schedule: Seq<Caller>)
    ensures
        calls_of(schedule, Caller::First) + calls_of(schedule, Caller::Second) == schedule.len(),
        run_schedule(start, schedule) == toggled_times(
            toggled_times(start, calls_of(schedule, Caller::First)),
            calls_of(schedule, Caller::Second),
        ),
        forall|k: int|
            0 <= k < schedule.len() ==> #[trigger] returned_at(start, schedule, k)
                == toggled_times(start, (k + 1) as nat),
    decreases schedule.len(),
{
    lemma_schedule_is_serial(start, schedule);
    let a = calls_of(schedule, Caller::First);
    let b = calls_of(schedule, Caller::Second);
    lemma_calls_partition(schedule);
    lemma_toggle_parity(start, a);
    lemma_toggle_parity(toggled_times(start, a), b);
    lemma_toggle_parity(start, a + b);
    assert forall|k: int| 0 <= k < schedule.len() implies #[trigger] returned_at(start, schedule, k)
        == toggled_times(start, (k + 1) as nat) by {
        lemma_schedule_is_serial(start, schedule.take(k + 1));
    }
}

proof fn lemma_schedule_is_serial(start: bool, schedule: Seq<Caller>)
    ensures
        run_schedule(start, schedule) == toggled_times(start, schedule.len()),
    decreases schedule.len(),
{
    if schedule.len() > 0 {
        lemma_schedule_is_serial(start, schedule.drop_last());
    }
}

proof fn lemma_calls_partition(schedule: Seq<Caller>)
    ensures
        calls_of(schedule, Caller::First) + calls_of(schedule, Caller::Second) == schedule.len(),
    decreases schedule.len(),
{
    if schedule.len() > 0 {
        lemma_calls_partition(schedule.drop_last());
    }
}

/// The pin flag shared by every command handler and the tray handler. It is
/// lock-free: every operation is a single atomic instruction, so no caller
/// ever blocks and no torn or intermediate value can be observed. Other
/// threads may change it between any two calls, so the contracts below speak
/// only of what one call observes.
pub struct Pinned(AtomicBool);

impl Pinned {
    /// A store holding `initial`.
    pub fn new(initial: bool) -> Pinned {
        Pinned(AtomicBool::new(initial))
    }

    /// The last value committed by any caller.
    pub fn get(&self) -> bool {
        self.0.load(Ordering::SeqCst)
    }

    /// Commits `value`.
    pub fn set(&self, value: bool) {
        self.0.store(value, Ordering::SeqCst);
    }

    /// Flips the flag and returns the value it now holds. The flip is one
    /// atomic exclusive-or, the read-modify-write that a compare-and-swap
    /// retry loop would build, so that concurrent toggles never lose an update.
    pub fn toggle(&self) -> (r: bool) {
        let previous = self.0.fetch_xor(true, Ordering::SeqCst);
        !previous
    }
}

} // verus!
