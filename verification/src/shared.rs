//! What threads share without locks: a counter, the Pan mailbox's word and flag, and
//! the channel that wakes its worker. Each operation hands back a record of what it
//! met and did, which nothing outside this module can make.

use crate::hook_runtime::{self, coalesce};
use std::sync::atomic::{AtomicBool, AtomicU64, Ordering};
use std::sync::mpsc::SyncSender;
use std::sync::Arc;
use vstd::prelude::*;

verus! {

/// The count that follows this one.
pub open spec fn count_after(previous: u64) -> u64 {
    if previous == u64::MAX {
        0
    } else {
        (previous + 1) as u64
    }
}

/// The count after a number of further steps.
pub open spec fn count_after_many(previous: u64, steps: nat) -> u64
    decreases steps,
{
    if steps == 0 {
        previous
    } else {
        count_after(count_after_many(previous, (steps - 1) as nat))
    }
}

/// The count after a number of further steps, as a number.
pub proof fn lemma_count_after_many(previous: u64, steps: nat)
    ensures
        count_after_many(previous, steps) == (previous + steps) % 0x1_0000_0000_0000_0000,
    decreases steps,
{
    if steps > 0 {
        lemma_count_after_many(previous, (steps - 1) as nat);
    }
}

/// The count that follows this one.
#[must_use]
pub fn next_count(previous: u64) -> (next: u64)
    ensures
        next == count_after(previous),
{
    previous.wrapping_add(1)
}

/// A counter shared by several threads. A clone is another handle on the same
/// counter.
#[derive(Debug)]
pub struct SharedCounter {
    value: Arc<AtomicU64>,
}

impl Clone for SharedCounter {
    fn clone(&self) -> (copy: Self)
        ensures
            copy == *self,
    {
        SharedCounter { value: self.value.clone() }
    }
}

impl Default for SharedCounter {
    fn default() -> (counter: Self) {
        SharedCounter { value: Arc::new(AtomicU64::new(0)) }
    }
}

/// A reading of a counter.
#[derive(Debug)]
pub struct CountReading {
    source: SharedCounter,
    count: u64,
}

/// One step of a counter.
#[derive(Debug)]
pub struct CountStep {
    source: SharedCounter,
    found: u64,
    stored: u64,
}

impl CountReading {
    /// The counter that was read.
    pub closed spec fn source(&self) -> SharedCounter {
        self.source
    }

    /// What it held.
    pub closed spec fn value(&self) -> u64 {
        self.count
    }

    /// What the counter held.
    #[must_use]
    pub fn count(&self) -> (count: u64)
        ensures
            count == self.value(),
    {
        self.count
    }
}

impl CountStep {
    /// The counter that was advanced.
    pub closed spec fn source(&self) -> SharedCounter {
        self.source
    }

    /// What it held before.
    pub closed spec fn found(&self) -> u64 {
        self.found
    }

    /// What it was set to.
    pub closed spec fn stored(&self) -> u64 {
        self.stored
    }

    /// What the counter was set to.
    #[must_use]
    pub fn count(&self) -> (count: u64)
        ensures
            count == self.stored(),
    {
        self.stored
    }
}

impl SharedCounter {
    /// Read the counter. Any thread may have advanced it, so any count is possible.
    #[must_use]
    pub fn read(&self) -> (reading: CountReading)
        ensures
            reading.source() == *self,
    {
        CountReading { source: self.clone(), count: self.value.load(Ordering::Acquire) }
    }

    /// Calls [`AtomicU64::fetch_update`], which replaces the counter's value by
    /// [`next_count`] of it, retrying while other threads interfere, and gives back
    /// the value it replaced. The record names the counter, that value and the one
    /// that was stored for it. Nothing is claimed of what the counter holds
    /// afterwards, which other threads may change.
    #[verifier::external_body]
    pub(crate) fn advance(&self) -> (step: CountStep)
        ensures
            step.source() == *self,
            step.stored() == count_after(step.found()),
    {
        let mut stored: u64 = 0;
        let next = |current: u64| {
            stored = next_count(current);
            Some(stored)
        };
        match self.value.fetch_update(Ordering::AcqRel, Ordering::Acquire, next) {
            Ok(found) | Err(found) => CountStep { source: self.clone(), found, stored },
        }
    }
}

/// The word of the Pan mailbox: pending motion on two axes.
#[derive(Debug)]
pub struct MotionWord {
    value: AtomicU64,
}

/// A merge of motion into a word.
pub struct MotionMerge {
    source: Ghost<MotionWord>,
    found: u64,
    stored: u64,
}

/// A look at a word, or the taking of what it held.
pub struct MotionLook {
    source: Ghost<MotionWord>,
    found: u64,
    emptied: bool,
}

impl MotionMerge {
    /// The word that was changed.
    pub closed spec fn source(&self) -> MotionWord {
        self.source@
    }

    /// What it held before.
    pub closed spec fn before(&self) -> u64 {
        self.found
    }

    /// What was stored.
    pub closed spec fn after(&self) -> u64 {
        self.stored
    }

    /// What the word held before.
    #[must_use]
    pub fn found(&self) -> (word: u64)
        ensures
            word == self.before(),
    {
        self.found
    }

    /// What was stored.
    #[must_use]
    pub fn stored(&self) -> (word: u64)
        ensures
            word == self.after(),
    {
        self.stored
    }
}

impl MotionLook {
    /// The word that was looked at.
    pub closed spec fn source(&self) -> MotionWord {
        self.source@
    }

    /// What it held.
    pub closed spec fn seen(&self) -> u64 {
        self.found
    }

    /// Whether what it held was taken, leaving nothing.
    pub closed spec fn takes(&self) -> bool {
        self.emptied
    }

    /// What the word held.
    #[must_use]
    pub fn found(&self) -> (word: u64)
        ensures
            word == self.seen(),
    {
        self.found
    }
}

impl Default for MotionWord {
    fn default() -> (word: Self) {
        MotionWord { value: AtomicU64::new(0) }
    }
}

impl MotionWord {
    /// Calls [`AtomicU64::fetch_update`], which replaces the word's value by
    /// [`coalesce`] of it, retrying while other threads interfere, and gives back the
    /// value it replaced. The record names the word, that value and the one that was
    /// stored for it. Nothing is claimed of what the word holds afterwards, which other
    /// threads may change.
    #[verifier::external_body]
    pub(crate) fn merge(&self, x: i32, y: i32) -> (merge: MotionMerge)
        ensures
            merge.source() == *self,
            merge.after() == hook_runtime::coalesced(merge.before(), x, y),
    {
        let mut stored: u64 = 0;
        let next = |current: u64| {
            stored = coalesce(current, x, y);
            Some(stored)
        };
        match self.value.fetch_update(Ordering::Release, Ordering::Relaxed, next) {
            Ok(found) | Err(found) => MotionMerge { source: Ghost(*self), found, stored },
        }
    }

    /// Take what the word holds, leaving nothing. Any thread may have changed it, so
    /// anything may be found.
    pub fn take(&self) -> (look: MotionLook)
        ensures
            look.source() == *self,
            look.takes(),
    {
        let found: u64 = self.value.swap(0, Ordering::AcqRel);
        MotionLook { source: Ghost(*self), found, emptied: true }
    }

    /// Look at what the word holds. Any thread may have changed it, so anything may be
    /// found.
    #[must_use]
    pub fn look(&self) -> (look: MotionLook)
        ensures
            look.source() == *self,
            !look.takes(),
    {
        let found: u64 = self.value.load(Ordering::Acquire);
        MotionLook { source: Ghost(*self), found, emptied: false }
    }
}

/// The wake flag of the Pan mailbox.
#[derive(Debug)]
pub struct WakeFlag {
    value: AtomicBool,
}

/// The raising of a flag.
pub struct FlagRaise {
    source: Ghost<WakeFlag>,
    before: bool,
}

/// The lowering of a flag.
pub struct FlagLower {
    source: Ghost<WakeFlag>,
}

impl FlagRaise {
    /// The flag that was raised.
    pub closed spec fn source(&self) -> WakeFlag {
        self.source@
    }

    /// Whether it was raised before.
    pub closed spec fn was_raised(&self) -> bool {
        self.before
    }

    /// Whether the flag was raised before.
    #[must_use]
    pub fn before(&self) -> (raised: bool)
        ensures
            raised == self.was_raised(),
    {
        self.before
    }
}

impl FlagLower {
    /// The flag that was lowered.
    pub closed spec fn source(&self) -> WakeFlag {
        self.source@
    }
}

impl Default for WakeFlag {
    fn default() -> (flag: Self) {
        WakeFlag { value: AtomicBool::new(false) }
    }
}

impl WakeFlag {
    /// Raise the flag. Any thread may have raised or lowered it before.
    pub fn raise(&self) -> (raise: FlagRaise)
        ensures
            raise.source() == *self,
    {
        let before: bool = self.value.swap(true, Ordering::AcqRel);
        FlagRaise { source: Ghost(*self), before }
    }

    /// Lower the flag.
    pub fn lower(&self) -> (lower: FlagLower)
        ensures
            lower.source() == *self,
    {
        self.value.store(false, Ordering::Release);
        FlagLower { source: Ghost(*self) }
    }
}

/// [`std::sync::mpsc::SyncSender`]: the sending half of a bounded channel.
#[verifier::external_type_specification]
#[verifier::external_body]
#[verifier::reject_recursive_types(T)]
pub struct ExSyncSender<T>(SyncSender<T>);

/// An attempt to wake a worker.
pub struct WakeAttempt {
    channel: Ghost<SyncSender<()>>,
    taken: bool,
}

impl WakeAttempt {
    /// The channel over which it was made.
    pub closed spec fn channel(&self) -> SyncSender<()> {
        self.channel@
    }

    /// Whether the channel took the wake.
    pub closed spec fn was_taken(&self) -> bool {
        self.taken
    }

    /// Whether the channel took the wake.
    #[must_use]
    pub fn taken(&self) -> (taken: bool)
        ensures
            taken == self.was_taken(),
    {
        self.taken
    }
}

/// Calls [`SyncSender::try_send`], which does not wait: a full or closed channel drops
/// the message. The record names the channel, and holds whether it took the message.
/// Nothing is claimed of that answer, which depends on the receiver.
#[verifier::external_body]
pub(crate) fn try_wake(wake: &SyncSender<()>) -> (attempt: WakeAttempt)
    ensures
        attempt.channel() == *wake,
{
    let taken = wake.try_send(()).is_ok();
    WakeAttempt { channel: Ghost(*wake), taken }
}

/// A counter goes up by one with each step, and starts again from zero after its last
/// count.
pub proof fn law_counts_go_up_by_one(count: u64, steps: nat)
    ensures
        count < u64::MAX ==> count_after(count) == count + 1,
        count == u64::MAX ==> count_after(count) == 0,
        count_after_many(count, 0) == count,
        count_after_many(count, steps + 1) == count_after(count_after_many(count, steps)),
{
}

} // verus!
