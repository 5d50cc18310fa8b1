//! Lock-free arbitration shared by OS-hook and dedicated HID++ gesture input.

use crate::shared::{self, CountReading, CountStep, SharedCounter};
use vstd::prelude::*;

verus! {

/// Monotonic token source implementing newest-press-wins gesture arbitration.
///
/// Acquiring and validating a token use only atomic operations, so the OS input
/// callback never blocks on the HID watcher (or vice versa).
pub struct GestureCoordinator {
    current: SharedCounter,
}

impl Clone for GestureCoordinator {
    /// Another handle on the same arbitration.
    fn clone(&self) -> (copy: Self)
        ensures
            copy == *self,
    {
        GestureCoordinator { current: self.current.clone() }
    }
}

impl Default for GestureCoordinator {
    fn default() -> (coordinator: Self) {
        GestureCoordinator { current: SharedCounter::default() }
    }
}

impl GestureCoordinator {
    /// The counter of presses.
    pub closed spec fn counter(&self) -> SharedCounter {
        self.current
    }

    /// Make a new gesture press current, invalidating every older token.
    #[must_use]
    pub fn acquire(&self) -> (token: GestureToken)
        ensures
            exists|press: GesturePress| #[trigger] press.is_of(*self) && token == press.token(),
    {
        let press = self.press();
        press.get_token()
    }

    /// Make a new gesture press current, and keep the record of it. Its token is that
    /// of the count which follows the one that this coordinator's counter held.
    #[must_use]
    pub fn press(&self) -> (press: GesturePress)
        ensures
            press.is_of(*self),
    {
        GesturePress { step: self.current.advance() }
    }

    /// Read the counter of presses. Any thread may have advanced it, so any count is
    /// possible.
    #[must_use]
    pub fn read(&self) -> (reading: CountReading)
        ensures
            reading.source() == self.counter(),
    {
        self.current.read()
    }

    /// Whether `token` still represents the newest gesture press. The shared
    /// counter may have moved on since, so either answer is possible here.
    #[must_use]
    pub fn is_current(&self, token: GestureToken) -> (current: bool)
        ensures
            exists|reading: CountReading|
                reading.source() == self.counter() && current == #[trigger] token.stands_for(
                    reading.value(),
                ),
    {
        self.is_current_now(token).0
    }

    /// Whether `token` still represents the newest gesture press, with the reading of
    /// the counter that says so.
    #[must_use]
    pub fn is_current_now(&self, token: GestureToken) -> (answer: (bool, CountReading))
        ensures
            answer.1.source() == self.counter(),
            answer.0 == token.stands_for(answer.1.value()),
    {
        let reading = self.read();
        (token.matches(reading.count()), reading)
    }
}

/// Opaque identity of one gesture press.
#[derive(Clone, Copy, Debug, PartialEq, Eq, Structural)]
pub struct GestureToken {
    count: u64,
}

/// The token of the press that follows this many presses.
pub closed spec fn successor(previous: u64) -> GestureToken {
    GestureToken { count: shared::count_after(previous) }
}

impl GestureToken {
    /// Whether the token is that of the latest press when the counter holds
    /// `count`.
    pub closed spec fn stands_for(self, count: u64) -> bool {
        self.count == count
    }

    /// Whether the token is that of the latest press when the counter holds
    /// `count`.
    #[must_use]
    pub fn matches(self, count: u64) -> (current: bool)
        ensures
            current == self.stands_for(count),
    {
        self.count == count
    }
}

/// The record of one gesture press. Only [`GestureCoordinator::press`] makes one.
#[derive(Debug)]
pub struct GesturePress {
    step: CountStep,
}

impl GesturePress {
    /// The press's token.
    pub closed spec fn token(&self) -> GestureToken {
        GestureToken { count: self.step.stored() }
    }

    /// The count of presses before it.
    pub closed spec fn follows(&self) -> u64 {
        self.step.found()
    }

    /// The counter of presses that counted it.
    pub closed spec fn source(&self) -> SharedCounter {
        self.step.source()
    }

    /// Whether the press was counted by this coordinator, as the one after those
    /// before it.
    pub open spec fn is_of(&self, coordinator: GestureCoordinator) -> bool {
        &&& self.source() == coordinator.counter()
        &&& self.token() == successor(self.follows())
    }

    /// The press's token.
    #[must_use]
    pub fn get_token(&self) -> (token: GestureToken)
        ensures
            token == self.token(),
    {
        GestureToken { count: self.step.count() }
    }
}

/// The newest press wins: right after a press its token is current, and it is no
/// longer current after any further presses (short of a full turn of the 64-bit
/// counter).
pub proof fn law_newest_press_wins(press: GesturePress, coordinator: GestureCoordinator, later: nat)
    requires
        press.is_of(coordinator),
        later < 0x1_0000_0000_0000_0000,
    ensures
        press.token().stands_for(shared::count_after(press.follows())),
        later > 0 ==> !press.token().stands_for(
            shared::count_after_many(shared::count_after(press.follows()), later),
        ),
{
    shared::lemma_count_after_many(shared::count_after(press.follows()), later);
}

/// A press is counted by the coordinator that it was made on, and its token is that of
/// the next count; a token stands for exactly one count.
pub proof fn law_press_is_counted_once(
    press: GesturePress,
    coordinator: GestureCoordinator,
    count: u64,
)
    requires
        press.is_of(coordinator),
    ensures
        press.source() == coordinator.counter(),
        press.follows() < u64::MAX ==> (press.token().stands_for(count) <==> count as int
            == press.follows() + 1),
        press.follows() == u64::MAX ==> (press.token().stands_for(count) <==> count == 0),
{
}

} // verus!
