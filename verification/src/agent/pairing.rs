//! Agent-side device pairing: admission of one session at a time, the discovery
//! cache, and what each event means for the window.
//!
//! While a session runs, the agent holds an exclusive receiver lease. Every end of
//! a session releases it.

use crate::ipc::{
    reports, FoundDevice, PairingCommandError, PairingError, PairingFailure, PairingUpdate,
    PasskeyMethod,
};
use vstd::prelude::*;

verus! {

/// How long, in milliseconds, a long poll is held before it is answered with
/// nothing.
pub const HOLD: u64 = 20_000;

/// How long, in milliseconds, pairing waits for capture to release the receiver.
pub const RECEIVER_LEASE_TIMEOUT: u64 = 5_000;

/// One step of the pairing protocol.
#[derive(Debug)]
pub enum PairingEvent {
    /// Discovery or the pairing lock is open.
    Searching,
    /// A nearby unpaired device was discovered.
    DeviceFound(DiscoveredDevice),
    /// The device asks the user to authenticate with a passkey.
    Passkey(PasskeyMethod),
    /// A device paired.
    Paired {
        /// Into this slot.
        slot: u8,
    },
    /// The flow ended without pairing a device.
    Failed(PairingError),
}

/// A device that was discovered: what pairing with it needs.
#[derive(Debug)]
pub struct DiscoveredDevice {
    /// The address to pair by.
    pub address: [u8; 6],
    /// The authentication methods it offers, as a bit mask.
    pub authentication: u8,
    /// Its kind, as the receiver encodes it.
    pub kind: u8,
    /// The name to show.
    pub name: String,
}

/// The content of a [`DiscoveredDevice`], except for its address.
pub struct DiscoveredModel {
    /// The authentication methods it offers.
    pub authentication: u8,
    /// Its kind.
    pub kind: u8,
    /// The name to show.
    pub name: Seq<char>,
}

impl View for DiscoveredDevice {
    type V = DiscoveredModel;

    open spec fn view(&self) -> DiscoveredModel {
        DiscoveredModel {
            authentication: self.authentication,
            kind: self.kind,
            name: self.name@,
        }
    }
}

impl Clone for DiscoveredDevice {
    fn clone(&self) -> (copy: Self)
        ensures
            copy.address@ == self.address@,
            copy@ == self@,
    {
        DiscoveredDevice {
            address: self.address,
            authentication: self.authentication,
            kind: self.kind,
            name: self.name.clone(),
        }
    }
}

/// The pairing session and its discovery cache.
#[derive(Debug)]
pub struct PairingManager {
    /// Number of outstanding sessions: at most one is admitted.
    pub sessions: usize,
    /// Whether the receiver lease is held.
    pub lease_held: bool,
    /// The devices discovered in this session, one per address.
    pub discovered: Vec<DiscoveredDevice>,
}

/// What the manager does about a command.
#[derive(Clone, Copy, Debug, PartialEq, Eq, Structural)]
pub enum CommandAction {
    /// Nothing to do.
    Nothing,
    /// Hand the command to the pairing watcher.
    Send,
}

/// The device that stands for an address in a discovery cache: the first with it.
pub open spec fn cached(discovered: Seq<DiscoveredDevice>, address: Seq<u8>) -> Option<
    DiscoveredModel,
>
    decreases discovered.len(),
{
    if discovered.len() == 0 {
        None
    } else if discovered[0].address@ == address {
        Some(discovered[0]@)
    } else {
        cached(discovered.skip(1), address)
    }
}

/// What a cache holds for an address after its first entries that have others.
proof fn lemma_cached(discovered: Seq<DiscoveredDevice>, address: Seq<u8>, n: int)
    requires
        0 <= n <= discovered.len(),
        forall|k: int| 0 <= k < n ==> (#[trigger] discovered[k]).address@ != address,
    ensures
        cached(discovered, address) == cached(discovered.skip(n), address),
    decreases n,
{
    if n > 0 {
        let rest = discovered.skip(1);
        assert forall|k: int| 0 <= k < n - 1 implies (#[trigger] rest[k]).address@ != address by {
            assert(rest[k] == discovered[k + 1]);
        }
        lemma_cached(rest, address, n - 1);
        assert(rest.skip(n - 1) =~= discovered.skip(n));
    } else {
        assert(discovered.skip(0) =~= discovered);
    }
}

/// What a cache holds once an entry has been put in place of one with its address.
proof fn lemma_cached_update(
    discovered: Seq<DiscoveredDevice>,
    at: int,
    entry: DiscoveredDevice,
    address: Seq<u8>,
)
    requires
        0 <= at < discovered.len(),
        discovered[at].address@ == entry.address@,
        forall|k: int| 0 <= k < at ==> (#[trigger] discovered[k]).address@ != entry.address@,
    ensures
        cached(discovered.update(at, entry), address) == if entry.address@ == address {
            Some(entry@)
        } else {
            cached(discovered, address)
        },
    decreases at,
{
    let after = discovered.update(at, entry);
    if at > 0 {
        let rest = discovered.skip(1);
        assert forall|k: int| 0 <= k < at - 1 implies (#[trigger] rest[k]).address@
            != entry.address@ by {
            assert(rest[k] == discovered[k + 1]);
        }
        assert(discovered[0].address@ != entry.address@);
        lemma_cached_update(rest, at - 1, entry, address);
        assert(after.skip(1) =~= rest.update(at - 1, entry));
    } else {
        assert(after.skip(1) =~= discovered.skip(1));
    }
}

/// What a cache holds once an entry with a new address has been added.
proof fn lemma_cached_push(discovered: Seq<DiscoveredDevice>, entry: DiscoveredDevice, address: Seq<u8>)
    requires
        forall|k: int|
            0 <= k < discovered.len() ==> (#[trigger] discovered[k]).address@ != entry.address@,
    ensures
        cached(discovered.push(entry), address) == if entry.address@ == address {
            Some(entry@)
        } else {
            cached(discovered, address)
        },
    decreases discovered.len(),
{
    let after = discovered.push(entry);
    if discovered.len() > 0 {
        let rest = discovered.skip(1);
        assert forall|k: int| 0 <= k < rest.len() implies (#[trigger] rest[k]).address@
            != entry.address@ by {
            assert(rest[k] == discovered[k + 1]);
        }
        assert(discovered[0].address@ != entry.address@);
        lemma_cached_push(rest, entry, address);
        assert(after.skip(1) =~= rest.push(entry));
    } else {
        assert(cached(after.skip(1), address) is None);
    }
}

/// Whether two addresses are the same.
fn same_address(a: &[u8; 6], b: &[u8; 6]) -> (same: bool)
    ensures
        same == (a@ == b@),
{
    let same = a[0] == b[0] && a[1] == b[1] && a[2] == b[2] && a[3] == b[3] && a[4] == b[4] && a[5]
        == b[5];
    proof {
        if same {
            assert(a@ =~= b@);
        }
    }
    same
}

/// The event ends its session.
pub open spec fn terminal(event: PairingEvent) -> bool {
    event is Paired || event is Failed
}

/// The update tells the window of the event.
pub open spec fn tells(update: PairingUpdate, event: PairingEvent) -> bool {
    match event {
        PairingEvent::Searching => update == PairingUpdate::Searching,
        PairingEvent::DeviceFound(device) => update matches PairingUpdate::DeviceFound(found)
            && found.address@ == device.address@ && found.name@ == device.name@,
        PairingEvent::Passkey(method) => update == PairingUpdate::Passkey(method),
        PairingEvent::Paired { slot } => update == (PairingUpdate::Paired { slot }),
        PairingEvent::Failed(error) => update matches PairingUpdate::Failed(failure) && reports(
            failure,
            error,
        ),
    }
}

impl PairingManager {
    /// No session, nothing discovered.
    #[must_use]
    pub fn new() -> (manager: Self)
        ensures
            manager.sessions == 0,
            !manager.lease_held,
            manager.discovered@.len() == 0,
    {
        PairingManager { sessions: 0, lease_held: false, discovered: Vec::new() }
    }

    /// Open a session: only when none is active. Forgets the previous discovery.
    pub fn open_session(&mut self) -> (result: Result<(), PairingCommandError>)
        ensures
            match result {
                Ok(()) => {
                    &&& old(self).sessions == 0
                    &&& final(self).sessions == 1
                    &&& final(self).discovered@.len() == 0
                    &&& final(self).lease_held == old(self).lease_held
                },
                Err(error) => {
                    &&& old(self).sessions != 0
                    &&& error == PairingCommandError::AlreadyActive
                    &&& *final(self) == *old(self)
                },
            },
    {
        if self.sessions != 0 {
            return Err(PairingCommandError::AlreadyActive);
        }
        self.sessions = 1;
        self.discovered.clear();
        Ok(())
    }

    /// Go on with an admitted session once it is known whether the receiver lease
    /// could be had. Without it the session is withdrawn.
    pub fn lease(&mut self, acquired: bool) -> (result: Result<(), PairingCommandError>)
        ensures
            final(self).discovered == old(self).discovered,
            acquired ==> result is Ok && final(self).lease_held && final(self).sessions == old(
                self,
            ).sessions,
            !acquired ==> result == Err::<(), PairingCommandError>(
                PairingCommandError::ReceiverBusy,
            ) && final(self).sessions == 0 && final(self).lease_held == old(self).lease_held,
    {
        if !acquired {
            self.sessions = 0;
            return Err(PairingCommandError::ReceiverBusy);
        }
        self.lease_held = true;
        Ok(())
    }

    /// Finish starting a session once it is known whether the watcher took the
    /// command. Otherwise the lease is released and the session withdrawn.
    pub fn sent(&mut self, taken: bool) -> (result: Result<(), PairingCommandError>)
        ensures
            final(self).discovered == old(self).discovered,
            taken ==> result is Ok && *final(self) == *old(self),
            !taken ==> result == Err::<(), PairingCommandError>(
                PairingCommandError::WatcherUnavailable,
            ) && final(self).sessions == 0 && !final(self).lease_held,
    {
        if !taken {
            self.lease_held = false;
            self.sessions = 0;
            return Err(PairingCommandError::WatcherUnavailable);
        }
        Ok(())
    }

    /// The device that was discovered at an address.
    pub open spec fn known(&self, address: Seq<u8>) -> Option<DiscoveredModel> {
        cached(self.discovered@, address)
    }

    /// Where the cache holds the device of this address.
    fn position(&self, address: &[u8; 6]) -> (at: Option<usize>)
        ensures
            match at {
                Some(at) => {
                    &&& at < self.discovered@.len()
                    &&& self.discovered@[at as int].address@ == address@
                    &&& self.known(address@) == Some(self.discovered@[at as int]@)
                    &&& forall|k: int|
                        0 <= k < at ==> (#[trigger] self.discovered@[k]).address@ != address@
                },
                None => {
                    &&& self.known(address@) is None
                    &&& forall|k: int|
                        0 <= k < self.discovered@.len() ==> (
                        #[trigger] self.discovered@[k]).address@ != address@
                },
            },
    {
        let mut i: usize = 0;
        while i < self.discovered.len()
            invariant
                i <= self.discovered@.len(),
                forall|k: int|
                    0 <= k < i ==> (#[trigger] self.discovered@[k]).address@ != address@,
            decreases self.discovered@.len() - i,
        {
            if same_address(&self.discovered[i].address, address) {
                proof {
                    lemma_cached(self.discovered@, address@, i as int);
                    assert(self.discovered@.skip(i as int)[0] == self.discovered@[i as int]);
                }
                return Some(i);
            }
            i += 1;
        }
        proof {
            lemma_cached(self.discovered@, address@, i as int);
        }
        None
    }

    /// Whether a device was discovered at this address.
    #[must_use]
    pub fn is_discovered(&self, address: &[u8; 6]) -> (known: bool)
        ensures
            known == (self.known(address@) is Some),
    {
        self.position(address).is_some()
    }

    /// Pair with a previously discovered device: the one to hand to the pairing watcher
    /// with the command. Whether the watcher takes the command is reported to
    /// [`command_taken`].
    pub fn pair(&self, address: &[u8; 6]) -> (result: Result<DiscoveredDevice, PairingCommandError>)
        ensures
            match result {
                Ok(device) => device.address@ == address@ && self.known(address@) == Some(device@),
                Err(error) => self.known(address@) is None && error
                    == PairingCommandError::UnknownDevice,
            },
    {
        match self.position(address) {
            Some(at) => Ok(self.discovered[at].clone()),
            None => Err(PairingCommandError::UnknownDevice),
        }
    }

    /// Remember a discovered device, in place of an earlier one with its address.
    fn remember(&mut self, device: DiscoveredDevice)
        ensures
            final(self).sessions == old(self).sessions,
            final(self).lease_held == old(self).lease_held,
            forall|address: Seq<u8>| #[trigger]
                final(self).known(address) == if device.address@ == address {
                    Some(device@)
                } else {
                    old(self).known(address)
                },
    {
        let ghost before = self.discovered@;
        let ghost entry = device;
        match self.position(&device.address) {
            Some(at) => {
                self.discovered.set(at, device);
                proof {
                    assert(self.discovered@ =~= before.update(at as int, entry));
                    assert forall|address: Seq<u8>| #[trigger]
                        self.known(address) == (if entry.address@ == address {
                            Some(entry@)
                        } else {
                            old(self).known(address)
                        }) by {
                        lemma_cached_update(before, at as int, entry, address);
                    }
                }
            },
            None => {
                self.discovered.push(device);
                proof {
                    assert(self.discovered@ =~= before.push(entry));
                    assert forall|address: Seq<u8>| #[trigger]
                        self.known(address) == (if entry.address@ == address {
                            Some(entry@)
                        } else {
                            old(self).known(address)
                        }) by {
                        lemma_cached_push(before, entry, address);
                    }
                }
            },
        }
    }

    /// Cancel the session in progress; without one there is nothing to do. The
    /// lease is released by the terminal event that follows, not here: capture
    /// must not re-acquire the receiver while pairing still holds it.
    pub fn cancel(&self) -> (action: CommandAction)
        ensures
            action == if self.sessions == 0 {
                CommandAction::Nothing
            } else {
                CommandAction::Send
            },
    {
        if self.sessions == 0 {
            CommandAction::Nothing
        } else {
            CommandAction::Send
        }
    }

    /// Tell the window of an event: a discovered device is remembered, and a
    /// terminal event ends the session and releases the lease.
    pub fn translate(&mut self, event: PairingEvent) -> (update: PairingUpdate)
        ensures
            tells(update, event),
            !terminal(event) ==> final(self).sessions == old(self).sessions
                && final(self).lease_held == old(self).lease_held,
            terminal(event) ==> final(self).sessions == if old(self).sessions == 0 {
                usize::MAX
            } else {
                (old(self).sessions - 1) as usize
            } && final(self).lease_held == (old(self).lease_held && old(self).sessions != 1),
            forall|address: Seq<u8>| #[trigger]
                final(self).known(address) == match event {
                    PairingEvent::DeviceFound(device) if device.address@ == address => Some(device@),
                    _ => old(self).known(address),
                },
    {
        match event {
            PairingEvent::Searching => PairingUpdate::Searching,
            PairingEvent::DeviceFound(device) => {
                let found = FoundDevice { address: device.address, name: device.name.clone() };
                self.remember(device);
                PairingUpdate::DeviceFound(found)
            },
            PairingEvent::Passkey(method) => PairingUpdate::Passkey(method),
            PairingEvent::Paired { slot } => {
                self.session_ended();
                PairingUpdate::Paired { slot }
            },
            PairingEvent::Failed(error) => {
                self.session_ended();
                PairingUpdate::Failed(PairingFailure::from_error(error))
            },
        }
    }

    /// Count one session as ended, releasing the lease with the last one.
    fn session_ended(&mut self)
        ensures
            final(self).discovered == old(self).discovered,
            final(self).sessions == if old(self).sessions == 0 {
                usize::MAX
            } else {
                (old(self).sessions - 1) as usize
            },
            final(self).lease_held == (old(self).lease_held && old(self).sessions != 1),
    {
        if self.sessions == 1 {
            self.lease_held = false;
        }
        self.sessions = self.sessions.wrapping_sub(1);
    }

    /// The watcher is gone, possibly without a terminal event: nothing is left
    /// waiting for one.
    pub fn watcher_closed(&mut self)
        ensures
            final(self).sessions == 0,
            !final(self).lease_held,
            final(self).discovered == old(self).discovered,
    {
        self.sessions = 0;
        self.lease_held = false;
    }
}

/// The outcome of a command that was handed to the watcher.
pub fn command_taken(taken: bool) -> (result: Result<(), PairingCommandError>)
    ensures
        result == if taken {
            Ok::<(), PairingCommandError>(())
        } else {
            Err(PairingCommandError::WatcherUnavailable)
        },
{
    if taken {
        Ok(())
    } else {
        Err(PairingCommandError::WatcherUnavailable)
    }
}

/// The three steps of starting a session: admitted, leased, and taken by the
/// watcher. Any failure leaves no session and no lease behind; success leaves
/// exactly one session with the lease held; and a second start meanwhile is
/// refused without touching the first.
pub fn start(manager: &mut PairingManager, acquired: bool, taken: bool) -> (result: Result<
    (),
    PairingCommandError,
>)
    requires
        old(manager).sessions == 0 ==> !old(manager).lease_held,
    ensures
        old(manager).sessions != 0 ==> result == Err::<(), PairingCommandError>(
            PairingCommandError::AlreadyActive,
        ) && *final(manager) == *old(manager),
        old(manager).sessions == 0 && !acquired ==> result == Err::<(), PairingCommandError>(
            PairingCommandError::ReceiverBusy,
        ),
        old(manager).sessions == 0 && acquired && !taken ==> result == Err::<
            (),
            PairingCommandError,
        >(PairingCommandError::WatcherUnavailable),
        old(manager).sessions == 0 && !(acquired && taken) ==> final(manager).sessions == 0
            && !final(manager).lease_held,
        old(manager).sessions == 0 && acquired && taken ==> result is Ok && final(manager).sessions
            == 1 && final(manager).lease_held && final(manager).discovered@.len() == 0,
{
    match manager.open_session() {
        Ok(()) => {},
        Err(error) => {
            return Err(error);
        },
    }
    match manager.lease(acquired) {
        Ok(()) => {},
        Err(error) => {
            return Err(error);
        },
    }
    manager.sent(taken)
}

/// What is known of an address is what was first listed under it, and nothing where none
/// was.
pub proof fn law_listed_device_is_known(
    discovered: Seq<DiscoveredDevice>,
    address: Seq<u8>,
    i: int,
)
    requires
        0 <= i <= discovered.len(),
        forall|j: int| 0 <= j < i ==> (#[trigger] discovered[j]).address@ != address,
    ensures
        i < discovered.len() && discovered[i].address@ == address ==> cached(discovered, address)
            == Some(discovered[i]@),
        i == discovered.len() ==> cached(discovered, address) is None,
    decreases i,
{
    if i > 0 {
        assert(discovered[0].address@ != address);
        let rest = discovered.skip(1);
        assert forall|j: int| 0 <= j < i - 1 implies (#[trigger] rest[j]).address@ != address by {
            assert(rest[j] == discovered[j + 1]);
        }
        law_listed_device_is_known(rest, address, i - 1);
    }
}

/// What a pairing event is told as: under its own name, with what it carries. A pairing
/// ends when it has succeeded or failed, and not before.
pub proof fn law_events_are_told(update: PairingUpdate, event: PairingEvent)
    requires
        tells(update, event),
    ensures
        event is Searching <==> update is Searching,
        event is DeviceFound <==> update is DeviceFound,
        event is Passkey <==> update is Passkey,
        event is Paired <==> update is Paired,
        event is Failed <==> update is Failed,
        event matches PairingEvent::DeviceFound(device) ==> (update matches
            PairingUpdate::DeviceFound(found) && found.address@ == device.address@ && found.name@
            == device.name@),
        event matches PairingEvent::Passkey(method) ==> update == PairingUpdate::Passkey(method),
        event matches PairingEvent::Paired { slot } ==> update == (PairingUpdate::Paired { slot }),
        event matches PairingEvent::Failed(error) ==> (update matches PairingUpdate::Failed(failure)
            && reports(failure, error)),
        terminal(event) <==> update is Paired || update is Failed,
{
}

/// What is kept of a device that was found.
pub proof fn law_found_device_is_kept(device: DiscoveredDevice)
    ensures
        device@.authentication == device.authentication,
        device@.kind == device.kind,
        device@.name == device.name@,
        HOLD == 20_000,
        RECEIVER_LEASE_TIMEOUT == 5_000,
{
}

} // verus!
