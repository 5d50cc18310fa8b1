//! Settings that are read from devices lazily.

use crate::hid::WriteError;
use crate::text_map::TextMap;
use vstd::prelude::*;

verus! {

/// How often a read that fails for a passing reason is tried.
pub const MAX_ATTEMPTS: u8 = 3;

/// How far a lazily read setting has come.
#[derive(Debug)]
pub enum Load<T> {
    /// Not asked for yet.
    Unknown,
    /// A read is in flight.
    Loading,
    /// The device's value.
    Ready(T),
    /// Reading failed, and is not tried again by itself.
    Failed(String),
    /// The device does not have the setting.
    Unsupported(String),
}

/// The content of a [`Load`].
pub enum LoadModel<T> {
    /// Not asked for yet.
    Unknown,
    /// A read is in flight.
    Loading,
    /// The device's value.
    Ready(T),
    /// Reading failed.
    Failed(Seq<char>),
    /// The device does not have the setting.
    Unsupported(Seq<char>),
}

impl<T> View for Load<T> {
    type V = LoadModel<T>;

    open spec fn view(&self) -> LoadModel<T> {
        match *self {
            Load::Unknown => LoadModel::Unknown,
            Load::Loading => LoadModel::Loading,
            Load::Ready(value) => LoadModel::Ready(value),
            Load::Failed(message) => LoadModel::Failed(message@),
            Load::Unsupported(message) => LoadModel::Unsupported(message@),
        }
    }
}

impl<T: Clone> Clone for Load<T> {
    fn clone(&self) -> (copy: Self)
        ensures
            match (self@, copy@) {
                (LoadModel::Ready(a), LoadModel::Ready(b)) => cloned(a, b),
                (a, b) => a == b,
            },
    {
        match self {
            Load::Unknown => Load::Unknown,
            Load::Loading => Load::Loading,
            Load::Ready(value) => Load::Ready(value.clone()),
            Load::Failed(message) => Load::Failed(message.clone()),
            Load::Unsupported(message) => Load::Unsupported(message.clone()),
        }
    }
}

/// A setting that is read lazily from every device, by device key.
#[derive(Debug)]
pub struct LazyDeviceData<T> {
    /// How far each device's setting has come.
    pub states: TextMap<Load<T>>,
    /// Failed attempts in a row.
    pub attempts: TextMap<u8>,
}

/// The content of a [`LazyDeviceData`].
#[verifier::ext_equal]
pub struct LazyModel<T> {
    /// How far each device's setting has come.
    pub states: Map<Seq<char>, LoadModel<T>>,
    /// Failed attempts in a row.
    pub attempts: Map<Seq<char>, u8>,
}

impl<T> View for LazyDeviceData<T> {
    type V = LazyModel<T>;

    open spec fn view(&self) -> LazyModel<T> {
        LazyModel { states: load_models(self.states@), attempts: self.attempts@ }
    }
}

/// The content of every device's setting.
pub open spec fn load_models<T>(states: Map<Seq<char>, Load<T>>) -> Map<Seq<char>, LoadModel<T>> {
    states.map_values(|state: Load<T>| state@)
}

impl<T> LazyModel<T> {
    /// Nothing has been asked for.
    pub open spec fn fresh() -> LazyModel<T> {
        LazyModel { states: Map::empty(), attempts: Map::empty() }
    }

    /// How far a device's setting has come.
    pub open spec fn state(self, key: Seq<char>) -> LoadModel<T> {
        if self.states.contains_key(key) {
            self.states[key]
        } else {
            LoadModel::Unknown
        }
    }

    /// The failed attempts in a row for a device.
    pub open spec fn tries(self, key: Seq<char>) -> u8 {
        if self.attempts.contains_key(key) {
            self.attempts[key]
        } else {
            0
        }
    }

    /// With a device's state replaced.
    pub open spec fn with_state(self, key: Seq<char>, state: LoadModel<T>) -> LazyModel<T> {
        LazyModel { states: self.states.insert(key, state), ..self }
    }

    /// With a device forgotten.
    pub open spec fn without(self, key: Seq<char>) -> LazyModel<T> {
        LazyModel { states: self.states.remove(key), attempts: self.attempts.remove(key) }
    }

    /// With a read in flight given up.
    pub open spec fn loading_cleared(self, key: Seq<char>) -> LazyModel<T> {
        if self.state(key) is Loading {
            LazyModel { states: self.states.remove(key), ..self }
        } else {
            self
        }
    }

    /// With a value that was read or written.
    pub open spec fn settled(self, key: Seq<char>, value: T) -> LazyModel<T> {
        LazyModel {
            states: self.states.insert(key, LoadModel::Ready(value)),
            attempts: self.attempts.remove(key),
        }
    }

    /// With only the devices in a set.
    pub open spec fn restricted(self, keys: Set<Seq<char>>) -> LazyModel<T> {
        LazyModel { states: self.states.restrict(keys), attempts: self.attempts.restrict(keys) }
    }

    /// With the outcome of a read. One that no longer belongs to the device's
    /// route only gives up the read in flight. A permanent failure is final; a
    /// passing one is tried again until the attempts are used up.
    pub open spec fn stored(
        self,
        key: Seq<char>,
        result: Result<T, WriteError>,
        permanent: bool,
        matches_route: bool,
        still_present: bool,
    ) -> LazyModel<T> {
        if !matches_route {
            if still_present {
                self.loading_cleared(key)
            } else {
                self
            }
        } else {
            match result {
                Ok(value) => self.settled(key, value),
                Err(error) => if permanent {
                    self.with_state(key, LoadModel::Unsupported(error.text()))
                } else {
                    let tries = if self.tries(key) < u8::MAX {
                        (self.tries(key) + 1) as u8
                    } else {
                        u8::MAX
                    };
                    LazyModel {
                        states: if tries < MAX_ATTEMPTS {
                            self.states.remove(key)
                        } else {
                            self.states.insert(key, LoadModel::Failed(error.text()))
                        },
                        attempts: self.attempts.insert(key, tries),
                    }
                },
            }
        }
    }
}

impl<T> LazyDeviceData<T> {
    /// Nothing has been asked for.
    #[must_use]
    pub fn new() -> (data: Self)
        ensures
            data@ == LazyModel::<T>::fresh(),
    {
        let data = LazyDeviceData { states: TextMap::new(), attempts: TextMap::new() };
        assert(data@ =~= LazyModel::<T>::fresh());
        data
    }

    /// What is recorded for a device.
    #[must_use]
    pub fn get(&self, key: &str) -> (state: Option<&Load<T>>)
        ensures
            match state {
                Some(state) => self@.states.contains_key(key@) && state@ == self@.states[key@],
                None => !self@.states.contains_key(key@),
            },
    {
        self.states.get(key)
    }

    /// Whether nothing has been asked for yet.
    #[must_use]
    pub fn unqueried(&self, key: &str) -> (unqueried: bool)
        ensures
            unqueried == (self@.state(key@) is Unknown),
    {
        match self.states.get(key) {
            Some(Load::Unknown) => true,
            Some(_) => false,
            None => true,
        }
    }

    /// Record that a read is in flight.
    pub fn mark_loading(&mut self, key: &str)
        ensures
            final(self)@ == old(self)@.with_state(key@, LoadModel::Loading),
    {
        self.states.insert(key, Load::Loading);
        assert(self@ =~= old(self)@.with_state(key@, LoadModel::Loading));
    }

    /// Give up a read in flight.
    pub fn clear_loading(&mut self, key: &str)
        ensures
            final(self)@ == old(self)@.loading_cleared(key@),
    {
        if let Some(Load::Loading) = self.states.get(key) {
            let _ = self.states.remove(key);
        }
        assert(self@ =~= old(self)@.loading_cleared(key@));
    }

    /// Forget a device, so that it is read afresh.
    pub fn remove(&mut self, key: &str)
        ensures
            final(self)@ == old(self)@.without(key@),
    {
        let _ = self.states.remove(key);
        let _ = self.attempts.remove(key);
        assert(self@ =~= old(self)@.without(key@));
    }

    /// Ask a device again, with a full budget of attempts.
    pub fn retry(&mut self, key: &str)
        ensures
            final(self)@ == old(self)@.without(key@),
    {
        self.remove(key);
    }

    /// Record a value that has just been written.
    pub fn set_ready(&mut self, key: &str, value: T)
        ensures
            final(self)@ == old(self)@.settled(key@, value),
    {
        self.states.insert(key, Load::Ready(value));
        let _ = self.attempts.remove(key);
        assert(self@ =~= old(self)@.settled(key@, value));
    }

    /// Keep only the devices in a set.
    pub fn retain_present(&mut self, keys: &TextMap<()>)
        ensures
            final(self)@ == old(self)@.restricted(keys@.dom()),
    {
        self.states.retain_keys(keys);
        self.attempts.retain_keys(keys);
        assert(self@ =~= old(self)@.restricted(keys@.dom()));
    }

    /// Record the outcome of a read. Returns whether a value was recorded.
    pub fn store(
        &mut self,
        key: &str,
        result: Result<T, WriteError>,
        permanent: bool,
        matches_route: bool,
        still_present: bool,
    ) -> (ready: bool)
        ensures
            final(self)@ == old(self)@.stored(
                key@,
                result,
                permanent,
                matches_route,
                still_present,
            ),
            ready == (matches_route && result is Ok),
    {
        if !matches_route {
            if still_present {
                self.clear_loading(key);
            }
            return false;
        }
        match result {
            Ok(value) => {
                self.set_ready(key, value);
                true
            },
            Err(error) => {
                if permanent {
                    self.states.insert(key, Load::Unsupported(error.message()));
                } else {
                    let tries: u8 = match self.attempts.get(key) {
                        Some(tries) => *tries,
                        None => 0,
                    };
                    let tries: u8 = if tries < u8::MAX {
                        tries + 1
                    } else {
                        u8::MAX
                    };
                    self.attempts.insert(key, tries);
                    if tries < MAX_ATTEMPTS {
                        let _ = self.states.remove(key);
                    } else {
                        self.states.insert(key, Load::Failed(error.message()));
                    }
                }
                assert(self@ =~= old(self)@.stored(
                    key@,
                    result,
                    permanent,
                    matches_route,
                    still_present,
                ));
                false
            },
        }
    }
}

/// A result that does not belong to the device's route never changes what is known
/// of a device, beyond giving up the read in flight.
pub proof fn law_stale_route_records_nothing<T>(
    data: LazyModel<T>,
    key: Seq<char>,
    other: Seq<char>,
    result: Result<T, WriteError>,
    permanent: bool,
    still_present: bool,
)
    ensures
        ({
            let after = data.stored(key, result, permanent, false, still_present);
            &&& after.state(key) == data.state(key) || (data.state(key) is Loading && after.state(
                key,
            ) is Unknown)
            &&& other != key ==> after.state(other) == data.state(other)
            &&& after.attempts == data.attempts
        }),
{
}

/// A permanent failure is final at once; a passing one leaves the setting to be
/// read again until the attempts are used up.
pub proof fn law_retry_budget<T>(data: LazyModel<T>, key: Seq<char>, error: WriteError)
    ensures
        data.stored(key, Err(error), true, true, true).state(key) == LoadModel::<T>::Unsupported(
            error.text(),
        ),
        data.tries(key) + 1 < MAX_ATTEMPTS ==> data.stored(key, Err(error), false, true, true).state(
            key,
        ) is Unknown,
        data.tries(key) + 1 >= MAX_ATTEMPTS ==> data.stored(
            key,
            Err(error),
            false,
            true,
            true,
        ).state(key) == LoadModel::<T>::Failed(error.text()),
        data.without(key).tries(key) == 0,
{
}

/// What is stored of a reading, and how often it is tried: what was read, with the tries
/// forgotten; what the device cannot do, for good; and of any other error nothing until
/// the third, and then the error. Other devices stay as they are.
pub proof fn law_readings_are_stored<T>(
    data: LazyModel<T>,
    key: Seq<char>,
    value: T,
    error: WriteError,
    other: Seq<char>,
    still_present: bool,
)
    requires
        other != key,
    ensures
        ({
            let after = data.stored(key, Ok(value), false, true, still_present);
            &&& after.state(key) == LoadModel::Ready(value)
            &&& after.tries(key) == 0
            &&& after.state(other) == data.state(other)
            &&& after.tries(other) == data.tries(other)
        }),
        ({
            let after = data.stored(key, Err(error), true, true, still_present);
            &&& after.state(key) == LoadModel::<T>::Unsupported(error.text())
            &&& after.tries(key) == data.tries(key)
            &&& after.state(other) == data.state(other)
        }),
        ({
            let after = data.stored(key, Err(error), false, true, still_present);
            &&& data.tries(key) < 255 ==> after.tries(key) == data.tries(key) + 1
            &&& data.tries(key) == 255 ==> after.tries(key) == 255
            &&& data.tries(key) < 2 ==> after.state(key) is Unknown
            &&& data.tries(key) >= 2 ==> after.state(key) == LoadModel::<T>::Failed(error.text())
            &&& after.state(other) == data.state(other)
            &&& after.tries(other) == data.tries(other)
        }),
        ({
            let after = data.stored(key, Ok(value), false, false, true);
            &&& data.state(key) is Loading ==> after.state(key) is Unknown
            &&& !(data.state(key) is Loading) ==> after == data
            &&& data.stored(key, Ok(value), false, false, false) == data
        }),
{
}

/// What the single steps do to one device, leaving the others as they are: marking,
/// clearing a reading that runs, forgetting, and settling.
pub proof fn law_steps_concern_one_device<T>(
    data: LazyModel<T>,
    key: Seq<char>,
    value: T,
    state: LoadModel<T>,
    other: Seq<char>,
)
    requires
        other != key,
    ensures
        data.with_state(key, state).state(key) == state,
        data.with_state(key, state).state(other) == data.state(other),
        data.with_state(key, state).tries(key) == data.tries(key),
        data.without(key).state(key) is Unknown,
        data.without(key).tries(key) == 0,
        data.without(key).state(other) == data.state(other),
        data.without(key).tries(other) == data.tries(other),
        data.state(key) is Loading ==> data.loading_cleared(key).state(key) is Unknown,
        !(data.state(key) is Loading) ==> data.loading_cleared(key).state(key) == data.state(key),
        data.loading_cleared(key).state(other) == data.state(other),
        data.loading_cleared(key).tries(key) == data.tries(key),
        data.settled(key, value).state(key) == LoadModel::Ready(value),
        data.settled(key, value).tries(key) == 0,
        data.settled(key, value).state(other) == data.state(other),
        LazyModel::<T>::fresh().state(key) is Unknown,
        LazyModel::<T>::fresh().tries(key) == 0,
{
}

/// What remains when only some devices do: of those everything, of others nothing.
pub proof fn law_absent_devices_are_forgotten<T>(
    data: LazyModel<T>,
    keys: Set<Seq<char>>,
    key: Seq<char>,
)
    ensures
        keys.contains(key) ==> data.restricted(keys).state(key) == data.state(key)
            && data.restricted(keys).tries(key) == data.tries(key),
        !keys.contains(key) ==> data.restricted(keys).state(key) is Unknown && data.restricted(
            keys,
        ).tries(key) == 0,
{
}

/// What a reading shows is what it is.
pub proof fn law_reading_shows_itself<T>(load: Load<T>)
    ensures
        load is Unknown <==> load@ is Unknown,
        load is Loading <==> load@ is Loading,
        load matches Load::Ready(value) ==> load@ == LoadModel::Ready(value),
        load matches Load::Failed(message) ==> load@ == LoadModel::<T>::Failed(message@),
        load matches Load::Unsupported(message) ==> load@ == LoadModel::<T>::Unsupported(message@),
{
}

} // verus!
