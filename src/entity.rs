use crate::config::Config;
use vstd::prelude::*;

verus! {

/// A stored record that remembers what created it: the creating system
/// (a service name) and a key unique within that system.
pub trait CreationTracking {
    /// The system that created the record.
    fn creation_system(&self) -> &str;

    /// The creating system's key for the record.
    fn creation_key(&self) -> &str;
}

/// A record built from an API request payload `T`; the creating system is
/// the service's name and the key is generated for the record.
pub trait FromApiRequest<T> {
    type Error;

    fn from_api(config: &Config, payload: T) -> Result<Self, Self::Error>
        where
            Self: Sized,
    ;
}

/// A record built from an event contract `T`, keeping the creating system
/// and key that the event carries.
pub trait FromEventContract<T> {
    type Error;

    fn from_event(contract: T) -> Result<Self, Self::Error>
        where
            Self: Sized,
    ;
}

} // verus!
