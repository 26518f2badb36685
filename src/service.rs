use vstd::prelude::*;

verus! {

/// The well-known port of each kind of service; the actual port is this
/// base plus an offset chosen per deployment.
pub enum ServicePort {
    Client,
    Api,
    Consumer,
    Other(u16),
}

impl ServicePort {
    /// The base port of this kind of service.
    pub open spec fn base(&self) -> u16 {
        match self {
            ServicePort::Client => 7000,
            ServicePort::Api => 9000,
            ServicePort::Consumer => 10000,
            ServicePort::Other(port) => *port,
        }
    }

    pub fn get(&self) -> (r: u16)
        ensures
            r == self.base(),
    {
        match self {
            ServicePort::Client => 7000,
            ServicePort::Api => 9000,
            ServicePort::Consumer => 10000,
            ServicePort::Other(port) => *port,
        }
    }

    /// The base port shifted by `port_base`; the sum must be a valid port.
    pub fn get_with_offset(&self, port_base: u16) -> (r: u16)
        requires
            self.base() + port_base <= u16::MAX,
        ensures
            r == self.base() + port_base,
    {
        self.get() + port_base
    }
}

} // verus!
