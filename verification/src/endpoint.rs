//! The device that is polled: where it is reached and the shared secret
//! that authorises the queries.

use vstd::prelude::*;
use vstd::string::*;
use crate::decimal::{decimal_text, render_decimal};

verus! {

/// The port on which a device answers management queries.
pub const AGENT_PORT: u16 = 161;

/// A device endpoint, fixed once it has been made.
#[derive(Clone, Debug, PartialEq, Eq)]
pub struct Endpoint {
    host: String,
    community: Vec<u8>,
}

/// Mathematical model of an [`Endpoint`].
pub struct EndpointView {
    pub host: Seq<char>,
    pub community: Seq<u8>,
}

impl View for Endpoint {
    type V = EndpointView;

    closed spec fn view(&self) -> EndpointView {
        EndpointView { host: self.host@, community: self.community@ }
    }
}

/// The socket address of the agent on `host`: the host, a colon, and the
/// agent port in decimal.
pub open spec fn address_of(host: Seq<char>) -> Seq<char> {
    host + ":"@ + decimal_text(AGENT_PORT as nat)
}

/// The address is the host followed by `:161`.
pub proof fn lemma_address_text(host: Seq<char>)
    ensures
        address_of(host) == host + ":161"@,
{
    reveal_with_fuel(decimal_text, 3);
    reveal_strlit(":");
    reveal_strlit(":161");
    assert(decimal_text(161) =~= seq!['1', '6', '1']);
    assert(address_of(host) =~= host + ":161"@);
}

impl Endpoint {
    /// The endpoint of the agent on `host` that accepts `community`.
    pub fn new(host: String, community: Vec<u8>) -> (endpoint: Endpoint)
        ensures
            endpoint@ == (EndpointView { host: host@, community: community@ }),
    {
        Endpoint { host, community }
    }

    /// The host name or address as it was given.
    pub fn host(&self) -> (host: &str)
        ensures
            host@ == self@.host,
    {
        self.host.as_str()
    }

    /// The community string, sent along with every query.
    pub fn community(&self) -> (community: &[u8])
        ensures
            community@ == self@.community,
    {
        self.community.as_slice()
    }

    /// The socket address to open a session to.
    pub fn address(&self) -> (address: String)
        ensures
            address@ == address_of(self@.host),
    {
        let mut address: String = self.host.clone();
        address.append(":");
        let port: String = render_decimal(AGENT_PORT as u32);
        address.append(port.as_str());
        address
    }
}

} // verus!
