//! What a server declares before it serves: its routes, the address it
//! listens on and its cross-origin policy.
//!
//! Two services share this shape and nothing else. Each answers `GET` on
//! its own paths; any other path or method is left to the HTTP layer's
//! default answer.

use vstd::prelude::*;

verus! {

/// The TCP port that both services listen on.
pub const LISTEN_PORT: u16 = 8000;

/// One of the two services.
#[derive(Clone, Copy, Debug, PartialEq, Eq, Structural)]
pub enum Service {
    /// Serves one stored greeting.
    Greeting,
    /// Serves the organization and notification feeds.
    Feed,
}

/// A path that answers `GET`.
#[derive(Clone, Copy, Debug, PartialEq, Eq, Structural)]
pub enum Endpoint {
    Hello,
    Organizations,
    Notifications,
}

/// Where a server listens: an IPv4 address and a port.
#[derive(Clone, Copy, Debug, PartialEq, Eq, Structural)]
pub struct ListenAddress {
    pub a: u8,
    pub b: u8,
    pub c: u8,
    pub d: u8,
    pub port: u16,
}

/// What a browser page from another origin may do with the responses.
#[derive(Clone, Copy, Debug, PartialEq, Eq, Structural)]
pub struct CrossOriginPolicy {
    pub any_origin: bool,
    pub any_method: bool,
    pub any_header: bool,
}

impl Endpoint {
    /// The path of this endpoint.
    pub open spec fn spec_path(self) -> Seq<char> {
        match self {
            Endpoint::Hello => "/api/hello"@,
            Endpoint::Organizations => "/api/organizations"@,
            Endpoint::Notifications => "/api/notifications"@,
        }
    }

    /// The service that answers this endpoint.
    pub open spec fn spec_service(self) -> Service {
        match self {
            Endpoint::Hello => Service::Greeting,
            Endpoint::Organizations => Service::Feed,
            Endpoint::Notifications => Service::Feed,
        }
    }

    /// The path to register this endpoint under.
    pub fn path(self) -> (text: &'static str)
        ensures
            text@ == self.spec_path(),
    {
        match self {
            Endpoint::Hello => "/api/hello",
            Endpoint::Organizations => "/api/organizations",
            Endpoint::Notifications => "/api/notifications",
        }
    }

    /// The service that answers this endpoint.
    pub fn service(self) -> (owner: Service)
        ensures
            owner == self.spec_service(),
    {
        match self {
            Endpoint::Hello => Service::Greeting,
            Endpoint::Organizations => Service::Feed,
            Endpoint::Notifications => Service::Feed,
        }
    }
}

impl Service {
    /// The endpoints of this service, in the order they are registered.
    pub open spec fn spec_endpoints(self) -> Seq<Endpoint> {
        match self {
            Service::Greeting => seq![Endpoint::Hello],
            Service::Feed => seq![Endpoint::Organizations, Endpoint::Notifications],
        }
    }

    /// The endpoints to register for this service, in order.
    pub fn endpoints(self) -> (table: Vec<Endpoint>)
        ensures
            table@ == self.spec_endpoints(),
    {
        let table = match self {
            Service::Greeting => vec![Endpoint::Hello],
            Service::Feed => vec![Endpoint::Organizations, Endpoint::Notifications],
        };
        assert(table@ =~= self.spec_endpoints());
        table
    }
}

/// The address to bind: every interface, on `LISTEN_PORT`.
pub fn listen_address() -> (address: ListenAddress)
    ensures
        address == (ListenAddress { a: 0, b: 0, c: 0, d: 0, port: 8000 }),
{
    ListenAddress { a: 0, b: 0, c: 0, d: 0, port: LISTEN_PORT }
}

/// The cross-origin policy of both services: any origin, any method, any
/// header.
pub fn cross_origin_policy() -> (policy: CrossOriginPolicy)
    ensures
        policy == (CrossOriginPolicy { any_origin: true, any_method: true, any_header: true }),
{
    CrossOriginPolicy { any_origin: true, any_method: true, any_header: true }
}

/// No two endpoints share a path, so a route table built from them never
/// registers a path twice.
pub proof fn paths_are_distinct(first: Endpoint, second: Endpoint)
    requires
        first.spec_path() == second.spec_path(),
    ensures
        first == second,
{
    reveal_strlit("/api/hello");
    reveal_strlit("/api/organizations");
    reveal_strlit("/api/notifications");
    assert("/api/hello"@.len() == 10);
    assert("/api/organizations"@.len() == 18);
    assert("/api/organizations"@[5] == 'o');
    assert("/api/notifications"@[5] == 'n');
}

/// A service's table lists exactly the endpoints that it answers, each once.
pub proof fn table_lists_own_endpoints(service: Service, endpoint: Endpoint)
    ensures
        service.spec_endpoints().contains(endpoint) <==> endpoint.spec_service() == service,
        service.spec_endpoints().no_duplicates(),
{
    let table = service.spec_endpoints();
    if endpoint.spec_service() == service {
        match endpoint {
            Endpoint::Hello => {
                assert(table[0] == endpoint);
            },
            Endpoint::Organizations => {
                assert(table[0] == endpoint);
            },
            Endpoint::Notifications => {
                assert(table[1] == endpoint);
            },
        }
    }
}

} // verus!
