//! The harness handle: where the server is, and how requests to it begin.
use crate::addr::ServerAddr;
use crate::error::Error;
use crate::request::{Method, RequestBuilder, RequestModel};
use crate::response::TestResponse;
use vstd::prelude::*;
use vstd::string::*;

verus! {

/// The path that is asked for to learn whether the server is up.
pub const PROBE_PATH: &'static str = "/auth/signin";

/// How long to wait after a probe that met no server, in milliseconds.
pub const PROBE_INTERVAL_MILLIS: u64 = 50;

/// The URL of `path` on the server at `addr`: plain HTTP, the address, and
/// the path as the caller wrote it.
pub open spec fn url_on(addr: ServerAddr, path: Seq<char>) -> Seq<char> {
    "http://"@ + addr.text() + path
}

/// A handle on one served application that is known to be up. Its address
/// never changes.
#[derive(Debug)]
pub struct TestClient {
    addr: ServerAddr,
}

/// A harness that is being set up: the address is chosen, and the server on
/// it has not answered yet.
#[derive(Debug)]
pub struct Launch {
    addr: ServerAddr,
}

/// What follows a probe of the freshly launched server.
#[derive(Debug)]
pub enum Readiness {
    /// The server answered: setup is done, and this is the handle.
    Started(TestClient),
    /// Nothing answered: sleep this long, then probe again.
    RetryAfter { millis: u64 },
}

impl Launch {
    /// The address to serve the application on.
    pub closed spec fn server(self) -> ServerAddr {
        self.addr
    }

    /// The address to serve the application on.
    pub fn addr(&self) -> (r: ServerAddr)
        ensures
            r == self.server(),
    {
        self.addr
    }

    /// The request that probes the server: a GET for the probe path.
    pub fn probe(&self) -> (r: RequestBuilder)
        ensures
            r@ == Ok::<RequestModel, Error>(
                RequestModel::fresh(Method::Get, url_on(self.server(), PROBE_PATH@)),
            ),
    {
        begin(self.addr, Method::Get, PROBE_PATH)
    }

    /// Decides what follows a probe. Any response, whatever its status,
    /// shows that the server is up, and gives the handle on it; any failure
    /// means that the probe is to be sent again after the probe interval,
    /// however often it has failed.
    pub fn wait_until_server_started(&self, probed: &Result<TestResponse, Error>) -> (r: Readiness)
        ensures
            match *probed {
                Ok(_) => r matches Readiness::Started(client) && client.server() == self.server(),
                Err(_) => r matches Readiness::RetryAfter { millis }
                    && millis == PROBE_INTERVAL_MILLIS,
            },
    {
        match probed {
            Ok(_) => Readiness::Started(TestClient { addr: self.addr }),
            Err(_) => Readiness::RetryAfter { millis: PROBE_INTERVAL_MILLIS },
        }
    }
}

/// Begins a request of `method` for `path` on the server at `addr`.
fn begin(addr: ServerAddr, method: Method, path: &str) -> (r: RequestBuilder)
    ensures
        r@ == Ok::<RequestModel, Error>(RequestModel::fresh(method, url_on(addr, path@))),
{
    let mut url = String::from_str("http://");
    url.append(addr.authority().as_str());
    url.append(path);
    RequestBuilder::new(method, url)
}

impl TestClient {
    /// The address the application is served on.
    pub closed spec fn server(self) -> ServerAddr {
        self.addr
    }

    /// Begins the setup of a harness for an application that is to be
    /// served on `free_port` of every local interface. The handle comes out
    /// of the setup once a probe has been answered.
    pub fn new(free_port: u16) -> (r: Launch)
        ensures
            r.server().octets@ == seq![0u8, 0u8, 0u8, 0u8],
            r.server().port == free_port,
    {
        Launch { addr: ServerAddr::any_interface(free_port) }
    }

    /// The address the application is served on.
    pub fn addr(&self) -> (r: ServerAddr)
        ensures
            r == self.server(),
    {
        self.addr
    }

    /// Begins a GET request for `url`, a path on the server.
    pub fn get(&self, url: &str) -> (r: RequestBuilder)
        ensures
            r@ == Ok::<RequestModel, Error>(
                RequestModel::fresh(Method::Get, url_on(self.server(), url@)),
            ),
    {
        begin(self.addr, Method::Get, url)
    }

    /// Begins a HEAD request for `url`, a path on the server.
    pub fn head(&self, url: &str) -> (r: RequestBuilder)
        ensures
            r@ == Ok::<RequestModel, Error>(
                RequestModel::fresh(Method::Head, url_on(self.server(), url@)),
            ),
    {
        begin(self.addr, Method::Head, url)
    }

    /// Begins a POST request for `url`, a path on the server.
    pub fn post(&self, url: &str) -> (r: RequestBuilder)
        ensures
            r@ == Ok::<RequestModel, Error>(
                RequestModel::fresh(Method::Post, url_on(self.server(), url@)),
            ),
    {
        begin(self.addr, Method::Post, url)
    }

    /// Begins a PUT request for `url`, a path on the server.
    pub fn put(&self, url: &str) -> (r: RequestBuilder)
        ensures
            r@ == Ok::<RequestModel, Error>(
                RequestModel::fresh(Method::Put, url_on(self.server(), url@)),
            ),
    {
        begin(self.addr, Method::Put, url)
    }

    /// Begins a PATCH request for `url`, a path on the server.
    pub fn patch(&self, url: &str) -> (r: RequestBuilder)
        ensures
            r@ == Ok::<RequestModel, Error>(
                RequestModel::fresh(Method::Patch, url_on(self.server(), url@)),
            ),
    {
        begin(self.addr, Method::Patch, url)
    }

    /// Begins a DELETE request for `url`, a path on the server.
    pub fn delete(&self, url: &str) -> (r: RequestBuilder)
        ensures
            r@ == Ok::<RequestModel, Error>(
                RequestModel::fresh(Method::Delete, url_on(self.server(), url@)),
            ),
    {
        begin(self.addr, Method::Delete, url)
    }
}

} // verus!
