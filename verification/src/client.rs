//! The client: a base address, and the requests that it addresses.

use crate::error::ClientError;
use crate::exchange::{Operation, Request};
use crate::payload::{GeneratePayload, InputPayload};
use url::Url;
use vstd::pervasive::unreached;
use vstd::prelude::*;

verus! {

/// The address that `reference` names when read against `base`, written out:
/// what `Url::join` gives, on the address that `Url::parse` reads from `base`,
/// for `reference`. `None` where `base` is no absolute address, or where the
/// two do not combine.
pub uninterp spec fn resolved(base: Seq<char>, reference: Seq<char>) -> Option<Seq<char>>;

/// `Url::parse` on `base`, then `Url::join` with `reference` on what it
/// read. The result is the text of the joined address; a refusal by either
/// call gives `None`.
#[verifier::external_body]
fn resolve(base: &str, reference: &str) -> (r: Option<String>)
    ensures
        r is Some <==> resolved(base@, reference@) is Some,
        r matches Some(url) ==> resolved(base@, reference@) == Some(url@),
{
    match Url::parse(base) {
        Ok(address) => match address.join(reference) {
            Ok(joined) => Some(String::from(joined)),
            Err(_) => None,
        },
        Err(_) => None,
    }
}

/// A client of the service at one base address.
pub struct MarkovChainClient {
    addr: String,
}

impl View for MarkovChainClient {
    type V = Seq<char>;

    /// The base address, as it was given.
    closed spec fn view(&self) -> Seq<char> {
        self.addr@
    }
}

impl MarkovChainClient {
    /// Whether `addr` can be a client's base: both endpoints resolve against
    /// it.
    pub open spec fn serves(addr: Seq<char>) -> bool {
        resolved(addr, "input"@) is Some && resolved(addr, "generate"@) is Some
    }

    #[verifier::type_invariant]
    spec fn well_formed(self) -> bool {
        Self::serves(self.addr@)
    }

    /// A client for the service at `addr`, which is known to be fit for a
    /// base. For an address of which that is not known there is `try_new`.
    #[must_use]
    pub fn new(addr: &str) -> (client: Self)
        requires
            Self::serves(addr@),
        ensures
            client@ == addr@,
    {
        MarkovChainClient { addr: addr.to_owned() }
    }

    /// A client for the service at `addr`, or `None` where `addr` cannot be
    /// the base of one.
    pub fn try_new(addr: &str) -> (r: Option<Self>)
        ensures
            r is Some <==> Self::serves(addr@),
            r matches Some(client) ==> client@ == addr@,
    {
        if resolve(addr, "input").is_some() && resolve(addr, "generate").is_some() {
            Some(Self::new(addr))
        } else {
            None
        }
    }

    /// The request that hands `payload` to the service: its JSON form, to
    /// the endpoint `input`.
    pub fn input(&self, payload: InputPayload) -> (r: Result<Request, ClientError>)
        ensures
            r matches Ok(request) && request.operation == Operation::Input && resolved(
                self@,
                "input"@,
            ) == Some(request.url@) && request.body@ == payload.json(),
    {
        proof {
            use_type_invariant(self);
        }
        let url = self.get_url("input");
        match payload.to_json() {
            Ok(body) => Ok(Request { operation: Operation::Input, url, body }),
            Err(e) => Err(e),
        }
    }

    /// The request that asks the service for a text as `payload` describes
    /// it: its JSON form, to the endpoint `generate`.
    pub fn generate(&self, payload: GeneratePayload) -> (r: Result<Request, ClientError>)
        ensures
            r matches Ok(request) && request.operation == Operation::Generate && resolved(
                self@,
                "generate"@,
            ) == Some(request.url@) && request.body@ == payload.json(),
    {
        proof {
            use_type_invariant(self);
        }
        let url = self.get_url("generate");
        match payload.to_json() {
            Ok(body) => Ok(Request { operation: Operation::Generate, url, body }),
            Err(e) => Err(e),
        }
    }

    /// The address of `endpoint`, read against the base.
    fn get_url(&self, endpoint: &str) -> (url: String)
        requires
            resolved(self@, endpoint@) is Some,
        ensures
            resolved(self@, endpoint@) == Some(url@),
    {
        match resolve(self.addr.as_str(), endpoint) {
            Some(url) => url,
            None => unreached(),
        }
    }
}

/// The endpoint of `input` is fixed: whatever text is handed in, the request
/// goes to the one address that the base decides.
pub proof fn lemma_input_endpoint_is_fixed(
    client: MarkovChainClient,
    first: InputPayload,
    second: InputPayload,
    requests: (Result<Request, ClientError>, Result<Request, ClientError>),
)
    requires
        call_ensures(MarkovChainClient::input, (&client, first), requests.0),
        call_ensures(MarkovChainClient::input, (&client, second), requests.1),
    ensures
        requests.0 is Ok && requests.1 is Ok,
        requests.0->Ok_0.url@ == requests.1->Ok_0.url@,
        resolved(client@, "input"@) == Some(requests.0->Ok_0.url@),
{
}

/// The endpoint of `generate` is fixed: whatever is asked for, the request
/// goes to the one address that the base decides.
pub proof fn lemma_generate_endpoint_is_fixed(
    client: MarkovChainClient,
    first: GeneratePayload,
    second: GeneratePayload,
    requests: (Result<Request, ClientError>, Result<Request, ClientError>),
)
    requires
        call_ensures(MarkovChainClient::generate, (&client, first), requests.0),
        call_ensures(MarkovChainClient::generate, (&client, second), requests.1),
    ensures
        requests.0 is Ok && requests.1 is Ok,
        requests.0->Ok_0.url@ == requests.1->Ok_0.url@,
        resolved(client@, "generate"@) == Some(requests.0->Ok_0.url@),
{
}

} // verus!
