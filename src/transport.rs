use vstd::prelude::*;

verus! {

#[verifier::external_type_specification]
#[verifier::external_body]
pub struct ExUri(http::Uri);

#[verifier::external_type_specification]
#[verifier::external_body]
pub struct ExHttpError(http::Error);

/// Whether `http` accepts a URI made of this scheme, authority and path-and-query.
pub uninterp spec fn uri_accepts(scheme: Seq<char>, authority: Seq<char>, path_and_query: Seq<char>) -> bool;

/// Relies on http's `Uri::builder().scheme(..).authority(..).path_and_query(..).build()`:
/// each part is parsed from the given text, and whether that succeeds depends on
/// the three texts alone.
#[verifier::external_body]
fn build_uri(scheme: &str, authority: &str, path_and_query: &str)
    -> (r: Result<http::Uri, http::Error>)
    ensures
        r is Ok <==> uri_accepts(scheme@, authority@, path_and_query@),
{
    http::Uri::builder().scheme(scheme).authority(authority).path_and_query(path_and_query).build()
}

/// Why an exchange failed on this side of the wire.
#[derive(Debug, Clone, Copy, PartialEq, Eq, Structural)]
pub enum TransportError {
    /// The caller's request carried no path-and-query to keep.
    MissingPathAndQuery,
    /// The scheme, authority and path-and-query do not form a valid URI.
    InvalidUri,
    /// Reading a chunk of the response body failed.
    BodyRead,
}

/// The target of an outgoing request, as its three textual parts.
#[derive(Debug)]
pub struct Target {
    pub scheme: String,
    pub authority: String,
    pub path_and_query: String,
}

/// A request as the library builds it: method, path-and-query, body bytes.
#[derive(Debug)]
pub struct ExchangeRequest {
    pub method: String,
    pub path_and_query: String,
    pub body: Vec<u8>,
}

/// The path of the host's "fetch the next event" endpoint.
pub open spec fn next_event_path() -> Seq<char> {
    "/runtime/invocation/next"@
}

/// The request that asks the host for the next event: a `GET` of the
/// next-event path with an empty body.
pub fn next_event_request() -> (r: ExchangeRequest)
    ensures
        r.method@ == "GET"@,
        r.path_and_query@ == next_event_path(),
        r.body@.len() == 0,
{
    ExchangeRequest {
        method: String::from_str("GET"),
        path_and_query: String::from_str("/runtime/invocation/next"),
        body: Vec::new(),
    }
}

/// The configuration of the transport: every outgoing request goes to this
/// scheme and authority, whatever the caller's request named.
#[derive(Debug)]
pub struct Client {
    scheme: String,
    authority: String,
}

impl Client {
    pub closed spec fn scheme_spec(&self) -> Seq<char> {
        self.scheme@
    }

    pub closed spec fn authority_spec(&self) -> Seq<char> {
        self.authority@
    }

    pub fn new(scheme: String, authority: String) -> (r: Client)
        ensures
            r.scheme_spec() == scheme@,
            r.authority_spec() == authority@,
    {
        Client { scheme, authority }
    }

    pub fn scheme(&self) -> (r: &str)
        ensures
            r@ == self.scheme_spec(),
    {
        self.scheme.as_str()
    }

    pub fn authority(&self) -> (r: &str)
        ensures
            r@ == self.authority_spec(),
    {
        self.authority.as_str()
    }

    /// The target that a request with this path-and-query is sent to: the
    /// client's scheme and authority, and the caller's path-and-query exactly.
    pub fn target_for(&self, path_and_query: Option<&str>) -> (r: Result<Target, TransportError>)
        ensures
            path_and_query is None <==> r is Err,
            r is Err ==> r == Err::<Target, TransportError>(TransportError::MissingPathAndQuery),
            r matches Ok(t) ==> {
                &&& t.scheme@ == self.scheme_spec()
                &&& t.authority@ == self.authority_spec()
                &&& t.path_and_query@ == path_and_query.unwrap()@
            },
    {
        match path_and_query {
            None => Err(TransportError::MissingPathAndQuery),
            Some(pq) => Ok(
                Target {
                    scheme: self.scheme.clone(),
                    authority: self.authority.clone(),
                    path_and_query: pq.to_string(),
                },
            ),
        }
    }

    /// The URI of the outgoing request for a caller's path-and-query: built
    /// from the client's scheme and authority and that path-and-query.
    pub fn rewrite_uri(&self, path_and_query: Option<&str>) -> (r: Result<http::Uri, TransportError>)
        ensures
            match path_and_query {
                None => r == Err::<http::Uri, TransportError>(TransportError::MissingPathAndQuery),
                Some(pq) => {
                    &&& r is Ok <==> uri_accepts(self.scheme_spec(), self.authority_spec(), pq@)
                    &&& r is Err ==> r == Err::<http::Uri, TransportError>(
                        TransportError::InvalidUri,
                    )
                },
            },
    {
        match self.target_for(path_and_query) {
            Err(e) => Err(e),
            Ok(t) => t.to_uri(),
        }
    }
}

impl Target {
    /// The URI made of this target's parts, or `InvalidUri` where they do not
    /// form one.
    pub fn to_uri(&self) -> (r: Result<http::Uri, TransportError>)
        ensures
            r is Ok <==> uri_accepts(self.scheme@, self.authority@, self.path_and_query@),
            r is Err ==> r == Err::<http::Uri, TransportError>(TransportError::InvalidUri),
    {
        match build_uri(self.scheme.as_str(), self.authority.as_str(), self.path_and_query.as_str()) {
            Ok(u) => Ok(u),
            Err(_) => Err(TransportError::InvalidUri),
        }
    }
}

} // verus!
