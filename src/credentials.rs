//! The metadata credential resolver.
//!
//! Resolving credentials takes two requests to the metadata service: the
//! first names the role assigned to the instance, the second fetches that
//! role's credentials as a JSON document. The resolver decides what to request
//! and what each answer means; the caller performs the requests.
use vstd::prelude::*;
use vstd::string::*;

verus! {

/// Address of the instance metadata service.
pub const METADATA_ENDPOINT: &'static str = "http://169.254.169.254";

/// Path below the endpoint that names the role; the role's credentials lie
/// at this path followed by the role name.
pub const ROLE_PATH: &'static str = "/latest/meta-data/iam/security-credentials/";

/// Label that marks credentials as produced by this resolver.
pub const PROVIDER_NAME: &'static str = "MmdsProvider";

/// Member of the credential document holding the access key id.
pub const ACCESS_KEY_ID_FIELD: &'static str = "AccessKeyId";

/// Member of the credential document holding the secret key.
pub const SECRET_ACCESS_KEY_FIELD: &'static str = "SecretAccessKey";

/// Member of the credential document holding the session token.
pub const TOKEN_FIELD: &'static str = "Token";

/// Member of the credential document holding the RFC 3339 expiration.
pub const EXPIRATION_FIELD: &'static str = "Expiration";

/// The text that `bytes` hold when they are valid UTF-8.
pub uninterp spec fn utf8_text(bytes: Seq<u8>) -> Option<Seq<char>>;

/// Whether `bytes` hold one JSON document.
pub uninterp spec fn json_document(bytes: Seq<u8>) -> bool;

/// The string that member `key` of the JSON object in `bytes` holds, when the
/// document is an object with such a member and its value is a string.
pub uninterp spec fn json_text_member(bytes: Seq<u8>, key: Seq<char>) -> Option<Seq<char>>;

/// The instant that an RFC 3339 date-time denotes, as whole seconds since the
/// Unix epoch and the nanoseconds past that second.
pub uninterp spec fn rfc3339_instant(text: Seq<char>) -> Option<(i64, u32)>;

/// Relies on `std::str::from_utf8`: the bytes read as text when they are
/// valid UTF-8, nothing otherwise.
#[verifier::external_body]
fn decode_utf8(bytes: &[u8]) -> (r: Option<String>)
    ensures
        r is Some ==> utf8_text(bytes@) == Some(r->Some_0@),
        r is None ==> utf8_text(bytes@) is None,
{
    std::str::from_utf8(bytes).ok().map(|t| t.to_owned())
}

/// Relies on `serde_json::from_slice::<serde_json::Value>`: whether the bytes
/// parse as a JSON document.
#[verifier::external_body]
fn is_json(bytes: &[u8]) -> (r: bool)
    ensures
        r == json_document(bytes@),
{
    serde_json::from_slice::<serde_json::Value>(bytes).is_ok()
}

/// Relies on `serde_json::from_slice::<serde_json::Value>`, then
/// `Value::get` and `Value::as_str`: the string value of member `key` of the
/// top-level object. Nothing comes back from bytes that do not parse.
#[verifier::external_body]
fn text_member(bytes: &[u8], key: &str) -> (r: Option<String>)
    ensures
        r is Some ==> json_text_member(bytes@, key@) == Some(r->Some_0@),
        r is None ==> json_text_member(bytes@, key@) is None,
        r is Some ==> json_document(bytes@),
{
    let doc = serde_json::from_slice::<serde_json::Value>(bytes).ok()?;
    doc.get(key).and_then(|v| v.as_str()).map(|t| t.to_owned())
}

/// Relies on `chrono::DateTime::parse_from_rfc3339`, read back through
/// `timestamp` and `timestamp_subsec_nanos`.
#[verifier::external_body]
fn parse_rfc3339(text: &str) -> (r: Option<(i64, u32)>)
    ensures
        r == rfc3339_instant(text@),
{
    chrono::DateTime::parse_from_rfc3339(text).ok().map(|d| (d.timestamp(), d.timestamp_subsec_nanos()))
}

/// Why a resolution failed.
#[derive(Clone, Copy, Debug, PartialEq, Eq, Structural)]
pub enum ResolutionError {
    /// The service could not be reached, or answered with a non-2xx status.
    Network,
    /// A body is not text, or not JSON, where one was expected.
    Decode,
    /// The credential document lacks a required string member.
    Schema,
    /// The expiration is not a valid RFC 3339 date-time.
    Timestamp,
}

/// An absolute instant: seconds since the Unix epoch and nanoseconds past them.
#[derive(Clone, Copy, Debug, PartialEq, Eq, Structural)]
pub struct Expiration {
    pub secs: i64,
    pub nanos: u32,
}

/// Credentials handed to the credential chain.
#[derive(Clone, Debug)]
pub struct ResolvedCredentials {
    pub access_key_id: String,
    pub secret_access_key: String,
    pub session_token: String,
    pub expiration: Expiration,
    pub provider_name: String,
}

/// The value of a `ResolvedCredentials`.
pub struct CredentialsView {
    pub access_key_id: Seq<char>,
    pub secret_access_key: Seq<char>,
    pub session_token: Seq<char>,
    pub expiration: Expiration,
    pub provider_name: Seq<char>,
}

impl View for ResolvedCredentials {
    type V = CredentialsView;

    open spec fn view(&self) -> CredentialsView {
        CredentialsView {
            access_key_id: self.access_key_id@,
            secret_access_key: self.secret_access_key@,
            session_token: self.session_token@,
            expiration: self.expiration,
            provider_name: self.provider_name@,
        }
    }
}

/// The value of a resolution outcome.
pub open spec fn outcome_view(r: Result<ResolvedCredentials, ResolutionError>) -> Result<CredentialsView, ResolutionError> {
    match r {
        Ok(c) => Ok(c@),
        Err(e) => Err(e),
    }
}

/// The error that a credential document gives, if any: it must be JSON, hold
/// the four members as strings, and its expiration must be a valid date-time.
pub open spec fn document_error(body: Seq<u8>) -> Option<ResolutionError> {
    if !json_document(body) {
        Some(ResolutionError::Decode)
    } else if json_text_member(body, ACCESS_KEY_ID_FIELD@) is None
        || json_text_member(body, SECRET_ACCESS_KEY_FIELD@) is None
        || json_text_member(body, TOKEN_FIELD@) is None
        || json_text_member(body, EXPIRATION_FIELD@) is None {
        Some(ResolutionError::Schema)
    } else if rfc3339_instant(json_text_member(body, EXPIRATION_FIELD@)->Some_0) is None {
        Some(ResolutionError::Timestamp)
    } else {
        None
    }
}

/// The credentials that a document without error carries.
pub open spec fn document_credentials(body: Seq<u8>) -> CredentialsView {
    let instant = rfc3339_instant(json_text_member(body, EXPIRATION_FIELD@)->Some_0)->Some_0;
    CredentialsView {
        access_key_id: json_text_member(body, ACCESS_KEY_ID_FIELD@)->Some_0,
        secret_access_key: json_text_member(body, SECRET_ACCESS_KEY_FIELD@)->Some_0,
        session_token: json_text_member(body, TOKEN_FIELD@)->Some_0,
        expiration: Expiration { secs: instant.0, nanos: instant.1 },
        provider_name: PROVIDER_NAME@,
    }
}

/// What a credential document resolves to.
pub open spec fn document_outcome(body: Seq<u8>) -> Result<CredentialsView, ResolutionError> {
    match document_error(body) {
        Some(e) => Err(e),
        None => Ok(document_credentials(body)),
    }
}

/// Reads a credential document into credentials.
pub fn parse_document(body: &[u8]) -> (r: Result<ResolvedCredentials, ResolutionError>)
    ensures
        outcome_view(r) == document_outcome(body@),
{
    if !is_json(body) {
        return Err(ResolutionError::Decode);
    }
    let access_key_id = match text_member(body, ACCESS_KEY_ID_FIELD) {
        Some(t) => t,
        None => return Err(ResolutionError::Schema),
    };
    let secret_access_key = match text_member(body, SECRET_ACCESS_KEY_FIELD) {
        Some(t) => t,
        None => return Err(ResolutionError::Schema),
    };
    let session_token = match text_member(body, TOKEN_FIELD) {
        Some(t) => t,
        None => return Err(ResolutionError::Schema),
    };
    let expiration_text = match text_member(body, EXPIRATION_FIELD) {
        Some(t) => t,
        None => return Err(ResolutionError::Schema),
    };
    let instant = match parse_rfc3339(expiration_text.as_str()) {
        Some(p) => p,
        None => return Err(ResolutionError::Timestamp),
    };
    Ok(ResolvedCredentials {
        access_key_id,
        secret_access_key,
        session_token,
        expiration: Expiration { secs: instant.0, nanos: instant.1 },
        provider_name: PROVIDER_NAME.to_owned(),
    })
}

/// What the metadata service gave back for one request.
#[derive(Clone, Debug)]
pub enum Reply {
    /// The request failed in transport, or its body could not be read.
    Unreachable,
    /// An answer with its status code and body.
    Received { status: u16, body: Vec<u8> },
}

/// Which request of a resolution an answer belongs to.
#[derive(Clone, Copy, Debug, PartialEq, Eq, Structural)]
pub enum Stage {
    /// The request that names the role.
    DiscoverRole,
    /// The request for the role's credential document.
    FetchCredentials,
}

/// What a resolution does next.
#[derive(Debug)]
pub enum Step {
    /// Send a GET to this URL and hand its reply back for this stage.
    Fetch(Stage, String),
    /// The resolution is over, with this outcome.
    Done(Result<ResolvedCredentials, ResolutionError>),
}

/// Whether a status code reports success.
pub open spec fn is_success(status: u16) -> bool {
    200 <= status && status < 300
}

/// Where the credentials of the role named in a discovery reply lie, or why
/// the resolution ends there.
pub open spec fn role_outcome(endpoint: Seq<char>, reply: Reply) -> Result<Seq<char>, ResolutionError> {
    match reply {
        Reply::Unreachable => Err(ResolutionError::Network),
        Reply::Received { status, body } => if !is_success(status) {
            Err(ResolutionError::Network)
        } else {
            match utf8_text(body@) {
                Some(role) => Ok(endpoint + ROLE_PATH@ + role),
                None => Err(ResolutionError::Decode),
            }
        },
    }
}

/// What a reply to the credential request resolves to.
pub open spec fn credentials_outcome(reply: Reply) -> Result<CredentialsView, ResolutionError> {
    match reply {
        Reply::Unreachable => Err(ResolutionError::Network),
        Reply::Received { status, body } => if !is_success(status) {
            Err(ResolutionError::Network)
        } else {
            document_outcome(body@)
        },
    }
}

/// Whether a credential document is JSON holding the four members as strings,
/// with an expiration that is a valid RFC 3339 date-time.
pub open spec fn well_formed_document(body: Seq<u8>) -> bool {
    &&& json_document(body)
    &&& json_text_member(body, ACCESS_KEY_ID_FIELD@) is Some
    &&& json_text_member(body, SECRET_ACCESS_KEY_FIELD@) is Some
    &&& json_text_member(body, TOKEN_FIELD@) is Some
    &&& json_text_member(body, EXPIRATION_FIELD@) is Some
    &&& rfc3339_instant(json_text_member(body, EXPIRATION_FIELD@)->Some_0) is Some
}

/// When the service names a role in text and then answers with a well-formed
/// document, both with success, the credentials are fetched from the role URL
/// followed by that name, and the resolved credentials carry exactly the
/// document's access key id, secret key and token, the instant its expiration
/// denotes, and this resolver's label.
pub proof fn lemma_well_formed_exchange(endpoint: Seq<char>, role_status: u16, role_body: Vec<u8>, doc_status: u16, doc_body: Vec<u8>)
    requires
        is_success(role_status),
        utf8_text(role_body@) is Some,
        is_success(doc_status),
        well_formed_document(doc_body@),
    ensures
        role_outcome(endpoint, Reply::Received { status: role_status, body: role_body })
            == Ok::<Seq<char>, ResolutionError>(endpoint + ROLE_PATH@ + utf8_text(role_body@)->Some_0),
        ({
            let instant = rfc3339_instant(json_text_member(doc_body@, EXPIRATION_FIELD@)->Some_0)->Some_0;
            credentials_outcome(Reply::Received { status: doc_status, body: doc_body })
                == Ok::<CredentialsView, ResolutionError>(CredentialsView {
                    access_key_id: json_text_member(doc_body@, ACCESS_KEY_ID_FIELD@)->Some_0,
                    secret_access_key: json_text_member(doc_body@, SECRET_ACCESS_KEY_FIELD@)->Some_0,
                    session_token: json_text_member(doc_body@, TOKEN_FIELD@)->Some_0,
                    expiration: Expiration { secs: instant.0, nanos: instant.1 },
                    provider_name: PROVIDER_NAME@,
                })
        }),
{
}

/// When the role request fails in transport or gets a non-2xx status, the
/// resolution ends there with a network error: no second request is made.
pub proof fn lemma_failed_discovery_ends(endpoint: Seq<char>, reply: Reply)
    requires
        reply is Unreachable || !is_success(reply->status),
    ensures
        role_outcome(endpoint, reply) == Err::<Seq<char>, ResolutionError>(ResolutionError::Network),
{
}

/// A JSON document that lacks one of the four members, or holds one that is
/// not a string, resolves to a schema error.
pub proof fn lemma_missing_member_is_schema_error(body: Seq<u8>)
    requires
        json_document(body),
        json_text_member(body, ACCESS_KEY_ID_FIELD@) is None
            || json_text_member(body, SECRET_ACCESS_KEY_FIELD@) is None
            || json_text_member(body, TOKEN_FIELD@) is None
            || json_text_member(body, EXPIRATION_FIELD@) is None,
    ensures
        document_outcome(body) == Err::<CredentialsView, ResolutionError>(ResolutionError::Schema),
{
}

/// A complete document whose expiration is not a valid date-time resolves to
/// a timestamp error.
pub proof fn lemma_invalid_expiration_is_timestamp_error(body: Seq<u8>)
    requires
        json_document(body),
        json_text_member(body, ACCESS_KEY_ID_FIELD@) is Some,
        json_text_member(body, SECRET_ACCESS_KEY_FIELD@) is Some,
        json_text_member(body, TOKEN_FIELD@) is Some,
        json_text_member(body, EXPIRATION_FIELD@) is Some,
        rfc3339_instant(json_text_member(body, EXPIRATION_FIELD@)->Some_0) is None,
    ensures
        document_outcome(body) == Err::<CredentialsView, ResolutionError>(ResolutionError::Timestamp),
{
}

/// Resolver of credentials from the metadata service at `endpoint`. It holds
/// no state between resolutions, so any number may run at once.
#[derive(Clone, Debug)]
pub struct MmdsProvider {
    pub endpoint: String,
}

impl MmdsProvider {
    /// A resolver for the metadata service at its well-known address.
    pub fn new() -> (r: MmdsProvider)
        ensures
            r.endpoint@ == METADATA_ENDPOINT@,
    {
        MmdsProvider { endpoint: METADATA_ENDPOINT.to_owned() }
    }

    /// The URL that names the role.
    pub open spec fn role_url(&self) -> Seq<char> {
        self.endpoint@ + ROLE_PATH@
    }

    /// The first step of a resolution: ask for the role.
    pub fn start(&self) -> (r: Step)
        ensures
            r is Fetch,
            r->Fetch_0 == Stage::DiscoverRole,
            r->Fetch_1@ == self.role_url(),
    {
        let mut url = self.endpoint.clone();
        url.append(ROLE_PATH);
        Step::Fetch(Stage::DiscoverRole, url)
    }

    /// The step that follows the reply to the request of `stage`. After the
    /// role is named, the credentials are fetched from the role URL followed by
    /// the name exactly as it came, a trailing newline included; after the
    /// credential document the resolution is done.
    pub fn step(&self, stage: Stage, reply: Reply) -> (r: Step)
        ensures
            stage == Stage::DiscoverRole ==> match role_outcome(self.endpoint@, reply) {
                Ok(url) => r is Fetch && r->Fetch_0 == Stage::FetchCredentials && r->Fetch_1@ == url,
                Err(e) => r == Step::Done(Err(e)),
            },
            stage == Stage::FetchCredentials ==> r is Done && outcome_view(r->Done_0) == credentials_outcome(reply),
    {
        let (status, body) = match reply {
            Reply::Unreachable => return Step::Done(Err(ResolutionError::Network)),
            Reply::Received { status, body } => (status, body),
        };
        if status < 200 || status >= 300 {
            return Step::Done(Err(ResolutionError::Network));
        }
        match stage {
            Stage::DiscoverRole => match decode_utf8(body.as_slice()) {
                Some(role) => {
                    let mut url = self.endpoint.clone();
                    url.append(ROLE_PATH);
                    url.append(role.as_str());
                    Step::Fetch(Stage::FetchCredentials, url)
                },
                None => Step::Done(Err(ResolutionError::Decode)),
            },
            Stage::FetchCredentials => Step::Done(parse_document(body.as_slice())),
        }
    }
}

} // verus!
