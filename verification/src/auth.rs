//! The conditional authenticator: which attempts are signed, with what,
//! and which headers carry the signature.
//!
//! Signing itself, the credential store and the clock are collaborators
//! of the caller. This module says what to ask of them and what to make
//! of their answers.

use vstd::prelude::*;
use vstd::string::StringExecFns;
use crate::origin::{Origin, OriginView};
use crate::region::region_found;
use crate::text::str_eq;

verus! {

/// Name of the store that holds the credentials of all origins.
pub const CREDENTIAL_STORE: &'static str = "bucket_auth";

/// Longest credential value that is read from the store, in bytes.
pub const MAX_CREDENTIAL_LEN: usize = 8000;

/// What follows an origin's backend name in the key of its access key id.
pub const ACCESS_KEY_ID_SUFFIX: &'static str = "_access_key_id";

/// What follows an origin's backend name in the key of its secret key.
pub const SECRET_ACCESS_KEY_SUFFIX: &'static str = "_secret_access_key";

/// Header of a signed request that carries the signature.
pub const AUTHORIZATION_HEADER: &'static str = "Authorization";

/// Header of a signed request that carries the hash of the empty body.
pub const CONTENT_HASH_HEADER: &'static str = "x-amz-content-sha256";

/// Header of a signed request that carries the time of signing.
pub const DATE_HEADER: &'static str = "x-amz-date";

/// How attempts are authenticated. Chosen when the service is deployed.
#[derive(Clone, Copy, Debug, PartialEq, Eq)]
pub enum Authenticator {
    /// No attempt is ever signed.
    Disabled,
    /// Read-only requests are signed when credentials can be had.
    Signing,
}

impl Authenticator {
    /// Whether this authenticator signs at all.
    pub open spec fn signs(self) -> bool {
        self is Signing
    }

    /// Whether this authenticator signs at all.
    pub fn is_signing(&self) -> (signing: bool)
        ensures
            signing == self.signs(),
    {
        match self {
            Authenticator::Disabled => false,
            Authenticator::Signing => true,
        }
    }
}

/// A method is signable when it only reads: `GET` and `HEAD`, and no
/// other.
pub open spec fn is_signable(method: Seq<char>) -> bool {
    method == "GET"@ || method == "HEAD"@
}

/// The method gate: whether a request with this method may be signed.
pub fn is_signable_method(method: &str) -> (signable: bool)
    ensures
        signable == is_signable(method@),
{
    str_eq(method, "GET") || str_eq(method, "HEAD")
}

/// One header of a request or of a response.
#[derive(Clone, Debug, PartialEq, Eq)]
pub struct Header {
    pub name: &'static str,
    pub value: String,
}

/// A header as mathematics.
pub struct HeaderView {
    pub name: Seq<char>,
    pub value: Seq<char>,
}

impl View for Header {
    type V = HeaderView;

    open spec fn view(&self) -> HeaderView {
        HeaderView { name: self.name@, value: self.value@ }
    }
}

/// What to read from the credential store for one origin.
#[derive(Clone, Debug, PartialEq, Eq)]
pub struct CredentialQuery {
    /// The store to open.
    pub store: &'static str,
    /// Key under which the access key id lies.
    pub access_key_id_name: String,
    /// Key under which the secret access key lies.
    pub secret_access_key_name: String,
    /// Longest value to read, in bytes.
    pub max_len: usize,
}

/// A credential query as mathematics.
pub struct CredentialQueryView {
    pub store: Seq<char>,
    pub access_key_id_name: Seq<char>,
    pub secret_access_key_name: Seq<char>,
    pub max_len: usize,
}

impl View for CredentialQuery {
    type V = CredentialQueryView;

    open spec fn view(&self) -> CredentialQueryView {
        CredentialQueryView {
            store: self.store@,
            access_key_id_name: self.access_key_id_name@,
            secret_access_key_name: self.secret_access_key_name@,
            max_len: self.max_len,
        }
    }
}

/// The query for the credentials of `origin`: both keys begin with the
/// origin's backend name.
pub open spec fn credential_query_of(origin: OriginView) -> CredentialQueryView {
    CredentialQueryView {
        store: CREDENTIAL_STORE@,
        access_key_id_name: origin.backend_name + ACCESS_KEY_ID_SUFFIX@,
        secret_access_key_name: origin.backend_name + SECRET_ACCESS_KEY_SUFFIX@,
        max_len: MAX_CREDENTIAL_LEN,
    }
}

/// What to read from the credential store for `origin`.
pub fn credential_query(origin: &Origin) -> (query: CredentialQuery)
    ensures
        query@ == credential_query_of(origin@),
{
    let mut access_key_id_name = String::from_str(origin.backend_name);
    access_key_id_name.append(ACCESS_KEY_ID_SUFFIX);
    let mut secret_access_key_name = String::from_str(origin.backend_name);
    secret_access_key_name.append(SECRET_ACCESS_KEY_SUFFIX);
    CredentialQuery {
        store: CREDENTIAL_STORE,
        access_key_id_name,
        secret_access_key_name,
        max_len: MAX_CREDENTIAL_LEN,
    }
}

/// What reading one key from the credential store gave.
#[derive(Clone, Debug, PartialEq, Eq)]
pub enum KeyRead {
    /// The key is present, with this value.
    Value(String),
    /// The store holds no such key.
    Absent,
    /// The key could not be read.
    Failed,
}

/// A key read as mathematics.
pub enum KeyReadView {
    Value(Seq<char>),
    Absent,
    Failed,
}

impl View for KeyRead {
    type V = KeyReadView;

    open spec fn view(&self) -> KeyReadView {
        match *self {
            KeyRead::Value(value) => KeyReadView::Value(value@),
            KeyRead::Absent => KeyReadView::Absent,
            KeyRead::Failed => KeyReadView::Failed,
        }
    }
}

/// What the credential store gave for a query.
#[derive(Clone, Debug, PartialEq, Eq)]
pub enum CredentialLookup {
    /// The store could not be opened, or is not valid.
    StoreUnavailable,
    /// The store was opened and both keys were read.
    Keys { access_key_id: KeyRead, secret_access_key: KeyRead },
}

/// A credential lookup as mathematics.
pub enum CredentialLookupView {
    StoreUnavailable,
    Keys { access_key_id: KeyReadView, secret_access_key: KeyReadView },
}

impl View for CredentialLookup {
    type V = CredentialLookupView;

    open spec fn view(&self) -> CredentialLookupView {
        match *self {
            CredentialLookup::StoreUnavailable => CredentialLookupView::StoreUnavailable,
            CredentialLookup::Keys { access_key_id, secret_access_key } => {
                CredentialLookupView::Keys {
                    access_key_id: access_key_id@,
                    secret_access_key: secret_access_key@,
                }
            },
        }
    }
}

/// Why a request is sent without a signature.
#[derive(Clone, Copy, Debug, PartialEq, Eq)]
pub enum Unsigned {
    /// Attempts are not signed in this deployment.
    SigningDisabled,
    /// The method of the request is neither `GET` nor `HEAD`.
    MethodNotSignable,
    /// The credential store could not be opened, or is not valid.
    StoreUnavailable,
    /// The access key id of the origin is absent or could not be read.
    AccessKeyIdMissing,
    /// The secret access key of the origin is absent or could not be
    /// read.
    SecretAccessKeyMissing,
}

/// The key pair that signs the requests to one origin.
#[derive(Clone, Debug, PartialEq, Eq)]
pub struct Credentials {
    pub access_key_id: String,
    pub secret_access_key: String,
}

/// Credentials as mathematics.
pub struct CredentialsView {
    pub access_key_id: Seq<char>,
    pub secret_access_key: Seq<char>,
}

impl View for Credentials {
    type V = CredentialsView;

    open spec fn view(&self) -> CredentialsView {
        CredentialsView {
            access_key_id: self.access_key_id@,
            secret_access_key: self.secret_access_key@,
        }
    }
}

/// The store gate and the key gate: credentials are present when the
/// store was opened and held both keys. Otherwise they are absent,
/// whatever the reason, and the first reason met is the one given.
pub open spec fn credentials_of(lookup: CredentialLookupView) -> Result<CredentialsView, Unsigned> {
    match lookup {
        CredentialLookupView::StoreUnavailable => Err(Unsigned::StoreUnavailable),
        CredentialLookupView::Keys { access_key_id, secret_access_key } => match access_key_id {
            KeyReadView::Value(id) => match secret_access_key {
                KeyReadView::Value(secret) => Ok(
                    CredentialsView { access_key_id: id, secret_access_key: secret },
                ),
                _ => Err(Unsigned::SecretAccessKeyMissing),
            },
            _ => Err(Unsigned::AccessKeyIdMissing),
        },
    }
}

/// The credentials of a lookup's result, as mathematics.
pub open spec fn looked_up(credentials: Result<Credentials, Unsigned>) -> Result<
    CredentialsView,
    Unsigned,
> {
    match credentials {
        Ok(c) => Ok(c@),
        Err(reason) => Err(reason),
    }
}

impl Credentials {
    /// The credentials that a lookup yields, or the reason why it yields
    /// none.
    pub fn from_lookup(lookup: CredentialLookup) -> (credentials: Result<Credentials, Unsigned>)
        ensures
            looked_up(credentials) == credentials_of(lookup@),
    {
        match lookup {
            CredentialLookup::StoreUnavailable => Err(Unsigned::StoreUnavailable),
            CredentialLookup::Keys { access_key_id, secret_access_key } => match access_key_id {
                KeyRead::Value(id) => match secret_access_key {
                    KeyRead::Value(secret) => Ok(
                        Credentials { access_key_id: id, secret_access_key: secret },
                    ),
                    _ => Err(Unsigned::SecretAccessKeyMissing),
                },
                _ => Err(Unsigned::AccessKeyIdMissing),
            },
        }
    }
}

/// Everything the signing collaborator needs, but for the current time.
#[derive(Clone, Debug, PartialEq, Eq)]
pub struct SigningInput {
    pub method: String,
    pub path: String,
    /// Always empty: only requests without a query are signed.
    pub query: String,
    pub bucket_name: &'static str,
    pub bucket_host: &'static str,
    pub region: String,
    pub credentials: Credentials,
}

/// A signing input as mathematics.
pub struct SigningInputView {
    pub method: Seq<char>,
    pub path: Seq<char>,
    pub query: Seq<char>,
    pub bucket_name: Seq<char>,
    pub bucket_host: Seq<char>,
    pub region: Seq<char>,
    pub credentials: CredentialsView,
}

impl View for SigningInput {
    type V = SigningInputView;

    open spec fn view(&self) -> SigningInputView {
        SigningInputView {
            method: self.method@,
            path: self.path@,
            query: self.query@,
            bucket_name: self.bucket_name@,
            bucket_host: self.bucket_host@,
            region: self.region@,
            credentials: self.credentials@,
        }
    }
}

/// What is signed for a request to `origin`: the request's method and
/// path, no query, the origin's bucket, and the region that is found for
/// the bucket's host.
pub open spec fn signing_input_of(
    method: Seq<char>,
    path: Seq<char>,
    origin: OriginView,
    credentials: CredentialsView,
) -> SigningInputView {
    SigningInputView {
        method,
        path,
        query: Seq::empty(),
        bucket_name: origin.bucket_name,
        bucket_host: origin.bucket_host,
        region: region_found(origin.bucket_host).unwrap(),
        credentials,
    }
}

/// What the signing collaborator returns.
#[derive(Clone, Debug, PartialEq, Eq)]
pub struct Signature {
    /// Value of the authorization header.
    pub authorization: String,
    /// Hash of the empty body.
    pub content_hash: String,
    /// Time of signing, formatted as the signature has it.
    pub timestamp: String,
}

/// A signature as mathematics.
pub struct SignatureView {
    pub authorization: Seq<char>,
    pub content_hash: Seq<char>,
    pub timestamp: Seq<char>,
}

impl View for Signature {
    type V = SignatureView;

    open spec fn view(&self) -> SignatureView {
        SignatureView {
            authorization: self.authorization@,
            content_hash: self.content_hash@,
            timestamp: self.timestamp@,
        }
    }
}

/// How a request is authenticated.
#[derive(Clone, Debug, PartialEq, Eq)]
pub enum Authentication {
    /// The request carries the headers of this signature.
    Signed(Signature),
    /// The request carries no signature, for this reason.
    Unsigned(Unsigned),
}

/// An authentication as mathematics.
pub enum AuthenticationView {
    Signed(SignatureView),
    Unsigned(Unsigned),
}

impl View for Authentication {
    type V = AuthenticationView;

    open spec fn view(&self) -> AuthenticationView {
        match *self {
            Authentication::Signed(signature) => AuthenticationView::Signed(signature@),
            Authentication::Unsigned(reason) => AuthenticationView::Unsigned(reason),
        }
    }
}

/// The three headers that carry a signature, in the order in which they
/// are set.
pub open spec fn signature_headers(signature: SignatureView) -> Seq<HeaderView> {
    seq![
        HeaderView { name: AUTHORIZATION_HEADER@, value: signature.authorization },
        HeaderView { name: CONTENT_HASH_HEADER@, value: signature.content_hash },
        HeaderView { name: DATE_HEADER@, value: signature.timestamp },
    ]
}

} // verus!
