//! The authorization gate: safe methods pass, every other method needs Basic
//! credentials equal to the pair the process is configured with.

use axum::headers::authorization::{Basic, Credentials};
use axum::http::HeaderValue;
use crate::status::{INTERNAL_SERVER_ERROR, UNAUTHORIZED};
use crate::text::text_of;
use vstd::prelude::*;
use vstd::string::StringExecFns;

verus! {

/// An HTTP request method.
#[derive(Debug, Clone, Copy, PartialEq, Eq, Structural)]
pub enum Method {
    Options,
    Get,
    Post,
    Put,
    Delete,
    Head,
    Trace,
    Connect,
    Patch,
    /// Any method beyond the registered ones above.
    Extension,
}

/// Whether `method` only reads: `GET` and `HEAD` do, nothing else does.
pub open spec fn is_safe(method: Method) -> bool {
    method == Method::Get || method == Method::Head
}

impl Method {
    /// Whether the method only reads.
    pub fn is_safe(&self) -> (safe: bool)
        ensures
            safe == is_safe(*self),
    {
        match self {
            Method::Get | Method::Head => true,
            _ => false,
        }
    }
}

/// A username and a password.
#[derive(Debug, Clone, PartialEq, Eq)]
pub struct CredentialPair {
    pub username: String,
    pub password: String,
}

impl View for CredentialPair {
    type V = (Seq<char>, Seq<char>);

    open spec fn view(&self) -> (Seq<char>, Seq<char>) {
        (self.username@, self.password@)
    }
}

/// The value of an optional pair.
pub open spec fn pair_of(pair: Option<CredentialPair>) -> Option<(Seq<char>, Seq<char>)> {
    match pair {
        Some(p) => Some(p@),
        None => None,
    }
}

/// The value of an optional borrowed pair.
pub open spec fn pair_at(pair: Option<&CredentialPair>) -> Option<(Seq<char>, Seq<char>)> {
    match pair {
        Some(p) => Some(p@),
        None => None,
    }
}

/// The pair that two configuration values make: both must be present.
pub open spec fn configured(username: Option<Seq<char>>, password: Option<Seq<char>>) -> Option<
    (Seq<char>, Seq<char>),
> {
    match (username, password) {
        (Some(u), Some(p)) => Some((u, p)),
        _ => None,
    }
}

/// What a cache holds after an attempt to initialize it: what it held, if
/// anything, else the configured pair, if there is one.
pub open spec fn initialized(
    cached: Option<(Seq<char>, Seq<char>)>,
    username: Option<Seq<char>>,
    password: Option<Seq<char>>,
) -> Option<(Seq<char>, Seq<char>)> {
    match cached {
        Some(pair) => Some(pair),
        None => configured(username, password),
    }
}

/// The expected credentials of the process: empty until the first successful
/// initialization, then fixed.
#[derive(Debug)]
pub struct CredentialCache {
    pair: Option<CredentialPair>,
}

impl View for CredentialCache {
    type V = Option<(Seq<char>, Seq<char>)>;

    closed spec fn view(&self) -> Option<(Seq<char>, Seq<char>)> {
        pair_of(self.pair)
    }
}

impl CredentialCache {
    /// An empty cache.
    pub fn new() -> (cache: CredentialCache)
        ensures
            cache@ is None,
    {
        CredentialCache { pair: None }
    }

    /// The cached pair, if the cache has been initialized.
    pub fn get(&self) -> (pair: Option<&CredentialPair>)
        ensures
            pair_at(pair) == self@,
    {
        self.pair.as_ref()
    }

    /// Whether the cache has been initialized.
    pub fn is_initialized(&self) -> (full: bool)
        ensures
            full == (self@ is Some),
    {
        self.pair.is_some()
    }

    /// Initializes an empty cache from the two configuration values, where
    /// both are present; leaves an initialized cache as it is. Tells whether
    /// the cache holds a pair afterwards.
    pub fn try_init(&mut self, username: Option<String>, password: Option<String>) -> (full: bool)
        ensures
            final(self)@ == initialized(old(self)@, text_of(username), text_of(password)),
            full == (final(self)@ is Some),
    {
        if self.pair.is_some() {
            return true;
        }
        match (username, password) {
            (Some(username), Some(password)) => {
                self.pair = Some(CredentialPair { username, password });
                true
            },
            _ => false,
        }
    }
}

/// Whether `b` may occur in the value of a header: a tab, or any byte from 32
/// on but 127.
pub open spec fn is_value_byte(b: u8) -> bool {
    (b >= 32 && b != 127) || b == 9
}

/// Whether `header` can be the value of a header: every byte of it may occur
/// in one.
pub open spec fn is_header_value(header: Seq<u8>) -> bool {
    forall|i: int| 0 <= i < header.len() ==> is_value_byte(#[trigger] header[i])
}

/// The bytes of `Basic` and the space after it.
pub open spec fn basic_scheme() -> Seq<u8> {
    seq![66u8, 97u8, 115u8, 105u8, 99u8, 32u8]
}

/// Whether `header` names the Basic scheme: it begins with `Basic` and a space.
pub open spec fn has_basic_scheme(header: Seq<u8>) -> bool {
    basic_scheme().is_prefix_of(header)
}

/// The username and password that `Credentials::decode` of the `headers`
/// crate reads, for `Basic`, from a header value made of the bytes `header`;
/// `None` where it reads none.
pub uninterp spec fn basic_decoded(header: Seq<u8>) -> Option<(Seq<char>, Seq<char>)>;

/// Calls `<Basic as Credentials>::decode` of the `headers` crate on the header
/// value that `HeaderValue::from_bytes` makes of `header`, and hands out the
/// username and the password of what it decoded. The contract claims that the
/// outcome is a function of the bytes alone. `requires` keeps to the inputs on
/// which both calls return: `from_bytes` accepts exactly the bytes that
/// `is_value_byte` admits, and `decode` expects the scheme in front.
#[verifier::external_body]
fn decode_basic(header: &[u8]) -> (pair: Option<CredentialPair>)
    requires
        is_header_value(header@),
        has_basic_scheme(header@),
    ensures
        pair_of(pair) == basic_decoded(header@),
{
    let value = HeaderValue::from_bytes(header).ok()?;
    let basic = Basic::decode(&value)?;
    Some(
        CredentialPair {
            username: basic.username().to_string(),
            password: basic.password().to_string(),
        },
    )
}

/// Whether every byte of `header` may occur in the value of a header.
pub fn check_header_value(header: &[u8]) -> (valid: bool)
    ensures
        valid == is_header_value(header@),
{
    let mut i: usize = 0;
    while i < header.len()
        invariant
            i <= header.len(),
            forall|j: int| 0 <= j < i ==> is_value_byte(#[trigger] header@[j]),
        decreases header.len() - i,
    {
        let b: u8 = header[i];
        if !((b >= 32 && b != 127) || b == 9) {
            return false;
        }
        i += 1;
    }
    true
}

/// Whether `header` begins with `Basic` and a space.
pub fn check_basic_scheme(header: &[u8]) -> (basic: bool)
    ensures
        basic == has_basic_scheme(header@),
{
    if header.len() < 6 {
        return false;
    }
    let found = header[0] == 66 && header[1] == 97 && header[2] == 115 && header[3] == 105
        && header[4] == 99 && header[5] == 32;
    proof {
        let scheme = basic_scheme();
        if found {
            assert(scheme =~= header@.subrange(0, 6));
        } else {
            assert(forall|i: int| 0 <= i < 6 ==> header@.subrange(0, 6)[i] == header@[i]);
        }
    }
    found
}

/// The credentials that `header` presents under the Basic scheme: none where
/// it is no header value, where it names another scheme, or where nothing
/// can be decoded from it.
pub open spec fn presented(header: Seq<u8>) -> Option<(Seq<char>, Seq<char>)> {
    if is_header_value(header) && has_basic_scheme(header) {
        basic_decoded(header)
    } else {
        None
    }
}

/// Reads the credentials that `header` presents under the Basic scheme.
pub fn present(header: &[u8]) -> (pair: Option<CredentialPair>)
    ensures
        pair_of(pair) == presented(header@),
{
    if check_header_value(header) && check_basic_scheme(header) {
        decode_basic(header)
    } else {
        None
    }
}

/// What is decided of a request.
#[derive(Debug, Clone, PartialEq, Eq)]
pub enum Decision {
    /// The request may pass.
    Admit,
    /// The request is answered with `status` and the plain text `message`.
    Reject { status: u16, message: String },
}

/// The mathematical value of a [`Decision`].
pub ghost enum Verdict {
    Admit,
    Reject { status: u16, message: Seq<char> },
}

impl View for Decision {
    type V = Verdict;

    open spec fn view(&self) -> Verdict {
        match self {
            Decision::Admit => Verdict::Admit,
            Decision::Reject { status, message } => Verdict::Reject {
                status: *status,
                message: message@,
            },
        }
    }
}

/// The rejection of an unsafe request that carries no `Authorization` header.
pub open spec fn authorization_required() -> Verdict {
    Verdict::Reject { status: UNAUTHORIZED, message: "Basic authorization required"@ }
}

/// The rejection of an unsafe request while the process lacks its credentials.
pub open spec fn credentials_not_set() -> Verdict {
    Verdict::Reject { status: INTERNAL_SERVER_ERROR, message: "Credentials must be set"@ }
}

/// The rejection of an unsafe request whose credentials are not the expected ones.
pub open spec fn invalid_credentials() -> Verdict {
    Verdict::Reject { status: UNAUTHORIZED, message: "Invalid credentials"@ }
}

/// The policy of authorization, given the method, whether an `Authorization`
/// header is present, the credentials the process expects, if it has any, and
/// the credentials the header presents, if it presents any.
pub open spec fn decision_for(
    method: Method,
    header_present: bool,
    expected: Option<(Seq<char>, Seq<char>)>,
    presented: Option<(Seq<char>, Seq<char>)>,
) -> Verdict {
    if is_safe(method) {
        Verdict::Admit
    } else if !header_present {
        authorization_required()
    } else {
        match expected {
            None => credentials_not_set(),
            Some(pair) => if presented == Some(pair) {
                Verdict::Admit
            } else {
                invalid_credentials()
            },
        }
    }
}

/// Applies the policy of authorization to what is known of a request.
pub fn decide(
    method: Method,
    header_present: bool,
    expected: Option<&CredentialPair>,
    presented: Option<&CredentialPair>,
) -> (decision: Decision)
    ensures
        decision@ == decision_for(method, header_present, pair_at(expected), pair_at(presented)),
{
    if method.is_safe() {
        return Decision::Admit;
    }
    if !header_present {
        return Decision::Reject {
            status: UNAUTHORIZED,
            message: String::from_str("Basic authorization required"),
        };
    }
    let expected = match expected {
        Some(pair) => pair,
        None => {
            return Decision::Reject {
                status: INTERNAL_SERVER_ERROR,
                message: String::from_str("Credentials must be set"),
            };
        },
    };
    let equal = match presented {
        Some(pair) => pair.username == expected.username && pair.password == expected.password,
        None => false,
    };
    if equal {
        Decision::Admit
    } else {
        Decision::Reject { status: UNAUTHORIZED, message: String::from_str("Invalid credentials") }
    }
}

/// The bytes of an optional header value.
pub open spec fn bytes_of(header: Option<&[u8]>) -> Option<Seq<u8>> {
    match header {
        Some(h) => Some(h@),
        None => None,
    }
}

/// Whether the configuration values are needed to decide: only for an
/// unsafe request that carries a header while the cache is still empty.
pub open spec fn consults_configuration(
    method: Method,
    header_present: bool,
    cached: Option<(Seq<char>, Seq<char>)>,
) -> bool {
    !is_safe(method) && header_present && cached is None
}

/// What is decided on a request with `method` and the `Authorization`
/// header `header`, while the cache holds `cached` and the configuration
/// offers `username` and `password`.
pub open spec fn verdict(
    method: Method,
    header: Option<Seq<u8>>,
    cached: Option<(Seq<char>, Seq<char>)>,
    username: Option<Seq<char>>,
    password: Option<Seq<char>>,
) -> Verdict {
    decision_for(
        method,
        header is Some,
        initialized(cached, username, password),
        match header {
            Some(h) => presented(h),
            None => None,
        },
    )
}

/// What the cache holds once such a request has been decided on.
pub open spec fn cache_after(
    method: Method,
    header_present: bool,
    cached: Option<(Seq<char>, Seq<char>)>,
    username: Option<Seq<char>>,
    password: Option<Seq<char>>,
) -> Option<(Seq<char>, Seq<char>)> {
    if consults_configuration(method, header_present, cached) {
        configured(username, password)
    } else {
        cached
    }
}

/// Whether [`authorize`] will look at the configuration values for a request
/// with `method`, with or without an `Authorization` header.
pub fn needs_configuration(
    method: Method,
    header_present: bool,
    cache: &CredentialCache,
) -> (needed: bool)
    ensures
        needed == consults_configuration(method, header_present, cache@),
{
    !method.is_safe() && header_present && !cache.is_initialized()
}

/// Decides whether a request may pass. Admits every safe request. An unsafe
/// request needs an `Authorization` header, else it is rejected with 401; the
/// header must present, under the Basic scheme, the credentials that `cache`
/// holds, else 401 again. An empty cache is first filled from `username` and
/// `password`; where one of them is absent the request is rejected with 500
/// and the cache stays empty, so that the next request tries again.
pub fn authorize(
    method: Method,
    authorization: Option<&[u8]>,
    cache: &mut CredentialCache,
    username: Option<String>,
    password: Option<String>,
) -> (decision: Decision)
    ensures
        decision@ == verdict(
            method,
            bytes_of(authorization),
            old(cache)@,
            text_of(username),
            text_of(password),
        ),
        final(cache)@ == cache_after(
            method,
            authorization is Some,
            old(cache)@,
            text_of(username),
            text_of(password),
        ),
{
    if method.is_safe() {
        return Decision::Admit;
    }
    let header = match authorization {
        Some(header) => header,
        None => {
            return decide(method, false, None, None);
        },
    };
    cache.try_init(username, password);
    let presented = present(header);
    decide(method, true, cache.get(), presented.as_ref())
}

/// A safe request is admitted, whatever its headers, the cache and the
/// configuration, and leaves the cache as it was.
pub proof fn lemma_safe_methods_admitted(
    method: Method,
    header: Option<Seq<u8>>,
    cached: Option<(Seq<char>, Seq<char>)>,
    username: Option<Seq<char>>,
    password: Option<Seq<char>>,
)
    requires
        is_safe(method),
    ensures
        verdict(method, header, cached, username, password) == Verdict::Admit,
        cache_after(method, header is Some, cached, username, password) == cached,
{
}

/// An unsafe request without an `Authorization` header is rejected with 401,
/// whatever the cache and the configuration, and leaves the cache as it was.
pub proof fn lemma_unsafe_without_header_rejected(
    method: Method,
    cached: Option<(Seq<char>, Seq<char>)>,
    username: Option<Seq<char>>,
    password: Option<Seq<char>>,
)
    requires
        !is_safe(method),
    ensures
        verdict(method, None, cached, username, password) == authorization_required(),
        verdict(method, None, cached, username, password) matches Verdict::Reject { status, .. }
            && status == 401,
        cache_after(method, false, cached, username, password) == cached,
{
}

/// While the process has credentials, an unsafe request whose header presents
/// a pair is admitted where that pair is the expected one, and rejected with
/// 401 where it is any other.
pub proof fn lemma_credentials_decide(
    method: Method,
    header: Seq<u8>,
    cached: Option<(Seq<char>, Seq<char>)>,
    username: Option<Seq<char>>,
    password: Option<Seq<char>>,
    expected: (Seq<char>, Seq<char>),
    given: (Seq<char>, Seq<char>),
)
    requires
        !is_safe(method),
        initialized(cached, username, password) == Some(expected),
        presented(header) == Some(given),
    ensures
        given == expected ==> verdict(method, Some(header), cached, username, password)
            == Verdict::Admit,
        given != expected ==> verdict(method, Some(header), cached, username, password)
            == invalid_credentials(),
{
}

/// While the process has credentials, an unsafe request whose header presents
/// no pair (no header value, another scheme, nothing to decode) is rejected
/// with 401.
pub proof fn lemma_undecodable_rejected(
    method: Method,
    header: Seq<u8>,
    cached: Option<(Seq<char>, Seq<char>)>,
    username: Option<Seq<char>>,
    password: Option<Seq<char>>,
)
    requires
        !is_safe(method),
        initialized(cached, username, password) is Some,
        presented(header) is None,
    ensures
        verdict(method, Some(header), cached, username, password) == invalid_credentials(),
{
}

/// While the cache is empty and the username or the password is not
/// configured, an unsafe request that carries a header is rejected with 500,
/// whatever the header presents, and the cache stays empty: the next such
/// request is judged the same way.
pub proof fn lemma_unconfigured_rejected(
    method: Method,
    header: Seq<u8>,
    username: Option<Seq<char>>,
    password: Option<Seq<char>>,
)
    requires
        !is_safe(method),
        username is None || password is None,
    ensures
        verdict(method, Some(header), None, username, password) == credentials_not_set(),
        cache_after(method, true, None, username, password) is None,
{
}

/// No request is admitted on the strength of a missing configuration: an
/// unsafe request is admitted only where the process has credentials and the
/// header presents exactly them.
pub proof fn lemma_admitted_only_with_credentials(
    method: Method,
    header: Option<Seq<u8>>,
    cached: Option<(Seq<char>, Seq<char>)>,
    username: Option<Seq<char>>,
    password: Option<Seq<char>>,
)
    requires
        !is_safe(method),
        verdict(method, header, cached, username, password) == Verdict::Admit,
    ensures
        header is Some,
        initialized(cached, username, password) is Some,
        presented(header->0) == initialized(cached, username, password),
{
}

/// Initializing twice from the same configuration gives what initializing
/// once gives, and a cache that holds a pair keeps it whatever the
/// configuration says later.
pub proof fn lemma_initialization_idempotent(
    cached: Option<(Seq<char>, Seq<char>)>,
    username: Option<Seq<char>>,
    password: Option<Seq<char>>,
    later_username: Option<Seq<char>>,
    later_password: Option<Seq<char>>,
)
    ensures
        initialized(initialized(cached, username, password), username, password) == initialized(
            cached,
            username,
            password,
        ),
        cached is Some ==> initialized(cached, later_username, later_password) == cached,
{
}

/// Authorization never changes a pair that the cache holds, and fills an
/// empty cache with nothing but the configured pair.
pub proof fn lemma_cache_fixed_once_filled(
    method: Method,
    header_present: bool,
    cached: Option<(Seq<char>, Seq<char>)>,
    username: Option<Seq<char>>,
    password: Option<Seq<char>>,
)
    ensures
        cached is Some ==> cache_after(method, header_present, cached, username, password)
            == cached,
        cached is None ==> cache_after(method, header_present, cached, username, password)
            is None || cache_after(method, header_present, cached, username, password)
            == configured(username, password),
{
}

/// Where authorization does not consult the configuration, its decision and
/// the cache it leaves are the same for every configuration.
pub proof fn lemma_configuration_unread(
    method: Method,
    header: Option<Seq<u8>>,
    cached: Option<(Seq<char>, Seq<char>)>,
    username: Option<Seq<char>>,
    password: Option<Seq<char>>,
    other_username: Option<Seq<char>>,
    other_password: Option<Seq<char>>,
)
    requires
        !consults_configuration(method, header is Some, cached),
    ensures
        verdict(method, header, cached, username, password) == verdict(
            method,
            header,
            cached,
            other_username,
            other_password,
        ),
        cache_after(method, header is Some, cached, username, password) == cache_after(
            method,
            header is Some,
            cached,
            other_username,
            other_password,
        ),
{
}

} // verus!
