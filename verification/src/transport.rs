//! The local bridge's authorization and call-routing rules.
use vstd::prelude::*;
use crate::strings::{chars_of, str_eq, string_of};
use crate::text::{trim, is_blank};
use vstd::std_specs::cmp::PartialEqSpec;

verus! {

/// Compares two byte strings with `subtle::ConstantTimeEq::ct_eq` and
/// converts the resulting `Choice` to `bool`; subtle documents the result as
/// true exactly when the slices are equal.
#[verifier::external_body]
fn constant_time_eq(a: &[u8], b: &[u8]) -> (r: bool)
    ensures
        r == (a@ == b@),
{
    bool::from(subtle::ConstantTimeEq::ct_eq(a, b))
}

/// Errors surfaced to the settings façade. Secrets are never embedded in an error.
#[derive(Clone, Debug, PartialEq, Eq)]
pub enum TransportError {
    InvalidConfig(String),
}

/// A local bearer token. Its value is neither `Debug` nor `Display`.
#[derive(Clone)]
pub struct AuthToken {
    token: String,
}

impl AuthToken {
    pub closed spec fn secret(self) -> Seq<char> {
        self.token@
    }

    /// A token from a local-user supplied secret, refused when blank.
    pub fn new(token: &str) -> (r: Result<Self, TransportError>)
        ensures
            trim(token@).len() == 0 <==> r is Err,
            r matches Err(TransportError::InvalidConfig(m)) ==> m@ == "the local bridge token must not be empty"@,
            r matches Ok(t) ==> t.secret() == token@,
    {
        let chars = chars_of(token);
        if is_blank(&chars) {
            return Err(TransportError::InvalidConfig("the local bridge token must not be empty".to_owned()));
        }
        Ok(AuthToken { token: token.to_owned() })
    }

    /// The token, for the process that launches the local sidecar only.
    pub fn expose_to_sidecar(&self) -> (r: String)
        ensures
            r@ == self.secret(),
    {
        self.token.clone()
    }
}

impl PartialEq for AuthToken {
    /// Two tokens are equal when their texts are.
    fn eq(&self, other: &Self) -> (r: bool) {
        str_eq(self.token.as_str(), other.token.as_str())
    }
}

impl vstd::std_specs::cmp::PartialEqSpecImpl for AuthToken {
    open spec fn obeys_eq_spec() -> bool {
        true
    }

    open spec fn eq_spec(&self, other: &Self) -> bool {
        self.secret() == other.secret()
    }
}

impl Eq for AuthToken {}

/// Tokens made from two secrets are equal exactly when the secrets are.
pub proof fn tokens_equal_iff_secrets(s1: Seq<char>, s2: Seq<char>, t1: AuthToken, t2: AuthToken)
    requires
        t1.secret() == s1,
        t2.secret() == s2,
    ensures
        t1.eq_spec(&t2) <==> s1 == s2,
{
}

/// The address the local bridge listens on.
#[derive(Clone, Copy, Debug)]
pub enum BindAddress {
    /// An IPv4 address by its octets, and a port.
    V4([u8; 4], u16),
    /// An IPv6 address by its eight 16-bit segments, and a port.
    V6([u16; 8], u16),
}

/// Loopback as std defines it: `127.0.0.0/8` for IPv4, `::1` for IPv6.
pub open spec fn is_loopback(a: BindAddress) -> bool {
    match a {
        BindAddress::V4(o, _) => o@[0] == 127,
        BindAddress::V6(s, _) => s@ == seq![0u16, 0, 0, 0, 0, 0, 0, 1],
    }
}

fn loopback(a: &BindAddress) -> (r: bool)
    ensures
        r == is_loopback(*a),
{
    match a {
        BindAddress::V4(o, _) => o[0] == 127,
        BindAddress::V6(s, _) => {
            let r = s[0] == 0 && s[1] == 0 && s[2] == 0 && s[3] == 0 && s[4] == 0 && s[5] == 0 && s[6] == 0 && s[7] == 1;
            assert(r == (s@ =~= seq![0u16, 0, 0, 0, 0, 0, 0, 1]));
            r
        },
    }
}

/// The largest request body accepted by default.
pub const DEFAULT_REQUEST_LIMIT_BYTES: usize = 1048576;
/// The default time limit of one host call, in seconds.
pub const DEFAULT_REQUEST_TIMEOUT_SECS: u64 = 10;

/// Settings-owned configuration of the local bridge.
#[derive(Clone)]
pub struct ServerConfig {
    /// Stays false until a local user enables the bridge in Settings.
    pub enabled: bool,
    /// Only a loopback address is accepted.
    pub bind_addr: BindAddress,
    /// Required bearer token for every endpoint.
    pub auth_token: AuthToken,
    /// Browser origins explicitly permitted to make requests.
    pub allowed_origins: Vec<String>,
    /// Maximum JSON request size.
    pub max_request_bytes: usize,
    /// Hard time limit of one host call: whole seconds and the nanoseconds beyond them.
    pub request_timeout_secs: u64,
    pub request_timeout_subsec_nanos: u32,
}

/// The problem a bridge configuration has, if any.
pub open spec fn config_problem(c: ServerConfig) -> Option<Seq<char>> {
    if !is_loopback(c.bind_addr) {
        Some("the local bridge may bind only a loopback address"@)
    } else if c.max_request_bytes == 0 {
        Some("max_request_bytes must be greater than zero"@)
    } else if c.request_timeout_secs == 0 && c.request_timeout_subsec_nanos == 0 {
        Some("request_timeout must be greater than zero"@)
    } else {
        None
    }
}

impl ServerConfig {
    /// A disabled configuration on `127.0.0.1` with an ephemeral port, no
    /// browser origins, and the default limits.
    pub fn disabled(auth_token: AuthToken) -> (r: Self)
        ensures
            !r.enabled,
            r.bind_addr == BindAddress::V4([127u8, 0, 0, 1], 0),
            r.auth_token.secret() == auth_token.secret(),
            r.allowed_origins@.len() == 0,
            r.max_request_bytes == DEFAULT_REQUEST_LIMIT_BYTES,
            r.request_timeout_secs == DEFAULT_REQUEST_TIMEOUT_SECS,
            r.request_timeout_subsec_nanos == 0,
            config_problem(r) is None,
    {
        let r = ServerConfig {
            enabled: false,
            bind_addr: BindAddress::V4([127u8, 0, 0, 1], 0),
            auth_token,
            allowed_origins: Vec::new(),
            max_request_bytes: DEFAULT_REQUEST_LIMIT_BYTES,
            request_timeout_secs: DEFAULT_REQUEST_TIMEOUT_SECS,
            request_timeout_subsec_nanos: 0,
        };
        assert(is_loopback(r.bind_addr));
        r
    }

    /// Refuses a non-loopback address, a zero request limit and a zero timeout.
    pub fn validate(&self) -> (r: Result<(), TransportError>)
        ensures
            match config_problem(*self) {
                None => r is Ok,
                Some(m) => r matches Err(TransportError::InvalidConfig(x)) && x@ == m,
            },
    {
        if !loopback(&self.bind_addr) {
            return Err(TransportError::InvalidConfig("the local bridge may bind only a loopback address".to_owned()));
        }
        if self.max_request_bytes == 0 {
            return Err(TransportError::InvalidConfig("max_request_bytes must be greater than zero".to_owned()));
        }
        if self.request_timeout_secs == 0 && self.request_timeout_subsec_nanos == 0 {
            return Err(TransportError::InvalidConfig("request_timeout must be greater than zero".to_owned()));
        }
        Ok(())
    }
}

/// Observable local-server state for Settings.
#[derive(Clone, Copy, Debug, PartialEq, Eq, Structural)]
pub enum TransportState {
    Disabled,
    Running,
    Failed,
}

/// A refused request: HTTP status, stable code and message.
#[derive(Clone, Debug, PartialEq, Eq)]
pub struct HttpError {
    pub status: u16,
    pub code: String,
    pub message: String,
}

pub open spec fn bearer_prefix() -> Seq<char> {
    seq!['B', 'e', 'a', 'r', 'e', 'r', ' ']
}

/// The credential after `Bearer `, if the header has that prefix.
pub open spec fn bearer_credential(header: Seq<char>) -> Option<Seq<char>> {
    if header.len() >= 7 && header.take(7) == bearer_prefix() {
        Some(header.skip(7))
    } else {
        None
    }
}

/// Which rule refuses a request, if any: a disabled bridge first, then an
/// unlisted browser origin, then a missing or wrong bearer token.
pub open spec fn spec_authorize(
    accepting: bool,
    origin: Option<Seq<char>>,
    allowed_origins: Seq<Seq<char>>,
    authorization: Option<Seq<char>>,
    token: Seq<char>,
) -> Option<u16> {
    if !accepting {
        Some(503)
    } else if origin is Some && !allowed_origins.contains(origin->0) {
        Some(403)
    } else if authorization is Some && bearer_credential(authorization->0) == Some(token) {
        None
    } else {
        Some(401)
    }
}

pub open spec fn views_of(v: Seq<String>) -> Seq<Seq<char>> {
    v.map_values(|s: String| s@)
}

pub(crate) fn contains_string(v: &Vec<String>, s: &str) -> (r: bool)
    ensures r == views_of(v@).contains(s@),
{
    let mut i: usize = 0;
    while i < v.len()
        invariant
            0 <= i <= v@.len(),
            forall|j: int| 0 <= j < i ==> v@[j]@ != s@,
        decreases v@.len() - i,
    {
        if str_eq(v[i].as_str(), s) {
            assert(views_of(v@)[i as int] == s@);
            return true;
        }
        i += 1;
    }
    assert(!views_of(v@).contains(s@)) by {
        if views_of(v@).contains(s@) {
            let j = choose|j: int| 0 <= j < views_of(v@).len() && views_of(v@)[j] == s@;
            assert(v@[j]@ == s@);
        }
    }
    false
}

fn http_error(status: u16, code: &str, message: &str) -> (r: HttpError)
    ensures r.status == status, r.code@ == code@, r.message@ == message@,
{
    HttpError { status, code: code.to_owned(), message: message.to_owned() }
}

/// Decides whether a bridge request may proceed. `origin` is the `Origin`
/// header (`Some("")` when present but unreadable), `authorization` the
/// readable `Authorization` header.
pub fn authorize(
    accepting: bool,
    origin: Option<&str>,
    allowed_origins: &Vec<String>,
    authorization: Option<&str>,
    token: &AuthToken,
) -> (r: Result<(), HttpError>)
    ensures
        match spec_authorize(
            accepting,
            match origin { Some(o) => Some(o@), None => None },
            views_of(allowed_origins@),
            match authorization { Some(a) => Some(a@), None => None },
            token.secret(),
        ) {
            None => r is Ok,
            Some(status) => r matches Err(e) && e.status == status && e.code@ == (
                if status == 503 { "bridge_disabled"@ } else if status == 403 { "origin_rejected"@ } else { "unauthorized"@ })
                && e.message@ == (if status == 503 {
                    "the local bridge is disabled"@
                } else if status == 403 {
                    "this browser origin is not permitted for the local bridge"@
                } else {
                    "a valid local bearer token is required"@
                }),
        },
{
    if !accepting {
        return Err(http_error(503, "bridge_disabled", "the local bridge is disabled"));
    }
    if let Some(o) = origin {
        if !contains_string(allowed_origins, o) {
            return Err(http_error(403, "origin_rejected", "this browser origin is not permitted for the local bridge"));
        }
    }
    let valid = match authorization {
        Some(header) => {
            let cs = chars_of(header);
            let prefix = vec!['B', 'e', 'a', 'r', 'e', 'r', ' '];
            let mut has_prefix = cs.len() >= 7;
            let mut k: usize = 0;
            while has_prefix && k < 7
                invariant
                    0 <= k <= 7,
                    prefix@ == bearer_prefix(),
                    has_prefix ==> cs@.len() >= 7 && forall|j: int| 0 <= j < k ==> cs@[j] == prefix@[j],
                    !has_prefix ==> !(cs@.len() >= 7 && cs@.take(7) == bearer_prefix()),
                decreases 7 - k,
            {
                if cs[k] != prefix[k] {
                    assert(cs@.take(7)[k as int] == cs@[k as int]);
                    has_prefix = false;
                }
                k += 1;
            }
            if has_prefix {
                assert(cs@.take(7) =~= bearer_prefix());
                let mut rest: Vec<char> = Vec::new();
                let mut i: usize = 7;
                while i < cs.len()
                    invariant
                        7 <= i <= cs@.len(),
                        rest@ == cs@.subrange(7, i as int),
                    decreases cs@.len() - i,
                {
                    rest.push(cs[i]);
                    assert(cs@.subrange(7, i as int + 1) == cs@.subrange(7, i as int).push(cs@[i as int]));
                    i += 1;
                }
                assert(cs@.subrange(7, cs@.len() as int) == cs@.skip(7));
                let candidate = string_of(rest.as_slice());
                let cb = candidate.as_str().as_bytes();
                let tb = token.token.as_str().as_bytes();
                proof {
                    vstd::utf8::encode_utf8_decode_utf8(candidate@);
                    vstd::utf8::encode_utf8_decode_utf8(token.token@);
                }
                cb.len() == tb.len() && constant_time_eq(cb, tb)
            } else {
                false
            }
        },
        None => false,
    };
    if valid {
        Ok(())
    } else {
        Err(http_error(401, "unauthorized", "a valid local bearer token is required"))
    }
}

/// Methods only the trusted native UI may call.
pub open spec fn spec_is_native_only(method: Seq<char>) -> bool {
    method == "app.get_projection"@ || method == "ui.publish_context"@ || method == "ui.ack"@
        || method == "proposal.approve"@
}

/// Every method except discovery and binding needs an explicit binding.
pub open spec fn spec_requires_binding(method: Seq<char>) -> bool {
    !(method == "app.describe"@ || method == "app.bind_session"@)
}

pub fn is_native_only(method: &str) -> (r: bool)
    ensures r == spec_is_native_only(method@),
{
    str_eq(method, "app.get_projection") || str_eq(method, "ui.publish_context") || str_eq(method, "ui.ack")
        || str_eq(method, "proposal.approve")
}

pub fn requires_binding(method: &str) -> (r: bool)
    ensures r == spec_requires_binding(method@),
{
    !(str_eq(method, "app.describe") || str_eq(method, "app.bind_session"))
}

/// Routes an authorized bridge call: native-only methods are refused (403),
/// a call needing a binding without one is refused (400); otherwise the
/// answer says whether a binding check must run first.
pub fn route_call(method: &str, has_binding: bool) -> (r: Result<bool, HttpError>)
    ensures
        spec_is_native_only(method@) ==> (r matches Err(e) && e.status == 403 && e.code@ == "native_only_method"@
            && e.message@ == "this application method is available only to the trusted native UI"@),
        !spec_is_native_only(method@) && spec_requires_binding(method@) && !has_binding ==> (r matches Err(e)
            && e.status == 400 && e.code@ == "binding_required"@
            && e.message@ == "external calls must bind explicitly before accessing project state"@),
        !spec_is_native_only(method@) && (!spec_requires_binding(method@) || has_binding) ==> r
            == Ok::<bool, HttpError>(spec_requires_binding(method@) && method@ != "ui.get_context"@),
{
    if is_native_only(method) {
        return Err(http_error(403, "native_only_method", "this application method is available only to the trusted native UI"));
    }
    let binding = requires_binding(method);
    if binding && !has_binding {
        return Err(http_error(400, "binding_required", "external calls must bind explicitly before accessing project state"));
    }
    Ok(binding && !str_eq(method, "ui.get_context"))
}

/// The HTTP status a host error code maps to: conflicts for stale state, otherwise a bad request.
pub fn app_error_status(code: &str) -> (r: u16)
    ensures
        r == (if code@ == "stale_binding"@ || code@ == "stale_revision"@ { 409u16 } else { 400u16 }),
{
    if str_eq(code, "stale_binding") || str_eq(code, "stale_revision") { 409 } else { 400 }
}

} // verus!
