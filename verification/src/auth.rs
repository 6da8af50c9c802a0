//! Authentication decisions of the REST middleware: which paths skip
//! authentication, which key a request presents, which method it
//! authenticated with, and how a refused request is answered.

use crate::audit_event::AuthType;
use crate::text::{ct_eq, starts_with, str_eq, strip_prefix};
use std::sync::Arc;
use vstd::prelude::*;
use vstd::string::StringExecFns;

verus! {

/// How a whitelisted path is compared with a request's path.
#[derive(Debug, Copy, Clone, PartialEq, Eq, Hash, Structural)]
pub enum PathMode {
    /// Path must match exactly
    Exact,
    /// Path must have given prefix
    Prefix,
}

/// Whether `mode` lets the whitelisted `key` cover the request path `other`.
pub open spec fn path_mode_accepts(mode: PathMode, key: Seq<char>, other: Seq<char>) -> bool {
    match mode {
        PathMode::Exact => key == other,
        PathMode::Prefix => key.is_prefix_of(other),
    }
}

impl PathMode {
    pub fn check(&self, key: &str, other: &str) -> (res: bool)
        ensures
            res == path_mode_accepts(*self, key@, other@),
    {
        match self {
            PathMode::Exact => str_eq(key, other),
            PathMode::Prefix => starts_with(other, key),
        }
    }
}

/// A path that an exact whitelist entry covers is covered by a prefix
/// entry for the same path too.
pub proof fn lemma_exact_match_is_prefix_match(key: Seq<char>, other: Seq<char>)
    ensures
        path_mode_accepts(PathMode::Exact, key, other) ==> path_mode_accepts(
            PathMode::Prefix,
            key,
            other,
        ),
{
    if key == other {
        assert(key =~= other.subrange(0, key.len() as int));
    }
}

/// A prefix entry covers a path exactly when the path is the entry's text
/// followed by anything at all (any further segments included), and an exact
/// entry covers only its own text.
pub proof fn lemma_path_modes_by_extension(key: Seq<char>, rest: Seq<char>, other: Seq<char>)
    ensures
        path_mode_accepts(PathMode::Prefix, key, key + rest),
        path_mode_accepts(PathMode::Prefix, key, other) ==> other == key + other.skip(
            key.len() as int,
        ),
        path_mode_accepts(PathMode::Exact, key, key + rest) <==> rest.len() == 0,
        other.len() < key.len() ==> !path_mode_accepts(PathMode::Prefix, key, other),
{
    assert(key =~= (key + rest).subrange(0, key.len() as int));
    if path_mode_accepts(PathMode::Prefix, key, other) {
        assert(other =~= key + other.skip(key.len() as int));
    }
    if rest.len() == 0 {
        assert(key + rest =~= key);
    } else {
        assert((key + rest).len() != key.len());
    }
}

/// A path excluded from authentication, with how it is compared.
#[derive(Debug, Clone, PartialEq, Eq, Hash)]
pub struct WhitelistItem(pub String, pub PathMode);

/// Whether the whitelist item covers the request path `path`.
pub open spec fn item_covers(item: WhitelistItem, path: Seq<char>) -> bool {
    path_mode_accepts(item.1, item.0@, path)
}

/// Whether some item of `whitelist` covers the request path `path`.
pub open spec fn whitelist_covers(whitelist: Seq<WhitelistItem>, path: Seq<char>) -> bool {
    exists|i: int| 0 <= i < whitelist.len() && item_covers(#[trigger] whitelist[i], path)
}

impl WhitelistItem {
    pub fn exact(path: &str) -> (res: Self)
        ensures
            res.0@ == path@,
            res.1 == PathMode::Exact,
    {
        Self(String::from_str(path), PathMode::Exact)
    }

    pub fn prefix(path: &str) -> (res: Self)
        ensures
            res.0@ == path@,
            res.1 == PathMode::Prefix,
    {
        Self(String::from_str(path), PathMode::Prefix)
    }

    pub fn matches(&self, other: &str) -> (res: bool)
        ensures
            res == item_covers(*self, other@),
    {
        self.1.check(self.0.as_str(), other)
    }

    /// A copy of this item.
    pub fn duplicate(&self) -> (res: Self)
        ensures
            res == *self,
    {
        WhitelistItem(self.0.clone(), self.1)
    }
}

/// A copy of a whitelist.
pub fn copy_whitelist(whitelist: &Vec<WhitelistItem>) -> (res: Vec<WhitelistItem>)
    ensures
        res@ == whitelist@,
{
    let mut res: Vec<WhitelistItem> = Vec::new();
    let mut i: usize = 0;
    while i < whitelist.len()
        invariant
            i <= whitelist@.len(),
            res@ == whitelist@.take(i as int),
        decreases whitelist@.len() - i,
    {
        res.push(whitelist[i].duplicate());
        i = i + 1;
        assert(res@ == whitelist@.take(i as int));
    }
    assert(whitelist@.take(whitelist@.len() as int) == whitelist@);
    res
}

/// The API keys a node is configured with.
pub struct AuthKeys {
    /// The key that grants read and write access
    pub read_write: Option<String>,
    /// The key that grants read-only access
    pub read_only: Option<String>,
}

/// The view of an optional key.
pub open spec fn opt_key(k: Option<String>) -> Option<Seq<char>> {
    match k {
        Some(s) => Some(s@),
        None => None,
    }
}

impl AuthKeys {
    pub fn new(read_write: Option<String>, read_only: Option<String>) -> (res: Self)
        ensures
            res.read_write == read_write,
            res.read_only == read_only,
    {
        AuthKeys { read_write, read_only }
    }

    pub fn read_write_key(&self) -> (res: Option<&str>)
        ensures
            match res {
                Some(k) => opt_key(self.read_write) == Some(k@),
                None => self.read_write is None,
            },
    {
        match &self.read_write {
            Some(k) => Some(k.as_str()),
            None => None,
        }
    }

    pub fn read_only_key(&self) -> (res: Option<&str>)
        ensures
            match res {
                Some(k) => opt_key(self.read_only) == Some(k@),
                None => self.read_only is None,
            },
    {
        match &self.read_only {
            Some(k) => Some(k.as_str()),
            None => None,
        }
    }

    /// A copy of these keys.
    pub fn duplicate(&self) -> (res: Self)
        ensures
            res.read_write == self.read_write,
            res.read_only == self.read_only,
    {
        let read_write = match &self.read_write {
            Some(k) => Some(k.clone()),
            None => None,
        };
        let read_only = match &self.read_only {
            Some(k) => Some(k.clone()),
            None => None,
        };
        AuthKeys { read_write, read_only }
    }
}

/// The authentication middleware's configuration.
pub struct Auth {
    pub auth_keys: AuthKeys,
    pub whitelist: Vec<WhitelistItem>,
}

impl Auth {
    pub fn new(auth_keys: AuthKeys, whitelist: Vec<WhitelistItem>) -> (res: Self)
        ensures
            res.auth_keys == auth_keys,
            res.whitelist == whitelist,
    {
        Self { auth_keys, whitelist }
    }

    /// The middleware wrapped around `service`, with this configuration.
    pub fn new_transform<S>(&self, service: S) -> (res: AuthMiddleware<S>)
        ensures
            res.auth_keys.read_write == self.auth_keys.read_write,
            res.auth_keys.read_only == self.auth_keys.read_only,
            res.whitelist@ == self.whitelist@,
            *res.service == service,
    {
        AuthMiddleware {
            auth_keys: Arc::new(self.auth_keys.duplicate()),
            whitelist: copy_whitelist(&self.whitelist),
            service: Arc::new(service),
        }
    }
}

/// The authentication middleware wrapped around the next service.
pub struct AuthMiddleware<S> {
    pub auth_keys: Arc<AuthKeys>,
    /// List of items whitelisted from authentication.
    pub whitelist: Vec<WhitelistItem>,
    pub service: Arc<S>,
}

impl<S> AuthMiddleware<S> {
    pub fn is_path_whitelisted(&self, path: &str) -> (res: bool)
        ensures
            res == whitelist_covers(self.whitelist@, path@),
    {
        let mut i: usize = 0;
        while i < self.whitelist.len()
            invariant
                i <= self.whitelist@.len(),
                forall|j: int| 0 <= j < i ==> !item_covers(#[trigger] self.whitelist@[j], path@),
            decreases self.whitelist@.len() - i,
        {
            if self.whitelist[i].matches(path) {
                return true;
            }
            i = i + 1;
        }
        false
    }

    /// The authentication method of a request to `path` that skips
    /// validation: a whitelisted path is forwarded as anonymous, any other
    /// path must be validated first (`None`).
    pub fn method_without_validation(&self, path: &str) -> (res: Option<AuthMethod>)
        ensures
            res == if whitelist_covers(self.whitelist@, path@) {
                Some(AuthMethod::Anonymous)
            } else {
                None
            },
    {
        if self.is_path_whitelisted(path) {
            Some(AuthMethod::Anonymous)
        } else {
            None
        }
    }
}

/// Authentication method used for the request
#[derive(Debug, Clone)]
pub enum AuthMethod {
    /// Authenticated with read-write API key
    ApiKey,
    /// Authenticated with read-only API key
    ReadOnlyApiKey,
    /// Authenticated with JWT token; holds the subject (sub) claim
    Jwt(Option<String>),
    /// No authentication (when auth is disabled)
    Anonymous,
}

impl AuthMethod {
    /// The audit log types of this method: (AuthType, subject).
    pub open spec fn to_audit_types_spec(&self) -> (AuthType, Option<String>) {
        match *self {
            AuthMethod::ApiKey => (AuthType::ApiKey, None),
            AuthMethod::ReadOnlyApiKey => (AuthType::ReadOnlyApiKey, None),
            AuthMethod::Jwt(subject) => (AuthType::Jwt, subject),
            AuthMethod::Anonymous => (AuthType::Anonymous, None),
        }
    }

    /// Convert to audit log types: (AuthType, subject)
    pub fn to_audit_types(&self) -> (res: (AuthType, Option<String>))
        ensures
            res == self.to_audit_types_spec(),
    {
        match self {
            AuthMethod::ApiKey => (AuthType::ApiKey, None),
            AuthMethod::ReadOnlyApiKey => (AuthType::ReadOnlyApiKey, None),
            AuthMethod::Jwt(subject) => {
                let s = match subject {
                    Some(s) => Some(s.clone()),
                    None => None,
                };
                (AuthType::Jwt, s)
            },
            AuthMethod::Anonymous => (AuthType::Anonymous, None),
        }
    }

    /// The method a handler sees: the one the middleware stored in the
    /// request, or `None` when it stored none.
    pub fn from_stored(stored: Option<AuthMethod>) -> (res: Self)
        ensures
            res == match stored {
                Some(m) => m,
                None => AuthMethod::Anonymous,
            },
    {
        match stored {
            Some(m) => m,
            None => AuthMethod::Anonymous,
        }
    }
}

/// The prefix of a bearer token in the authorization header.
pub open spec fn bearer_prefix() -> Seq<char> {
    "Bearer "@
}

/// The key that a request presents: the value of the api-key header when
/// there is one, otherwise the token of an authorization header of the form
/// `Bearer <token>`.
pub fn presented_key<'a>(api_key_header: Option<&'a str>, authorization_header: Option<&'a str>) -> (res:
    Option<&'a str>)
    ensures
        api_key_header is Some ==> res == api_key_header,
        api_key_header is None ==> (res is Some <==> (authorization_header matches Some(v)
            && bearer_prefix().is_prefix_of(v@))),
        api_key_header is None ==> (res matches Some(k) ==> authorization_header.unwrap()@
            == bearer_prefix() + k@),
{
    match api_key_header {
        Some(k) => Some(k),
        None => match authorization_header {
            Some(v) => strip_prefix(v, "Bearer "),
            None => None,
        },
    }
}

/// The method a presented key authenticates with under `keys`.
///
/// `jwt_subject` is what decoding the key as a JWT gives: `Some(sub)` with
/// the token's subject claim when a JWT parser is configured and the key
/// decodes under it, `None` otherwise.
pub open spec fn auth_method_for(
    keys: AuthKeys,
    key: Option<Seq<char>>,
    jwt_subject: Option<Option<String>>,
) -> AuthMethod {
    match key {
        None => AuthMethod::Anonymous,
        Some(k) => {
            if opt_key(keys.read_write) == Some(k) {
                AuthMethod::ApiKey
            } else if opt_key(keys.read_only) == Some(k) {
                AuthMethod::ReadOnlyApiKey
            } else {
                match jwt_subject {
                    Some(sub) => AuthMethod::Jwt(sub),
                    None => AuthMethod::Anonymous,
                }
            }
        },
    }
}

/// A key equal to the read-write key authenticates as such, whatever else
/// it matches; one equal to the read-only key (and not the read-write key)
/// as read-only; JWT decoding decides only for a key that matches neither;
/// a request without a key is anonymous.
pub proof fn lemma_api_keys_take_precedence(
    keys: AuthKeys,
    key: Option<Seq<char>>,
    jwt_subject: Option<Option<String>>,
)
    ensures
        key is None ==> auth_method_for(keys, key, jwt_subject) == AuthMethod::Anonymous,
        key is Some && opt_key(keys.read_write) == key ==> auth_method_for(keys, key, jwt_subject)
            == AuthMethod::ApiKey,
        key is Some && opt_key(keys.read_write) != key && opt_key(keys.read_only) == key
            ==> auth_method_for(keys, key, jwt_subject) == AuthMethod::ReadOnlyApiKey,
        auth_method_for(keys, key, jwt_subject) is Jwt ==> key is Some && opt_key(keys.read_write)
            != key && opt_key(keys.read_only) != key && jwt_subject is Some,
{
}

/// A presented key that matches no configured API key (whichever keys are
/// configured, none included) authenticates by JWT exactly when it decodes
/// as one, with the token's subject; the request is anonymous exactly when it
/// presents no key, or a key that matches no API key and decodes as no JWT.
pub proof fn lemma_jwt_decides_for_other_keys(
    keys: AuthKeys,
    key: Seq<char>,
    sub: Option<String>,
    jwt_subject: Option<Option<String>>,
)
    ensures
        opt_key(keys.read_write) != Some(key) && opt_key(keys.read_only) != Some(key) ==> auth_method_for(
            keys,
            Some(key),
            Some(sub),
        ) == AuthMethod::Jwt(sub),
        auth_method_for(keys, Some(key), jwt_subject) == AuthMethod::Anonymous <==> (opt_key(
            keys.read_write,
        ) != Some(key) && opt_key(keys.read_only) != Some(key) && jwt_subject is None),
{
}

/// Only a JWT-authenticated method gives an audit subject, and the audit
/// type is anonymous exactly for a request that did not authenticate.
pub proof fn lemma_audit_subject_only_from_jwt(m: AuthMethod)
    ensures
        m.to_audit_types_spec().1 is Some ==> m is Jwt,
        m.to_audit_types_spec().0 == AuthType::Anonymous <==> m is Anonymous,
{
}

/// The audit type names the method the request authenticated with, each
/// method its own type, and a JWT's subject claim (present or not) is the
/// audit subject.
pub proof fn lemma_audit_type_names_the_method(m: AuthMethod, sub: Option<String>)
    ensures
        m.to_audit_types_spec().0 == AuthType::Jwt <==> m is Jwt,
        m.to_audit_types_spec().0 == AuthType::ApiKey <==> m is ApiKey,
        m.to_audit_types_spec().0 == AuthType::ReadOnlyApiKey <==> m is ReadOnlyApiKey,
        AuthMethod::Jwt(sub).to_audit_types_spec() == (AuthType::Jwt, sub),
{
}

/// The view of an optional string slice.
pub open spec fn opt_str(s: Option<&str>) -> Option<Seq<char>> {
    match s {
        Some(k) => Some(k@),
        None => None,
    }
}

/// Determines which authentication method a request used, from the key it
/// presents (see `presented_key`) and what decoding that key as a JWT gives.
/// Keys are compared in constant time.
pub fn determine_auth_method(
    auth_keys: &AuthKeys,
    key: Option<&str>,
    jwt_subject: Option<Option<String>>,
) -> (res: AuthMethod)
    ensures
        res == auth_method_for(*auth_keys, opt_str(key), jwt_subject),
{
    match key {
        Some(key_value) => {
            if let Some(rw_key) = auth_keys.read_write_key() {
                if ct_eq(rw_key, key_value) {
                    return AuthMethod::ApiKey;
                }
            }
            if let Some(ro_key) = auth_keys.read_only_key() {
                if ct_eq(ro_key, key_value) {
                    return AuthMethod::ReadOnlyApiKey;
                }
            }
            match jwt_subject {
                Some(sub) => AuthMethod::Jwt(sub),
                None => AuthMethod::Anonymous,
            }
        },
        None => AuthMethod::Anonymous,
    }
}

/// Why the key validation refused a request.
pub enum AuthError {
    /// No valid credentials: the message to answer with
    Unauthorized(String),
    /// Valid credentials without the rights asked for: the message
    Forbidden(String),
    /// The storage failed while checking; its own error decides the answer
    StorageError(String),
}

impl AuthError {
    /// The HTTP status a refused request is answered with: 401 for missing
    /// credentials, 403 for missing rights; a storage failure is answered by
    /// the storage error's own response, so no status is fixed here.
    pub fn status_code(&self) -> (res: Option<u16>)
        ensures
            res == match *self {
                AuthError::Unauthorized(_) => Some(401u16),
                AuthError::Forbidden(_) => Some(403u16),
                AuthError::StorageError(_) => None,
            },
    {
        match self {
            AuthError::Unauthorized(_) => Some(401),
            AuthError::Forbidden(_) => Some(403),
            AuthError::StorageError(_) => None,
        }
    }
}

} // verus!
