//! Request authentication and authorization: extracting a candidate token
//! from a request, verifying it, resolving the verified subject to a current
//! principal, and gating the request by role.
//!
//! The pipeline is strictly ordered — extraction, verification, resolution,
//! role check — and fails fast: a request rejected by the token step never
//! reaches the resolver, and the three internal verification failures leave
//! the authenticator collapsed into one external kind, so a caller cannot
//! tell a malformed token from a badly signed or expired one.

use vstd::prelude::*;

use crate::error::spec_message;
use crate::error::spec_status;
use crate::error::ErrorMessage;
use crate::error::HttpError;
use crate::token::decode_of;
use crate::token::decode_token_at;
use crate::token::spec_verify;

verus! {

/// A role a resolved principal may hold; route policies are sets of these.
#[derive(Clone, Copy, Debug, PartialEq, Eq, Structural)]
pub enum UserRole {
    Admin,
    Moderator,
    User,
}

/// A resolved identity: who the caller is, what role they hold, and whether
/// the account is still active.
#[derive(Debug, Clone)]
pub struct Principal {
    pub id: String,
    pub role: UserRole,
    pub active: bool,
}

/// The mathematical value of a principal.
pub ghost struct PrincipalView {
    pub id: Seq<char>,
    pub role: UserRole,
    pub active: bool,
}

impl View for Principal {
    type V = PrincipalView;

    open spec fn view(&self) -> PrincipalView {
        PrincipalView { id: self.id@, role: self.role, active: self.active }
    }
}

/// What the authenticator reads from an inbound request: the value of the
/// `token` cookie, if that cookie is present, and the value of the
/// Authorization header, if that header is present. The request itself is
/// never changed.
pub struct RequestParts {
    pub cookie_token: Option<String>,
    pub authorization: Option<String>,
}

/// The mathematical value of the request fields the authenticator reads.
pub ghost struct RequestPartsView {
    pub cookie_token: Option<Seq<char>>,
    pub authorization: Option<Seq<char>>,
}

/// The mathematical value of an optional string.
pub open spec fn view_opt_string(o: Option<String>) -> Option<Seq<char>> {
    match o {
        Some(s) => Some(s@),
        None => None,
    }
}

impl View for RequestParts {
    type V = RequestPartsView;

    open spec fn view(&self) -> RequestPartsView {
        RequestPartsView {
            cookie_token: view_opt_string(self.cookie_token),
            authorization: view_opt_string(self.authorization),
        }
    }
}

/// The literal scheme prefix of a bearer Authorization header.
pub open spec fn bearer_prefix() -> Seq<char> {
    "Bearer "@
}

/// Relies on str::strip_prefix: the remainder of the value after the literal
/// "Bearer " scheme prefix when the value starts with it, and nothing when it
/// does not.
#[verifier::external_body]
fn strip_bearer(value: &str) -> (r: Option<String>)
    ensures
        (match r {
            Some(rest) => value@ == bearer_prefix() + rest@,
            None => forall|rest: Seq<char>| value@ != bearer_prefix() + rest,
        }),
{
    match value.strip_prefix("Bearer ") {
        Some(rest) => Some(rest.to_owned()),
        None => None,
    }
}

/// The token carried by an Authorization header value: what follows the
/// Bearer scheme prefix, if the value carries that scheme; a value under any
/// other scheme carries no token at all.
pub open spec fn spec_bearer_token(header: Seq<char>) -> Option<Seq<char>> {
    if header.len() >= bearer_prefix().len() && header.subrange(
        0,
        bearer_prefix().len() as int,
    ) == bearer_prefix() {
        Some(header.skip(bearer_prefix().len() as int))
    } else {
        None
    }
}

fn bearer_token(value: &str) -> (r: Option<String>)
    ensures
        view_opt_string(r) == spec_bearer_token(value@),
{
    let stripped = strip_bearer(value);
    proof {
        match &stripped {
            Some(rest) => {
                assert(value@.subrange(0, bearer_prefix().len() as int) =~= bearer_prefix());
                assert(value@.skip(bearer_prefix().len() as int) =~= rest@);
            },
            None => {
                if value@.len() >= bearer_prefix().len() && value@.subrange(
                    0,
                    bearer_prefix().len() as int,
                ) == bearer_prefix() {
                    assert(value@ =~= bearer_prefix() + value@.skip(
                        bearer_prefix().len() as int,
                    ));
                }
            },
        }
    }
    stripped
}

/// The candidate token of a request: the `token` cookie when it is present
/// and non-empty, otherwise whatever a bearer Authorization header carries.
/// The first match wins; nothing is merged.
pub open spec fn spec_extract(req: RequestPartsView) -> Option<Seq<char>> {
    match req.cookie_token {
        Some(c) => if c.len() > 0 {
            Some(c)
        } else {
            spec_extract_header(req.authorization)
        },
        None => spec_extract_header(req.authorization),
    }
}

/// The candidate token carried by an optional Authorization header.
pub open spec fn spec_extract_header(header: Option<Seq<char>>) -> Option<Seq<char>> {
    match header {
        Some(h) => spec_bearer_token(h),
        None => None,
    }
}

/// Picks the candidate token out of a request, if it carries one.
pub fn extract_token(req: &RequestParts) -> (r: Option<String>)
    ensures
        view_opt_string(r) == spec_extract(req@),
{
    let from_cookie: Option<String> = match &req.cookie_token {
        Some(c) => if c.as_str().is_empty() {
            None
        } else {
            Some(c.clone())
        },
        None => None,
    };
    match from_cookie {
        Some(t) => Some(t),
        None => match &req.authorization {
            Some(h) => bearer_token(h.as_str()),
            None => None,
        },
    }
}

/// The token step of authentication: the failure a request is rejected with
/// before any lookup, or the verified subject. A request without a candidate
/// token wants a token; a candidate that fails verification for any internal
/// reason is reported with the one collapsed kind.
pub open spec fn spec_check(req: RequestPartsView, secret: Seq<u8>, now: u64) -> Result<
    Seq<char>,
    ErrorMessage,
> {
    match spec_extract(req) {
        None => Err(ErrorMessage::TokenNotProvided),
        Some(t) => match spec_verify(decode_of(t, secret), now) {
            Err(_) => Err(ErrorMessage::InvalidToken),
            Ok(c) => Ok(c.sub),
        },
    }
}

/// Runs the token step of authentication as of the instant `now`: extraction,
/// then verification under the process secret, with the verified subject as
/// the result.
pub fn check_request_token(req: &RequestParts, secret: &[u8], now: u64) -> (r: Result<
    String,
    ErrorMessage,
>)
    ensures
        (match r {
            Ok(s) => spec_check(req@, secret@, now) == Ok::<Seq<char>, ErrorMessage>(s@),
            Err(k) => spec_check(req@, secret@, now) == Err::<Seq<char>, ErrorMessage>(k),
        }),
{
    match extract_token(req) {
        None => Err(ErrorMessage::TokenNotProvided),
        Some(t) => match decode_token_at(t.as_str(), secret, now) {
            Err(_) => Err(ErrorMessage::InvalidToken),
            Ok(claims) => Ok(claims.sub),
        },
    }
}

/// A lookup that failed outright: the backing store could not answer. This is
/// not the same as an absent user.
#[derive(Clone, Copy, Debug, PartialEq, Eq, Structural)]
pub struct StoreError;

/// How a verified subject identifier is resolved to a current principal. The
/// directory is the resolver's current contents; a lookup may instead fail
/// outright, and then reports a store failure rather than an absent user.
pub trait CredentialResolver {
    /// The subjects the resolver currently knows, each with its principal.
    spec fn directory(&self) -> Map<Seq<char>, PrincipalView>;

    /// Fetches the principal for a subject. No principal means the subject is
    /// unknown; a store error means the lookup itself failed.
    fn lookup(&self, subject: &str) -> (r: Result<Option<Principal>, StoreError>)
        ensures
            (match r {
                Ok(found) => view_opt_principal(found) == spec_lookup(self.directory(), subject@),
                Err(e) => true,
            }),
    ;
}

/// The mathematical value of an optional principal.
pub open spec fn view_opt_principal(o: Option<Principal>) -> Option<PrincipalView> {
    match o {
        Some(p) => Some(p@),
        None => None,
    }
}

/// What a directory holds for a subject.
pub open spec fn spec_lookup(dir: Map<Seq<char>, PrincipalView>, subject: Seq<char>) -> Option<
    PrincipalView,
> {
    if dir.contains_key(subject) {
        Some(dir[subject])
    } else {
        None
    }
}

/// A resolver over a fixed in-memory list of subjects, scanned front to
/// back; on duplicate subjects the earliest entry wins.
pub struct MemoryResolver {
    pub entries: Vec<(String, Principal)>,
}

/// The directory an entry list stands for: each subject bound to its
/// earliest entry's principal.
pub open spec fn directory_of(entries: Seq<(String, Principal)>) -> Map<Seq<char>, PrincipalView>
    decreases entries.len(),
{
    if entries.len() == 0 {
        Map::empty()
    } else {
        directory_of(entries.skip(1)).insert(entries[0].0@, entries[0].1@)
    }
}

proof fn lemma_directory_skip(entries: Seq<(String, Principal)>, i: int, key: Seq<char>)
    requires
        0 <= i <= entries.len(),
        forall|j: int| 0 <= j < i ==> entries[j].0@ != key,
    ensures
        directory_of(entries).contains_key(key) == directory_of(entries.skip(i)).contains_key(key),
        directory_of(entries).contains_key(key) ==> directory_of(entries)[key] == directory_of(
            entries.skip(i),
        )[key],
    decreases i,
{
    if i > 0 {
        lemma_directory_skip(entries.skip(1), i - 1, key);
        assert(entries.skip(1).skip(i - 1) =~= entries.skip(i));
    } else {
        assert(entries.skip(0) =~= entries);
    }
}

impl MemoryResolver {
    /// A resolver that knows nobody.
    pub fn new() -> (r: Self)
        ensures
            r.directory() == Map::<Seq<char>, PrincipalView>::empty(),
    {
        MemoryResolver { entries: Vec::new() }
    }
}

impl CredentialResolver for MemoryResolver {
    open spec fn directory(&self) -> Map<Seq<char>, PrincipalView> {
        directory_of(self.entries@)
    }

    fn lookup(&self, subject: &str) -> (r: Result<Option<Principal>, StoreError>)
        ensures
            (match r {
                Ok(found) => view_opt_principal(found) == spec_lookup(self.directory(), subject@),
                Err(e) => true,
            }),
    {
        let wanted: String = subject.to_owned();
        let mut i: usize = 0;
        while i < self.entries.len()
            invariant
                0 <= i <= self.entries@.len(),
                wanted@ == subject@,
                forall|j: int| 0 <= j < i ==> self.entries@[j].0@ != subject@,
            decreases self.entries@.len() - i,
        {
            if self.entries[i].0 == wanted {
                let found = Principal {
                    id: self.entries[i].1.id.clone(),
                    role: self.entries[i].1.role,
                    active: self.entries[i].1.active,
                };
                proof {
                    lemma_directory_skip(self.entries@, i as int, subject@);
                    assert(self.entries@.skip(i as int).skip(1) =~= self.entries@.skip(i + 1));
                    assert(self.entries@.skip(i as int)[0] == self.entries@[i as int]);
                }
                return Ok(Some(found));
            }
            i = i + 1;
        }
        proof {
            lemma_directory_skip(self.entries@, self.entries@.len() as int, subject@);
            assert(self.entries@.skip(self.entries@.len() as int) =~= Seq::<(
                String,
                Principal,
            )>::empty());
        }
        Ok(None)
    }
}

/// The outcome of authenticating one request: either a resolved principal or
/// a classified rejection. Never partially populated.
#[derive(Debug, Clone)]
pub enum AuthOutcome {
    Authenticated(Principal),
    Rejected(ErrorMessage),
}

/// The mathematical value of an authentication outcome.
pub open spec fn outcome_view(o: AuthOutcome) -> Result<PrincipalView, ErrorMessage> {
    match o {
        AuthOutcome::Authenticated(p) => Ok(p@),
        AuthOutcome::Rejected(k) => Err(k),
    }
}

/// The outcome owed once a verified subject is held against a directory: the
/// subject's active principal, or rejection because the user the token names
/// no longer exists (absent or inactive — a token can outlive its account).
pub open spec fn spec_resolution(dir: Map<Seq<char>, PrincipalView>, sub: Seq<char>) -> Result<
    PrincipalView,
    ErrorMessage,
> {
    match spec_lookup(dir, sub) {
        Some(p) => if p.active {
            Ok(p)
        } else {
            Err(ErrorMessage::UserNoLongerExist)
        },
        None => Err(ErrorMessage::UserNoLongerExist),
    }
}

/// The authentication outcome for a request against a directory, when the
/// lookup itself does not fail.
pub open spec fn spec_authenticate(
    req: RequestPartsView,
    secret: Seq<u8>,
    now: u64,
    dir: Map<Seq<char>, PrincipalView>,
) -> Result<PrincipalView, ErrorMessage> {
    match spec_check(req, secret, now) {
        Err(k) => Err(k),
        Ok(sub) => spec_resolution(dir, sub),
    }
}

/// Authenticates one request as of the instant `now`: extraction, then
/// verification, then resolution, in that order. A request the token step
/// rejects is answered at once, without consulting the resolver; only a
/// failing lookup may turn an otherwise determined outcome into a server
/// error.
pub fn authenticate<R: CredentialResolver>(
    req: &RequestParts,
    secret: &[u8],
    now: u64,
    resolver: &R,
) -> (o: AuthOutcome)
    ensures
        spec_check(req@, secret@, now) matches Err(k) ==> outcome_view(o) == Err::<
            PrincipalView,
            ErrorMessage,
        >(k),
        spec_check(req@, secret@, now) is Ok ==> (outcome_view(o) == spec_authenticate(
            req@,
            secret@,
            now,
            resolver.directory(),
        ) || outcome_view(o) == Err::<PrincipalView, ErrorMessage>(ErrorMessage::ServerError)),
{
    let sub = match check_request_token(req, secret, now) {
        Err(k) => {
            return AuthOutcome::Rejected(k);
        },
        Ok(s) => s,
    };
    match resolver.lookup(sub.as_str()) {
        Err(_) => AuthOutcome::Rejected(ErrorMessage::ServerError),
        Ok(None) => AuthOutcome::Rejected(ErrorMessage::UserNoLongerExist),
        Ok(Some(p)) => {
            if p.active {
                AuthOutcome::Authenticated(p)
            } else {
                AuthOutcome::Rejected(ErrorMessage::UserNoLongerExist)
            }
        },
    }
}

/// How the role gate judges an authentication outcome against the allowed
/// roles: rejections pass through unchanged, and an authenticated principal
/// passes exactly when its role is allowed.
pub open spec fn spec_authorize(
    o: Result<PrincipalView, ErrorMessage>,
    allowed: Seq<UserRole>,
) -> Result<PrincipalView, ErrorMessage> {
    match o {
        Err(k) => Err(k),
        Ok(p) => if allowed.contains(p.role) {
            Ok(p)
        } else {
            Err(ErrorMessage::PermissionDenied)
        },
    }
}

/// The mathematical value of an authorization result.
pub open spec fn principal_result_view(r: Result<Principal, ErrorMessage>) -> Result<
    PrincipalView,
    ErrorMessage,
> {
    match r {
        Ok(p) => Ok(p@),
        Err(k) => Err(k),
    }
}

fn role_allowed(role: UserRole, allowed: &Vec<UserRole>) -> (b: bool)
    ensures
        b == allowed@.contains(role),
{
    let mut i: usize = 0;
    while i < allowed.len()
        invariant
            0 <= i <= allowed@.len(),
            forall|j: int| 0 <= j < i ==> allowed@[j] != role,
        decreases allowed@.len() - i,
    {
        if allowed[i] == role {
            return true;
        }
        i = i + 1;
    }
    false
}

/// Applies the role gate to an authentication outcome: rejections propagate
/// unchanged, an allowed principal is returned unchanged, and a disallowed
/// one is rejected for want of permission.
pub fn authorize(outcome: AuthOutcome, allowed: &Vec<UserRole>) -> (r: Result<
    Principal,
    ErrorMessage,
>)
    ensures
        principal_result_view(r) == spec_authorize(outcome_view(outcome), allowed@),
{
    match outcome {
        AuthOutcome::Rejected(k) => Err(k),
        AuthOutcome::Authenticated(p) => {
            if role_allowed(p.role, allowed) {
                Ok(p)
            } else {
                Err(ErrorMessage::PermissionDenied)
            }
        },
    }
}

/// The whole gate: authentication followed by the role check.
pub open spec fn spec_gate(
    req: RequestPartsView,
    secret: Seq<u8>,
    now: u64,
    dir: Map<Seq<char>, PrincipalView>,
    allowed: Seq<UserRole>,
) -> Result<PrincipalView, ErrorMessage> {
    spec_authorize(spec_authenticate(req, secret, now, dir), allowed)
}

/// The interception gate attached to a route group: which roles may pass.
/// The role check runs before the route's handler; a rejected request is
/// short-circuited with a structured error and the handler is never invoked.
pub struct AuthMiddleware {
    pub allowed_roles: Vec<UserRole>,
}

impl AuthMiddleware {
    /// A gate for an arbitrary role set, fixed at route registration time.
    pub fn new(allowed_roles: Vec<UserRole>) -> (r: Self)
        ensures
            r.allowed_roles == allowed_roles,
    {
        AuthMiddleware { allowed_roles }
    }

    /// Runs the full pipeline on one request as of the instant `now`. A
    /// principal is handed back exactly when the request may proceed; on any
    /// rejection the error carries the status code and message fixed by the
    /// failure kind, and the caller must not invoke the handler.
    pub fn handle<R: CredentialResolver>(
        &self,
        req: &RequestParts,
        secret: &[u8],
        now: u64,
        resolver: &R,
    ) -> (r: Result<Principal, HttpError>)
        ensures
            spec_check(req@, secret@, now) matches Err(k) ==> (r matches Err(h) && h.status
                == spec_status(k) && h.message@ == spec_message(k)),
            spec_check(req@, secret@, now) is Ok ==> ((match spec_gate(
                req@,
                secret@,
                now,
                resolver.directory(),
                self.allowed_roles@,
            ) {
                Ok(p) => r matches Ok(q) && q@ == p,
                Err(k) => r matches Err(h) && h.status == spec_status(k) && h.message@
                    == spec_message(k),
            }) || (r matches Err(h) && h.status == spec_status(ErrorMessage::ServerError)
                && h.message@ == spec_message(ErrorMessage::ServerError))),
    {
        let outcome = authenticate(req, secret, now, resolver);
        match authorize(outcome, &self.allowed_roles) {
            Ok(p) => Ok(p),
            Err(k) => Err(HttpError::from_error_message(k)),
        }
    }
}

/// The standard gate admitting any authenticated role.
pub struct RequireAuth;

impl RequireAuth {
    /// A role check that lets any authenticated principal through.
    pub fn middleware() -> (r: AuthMiddleware)
        ensures
            r.allowed_roles@ == seq![UserRole::Admin, UserRole::User, UserRole::Moderator],
    {
        let mut allowed: Vec<UserRole> = Vec::new();
        allowed.push(UserRole::Admin);
        allowed.push(UserRole::User);
        allowed.push(UserRole::Moderator);
        proof {
            assert(allowed@ =~= seq![UserRole::Admin, UserRole::User, UserRole::Moderator]);
        }
        AuthMiddleware { allowed_roles: allowed }
    }
}

/// The standard gate admitting administrators only.
pub struct RequireOnlyAdmin;

impl RequireOnlyAdmin {
    /// A role check that lets only administrators through.
    pub fn middleware() -> (r: AuthMiddleware)
        ensures
            r.allowed_roles@ == seq![UserRole::Admin],
    {
        let mut allowed: Vec<UserRole> = Vec::new();
        allowed.push(UserRole::Admin);
        proof {
            assert(allowed@ =~= seq![UserRole::Admin]);
        }
        AuthMiddleware { allowed_roles: allowed }
    }
}

/// Law: a request carrying neither a token cookie nor an Authorization
/// header is rejected for want of a token, whatever the secret, the instant
/// and the directory.
pub proof fn lemma_no_credentials_rejected(
    req: RequestPartsView,
    secret: Seq<u8>,
    now: u64,
    dir: Map<Seq<char>, PrincipalView>,
)
    requires
        req.cookie_token is None,
        req.authorization is None,
    ensures
        spec_authenticate(req, secret, now, dir) == Err::<PrincipalView, ErrorMessage>(
            ErrorMessage::TokenNotProvided,
        ),
{
}

/// Law: an Authorization header under any scheme other than Bearer is
/// treated as absent — without a cookie such a request is rejected for want
/// of a token, not as carrying a malformed one.
pub proof fn lemma_wrong_scheme_is_absent(
    req: RequestPartsView,
    secret: Seq<u8>,
    now: u64,
    dir: Map<Seq<char>, PrincipalView>,
    header: Seq<char>,
)
    requires
        req.cookie_token is None,
        req.authorization == Some(header),
        forall|rest: Seq<char>| header != bearer_prefix() + rest,
    ensures
        spec_authenticate(req, secret, now, dir) == Err::<PrincipalView, ErrorMessage>(
            ErrorMessage::TokenNotProvided,
        ),
{
    if header.len() >= bearer_prefix().len() && header.subrange(
        0,
        bearer_prefix().len() as int,
    ) == bearer_prefix() {
        assert(header =~= bearer_prefix() + header.skip(bearer_prefix().len() as int));
    }
}

/// Law: a request whose token verifies but whose subject the directory does
/// not hold as an active principal is rejected because the user no longer
/// exists, whatever roles are allowed — the role check is never reached.
pub proof fn lemma_unknown_subject_rejected(
    req: RequestPartsView,
    secret: Seq<u8>,
    now: u64,
    dir: Map<Seq<char>, PrincipalView>,
    allowed: Seq<UserRole>,
    sub: Seq<char>,
)
    requires
        spec_check(req, secret, now) == Ok::<Seq<char>, ErrorMessage>(sub),
        !dir.contains_key(sub) || !dir[sub].active,
    ensures
        spec_gate(req, secret, now, dir, allowed) == Err::<PrincipalView, ErrorMessage>(
            ErrorMessage::UserNoLongerExist,
        ),
{
}

/// Law: the role gate returns an authenticated principal unchanged exactly
/// when its role is among the allowed ones, and otherwise rejects it for
/// want of permission.
pub proof fn lemma_role_gate(p: PrincipalView, allowed: Seq<UserRole>)
    ensures
        allowed.contains(p.role) ==> spec_authorize(Ok(p), allowed) == Ok::<
            PrincipalView,
            ErrorMessage,
        >(p),
        !allowed.contains(p.role) ==> spec_authorize(Ok(p), allowed) == Err::<
            PrincipalView,
            ErrorMessage,
        >(ErrorMessage::PermissionDenied),
{
}

/// Law: a request that carries, as a bearer Authorization header, a token
/// that decodes to an unexpired claims record for a subject the directory
/// holds as an active principal authenticates to exactly that principal.
pub proof fn lemma_valid_bearer_request_authenticates(
    req: RequestPartsView,
    secret: Seq<u8>,
    now: u64,
    dir: Map<Seq<char>, PrincipalView>,
    token: Seq<char>,
    sub: Seq<char>,
    iat: u64,
    exp: u64,
)
    requires
        req.cookie_token is None,
        req.authorization == Some(bearer_prefix() + token),
        decode_of(token, secret) == crate::token::decoded_claims(sub, iat, exp),
        now < exp,
        dir.contains_key(sub),
        dir[sub].active,
    ensures
        spec_authenticate(req, secret, now, dir) == Ok::<PrincipalView, ErrorMessage>(dir[sub]),
{
    let h = bearer_prefix() + token;
    assert(h.subrange(0, bearer_prefix().len() as int) =~= bearer_prefix());
    assert(h.skip(bearer_prefix().len() as int) =~= token);
}

/// Law: when the token step rejects a request, the pipeline outcome does not
/// depend on the directory — no lookup could have changed it.
pub proof fn lemma_fail_fast(
    req: RequestPartsView,
    secret: Seq<u8>,
    now: u64,
    dir1: Map<Seq<char>, PrincipalView>,
    dir2: Map<Seq<char>, PrincipalView>,
    allowed: Seq<UserRole>,
)
    requires
        spec_check(req, secret, now) is Err,
    ensures
        spec_gate(req, secret, now, dir1, allowed) == spec_gate(req, secret, now, dir2, allowed),
{
}

} // verus!
