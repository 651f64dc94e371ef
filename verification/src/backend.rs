//! The credential backend: who the users are and how a presented credential
//! becomes a verified user.

use crate::session::UserId;
use vstd::prelude::*;

verus! {

/// What a user is known by.
#[derive(Debug, PartialEq, Eq)]
pub enum Credential {
    /// A locally verified secret, in the form in which it is kept.
    Secret(Vec<u8>),
    /// The account id that the OAuth provider knows the user by.
    External(u64),
}

/// What a [`Credential`] holds.
pub enum CredentialView {
    Secret(Seq<u8>),
    External(u64),
}

impl View for Credential {
    type V = CredentialView;

    open spec fn view(&self) -> CredentialView {
        match self {
            Credential::Secret(s) => CredentialView::Secret(s@),
            Credential::External(id) => CredentialView::External(*id),
        }
    }
}

/// A user.
#[derive(Debug, PartialEq, Eq)]
pub struct User {
    pub id: UserId,
    pub username: String,
    /// The reference against which the user's credential is verified.
    pub credential: Credential,
    /// The provider's access token of the login that produced this value.
    /// It travels with the session and is never kept by the backend.
    pub access_token: Option<String>,
}

/// What a [`User`] holds.
pub struct UserView {
    pub id: UserId,
    pub username: Seq<char>,
    pub credential: CredentialView,
    pub access_token: Option<Seq<char>>,
}

impl View for User {
    type V = UserView;

    open spec fn view(&self) -> UserView {
        UserView {
            id: self.id,
            username: self.username@,
            credential: self.credential@,
            access_token: match self.access_token {
                Some(t) => Some(t@),
                None => None,
            },
        }
    }
}

impl Clone for Credential {
    fn clone(&self) -> (copy: Credential)
        ensures
            copy@ == self@,
    {
        match self {
            Credential::Secret(s) => {
                let bytes = s.clone();
                assert(bytes@ =~= s@);
                Credential::Secret(bytes)
            },
            Credential::External(id) => Credential::External(*id),
        }
    }
}

impl Clone for User {
    fn clone(&self) -> (copy: User)
        ensures
            copy@ == self@,
    {
        let credential = self.credential.clone();
        let access_token = match &self.access_token {
            Some(t) => Some(t.clone()),
            None => None,
        };
        User { id: self.id, username: self.username.clone(), credential, access_token }
    }
}

/// The view of an optional user.
pub open spec fn user_view(u: Option<User>) -> Option<UserView> {
    match u {
        Some(u) => Some(u@),
        None => None,
    }
}

/// Why a credential did not yield a user.
#[derive(Clone, Copy, Debug, PartialEq, Eq, Structural)]
pub enum AuthError {
    /// No user is known by the identifier.
    NotFound,
    /// The secret does not match, or the provider rejected the token.
    VerificationFailed,
}

/// What the provider's identity endpoint says of the owner of a token.
#[derive(Clone, Debug, PartialEq, Eq)]
pub struct ExternalProfile {
    /// The provider's id of the account.
    pub account_id: u64,
    /// The provider's name of the account.
    pub login: String,
}

/// What an [`ExternalProfile`] holds.
pub struct ProfileView {
    pub account_id: u64,
    pub login: Seq<char>,
}

impl View for ExternalProfile {
    type V = ProfileView;

    open spec fn view(&self) -> ProfileView {
        ProfileView { account_id: self.account_id, login: self.login@ }
    }
}

/// Compares two byte strings in time that depends on their lengths alone:
/// every byte is looked at, whatever the bytes before it were.
pub fn constant_time_eq(a: &[u8], b: &[u8]) -> (same: bool)
    ensures
        same == (a@ == b@),
{
    if a.len() != b.len() {
        return false;
    }
    let mut diff: u8 = 0;
    let mut i: usize = 0;
    while i < a.len()
        invariant
            a@.len() == b@.len(),
            i <= a@.len(),
            diff == 0 <==> (forall|j: int| 0 <= j < i ==> a@[j] == b@[j]),
        decreases a@.len() - i,
    {
        let x: u8 = a[i];
        let y: u8 = b[i];
        let ghost before = diff;
        diff = diff | (x ^ y);
        assert(diff == 0 <==> (before == 0 && x == y)) by (bit_vector)
            requires
                diff == before | (x ^ y),
        ;
        i += 1;
    }
    proof {
        if diff == 0 {
            assert(a@ =~= b@);
        }
    }
    diff == 0
}

/// The user at position `i` is known locally by `name`.
pub open spec fn is_local(users: Seq<UserView>, name: Seq<char>, i: int) -> bool {
    &&& 0 <= i < users.len()
    &&& users[i].username == name
    &&& users[i].credential is Secret
}

/// Position `i` holds the first user known locally by `name`.
pub open spec fn is_first_local(users: Seq<UserView>, name: Seq<char>, i: int) -> bool {
    &&& is_local(users, name, i)
    &&& forall|j: int| 0 <= j < i ==> !is_local(users, name, j)
}

/// The user at position `i` is the provider's account `account`.
pub open spec fn is_external(users: Seq<UserView>, account: u64, i: int) -> bool {
    &&& 0 <= i < users.len()
    &&& users[i].credential == CredentialView::External(account)
}

/// Some user is the provider's account `account`.
pub open spec fn has_external(users: Seq<UserView>, account: u64) -> bool {
    exists|i: int| is_external(users, account, i)
}

/// No two users are the same account of the provider.
pub open spec fn externals_distinct(users: Seq<UserView>) -> bool {
    forall|i: int, j: int, account: u64|
        is_external(users, account, i) && is_external(users, account, j) ==> i == j
}

/// The user that first-login provisioning makes of a profile when `count`
/// users exist.
pub open spec fn provisioned_user(count: nat, profile: ProfileView) -> UserView {
    UserView {
        id: (count + 1) as u64,
        username: profile.login,
        credential: CredentialView::External(profile.account_id),
        access_token: None,
    }
}

/// The users after the profile's account has been resolved: as before where
/// the account is known, with one new user where it is not.
pub open spec fn provisioned(users: Seq<UserView>, profile: ProfileView) -> Seq<UserView> {
    if has_external(users, profile.account_id) {
        users
    } else {
        users.push(provisioned_user(users.len(), profile))
    }
}

/// What a direct verification of `secret` for `name` yields.
pub open spec fn spec_verify_direct(users: Seq<UserView>, name: Seq<char>, secret: Seq<u8>)
    -> Result<UserView, AuthError> {
    if exists|i: int| is_first_local(users, name, i) {
        let i = choose|i: int| is_first_local(users, name, i);
        if users[i].credential == CredentialView::Secret(secret) {
            Ok(users[i])
        } else {
            Err(AuthError::VerificationFailed)
        }
    } else {
        Err(AuthError::NotFound)
    }
}

/// What looking up the user `id` yields.
pub open spec fn spec_load_user(users: Seq<UserView>, id: UserId) -> Result<UserView, AuthError> {
    if 1 <= id <= users.len() {
        Ok(users[id - 1])
    } else {
        Err(AuthError::NotFound)
    }
}

/// The users of a backend as a sequence of views.
pub open spec fn user_views(users: Seq<User>) -> Seq<UserView> {
    Seq::new(users.len(), |i: int| users[i]@)
}

/// The users are numbered from one in the order in which they were added,
/// none holds an access token, and none shares a provider account.
pub open spec fn well_formed(users: Seq<UserView>) -> bool {
    &&& forall|i: int| 0 <= i < users.len() ==> (#[trigger] users[i]).id == i + 1
    &&& forall|i: int| 0 <= i < users.len() ==> (#[trigger] users[i]).access_token is None
    &&& externals_distinct(users)
}

/// The credential backend: the users that the gateway knows.
#[derive(Debug)]
pub struct Backend {
    users: Vec<User>,
}

impl View for Backend {
    type V = Seq<UserView>;

    closed spec fn view(&self) -> Seq<UserView> {
        user_views(self.users@)
    }
}

impl Backend {
    #[verifier::type_invariant]
    spec fn inv(self) -> bool {
        well_formed(user_views(self.users@))
    }

    /// A backend without users.
    pub fn new() -> (backend: Backend)
        ensures
            backend@ == Seq::<UserView>::empty(),
    {
        let backend = Backend { users: Vec::new() };
        assert(user_views(backend.users@) =~= Seq::<UserView>::empty());
        backend
    }

    /// The number of users.
    pub fn len(&self) -> (n: usize)
        ensures
            n == self@.len(),
    {
        self.users.len()
    }

    /// Whether one more user can be numbered.
    pub fn has_room(&self) -> (room: bool)
        ensures
            room == (self@.len() < u64::MAX),
    {
        (self.users.len() as u64) < u64::MAX
    }

    /// Adds a user who is verified directly, with the reference that the
    /// user's secret is held against, and returns the new user's id.
    pub fn enroll(&mut self, username: String, reference: Vec<u8>) -> (id: UserId)
        requires
            old(self)@.len() < u64::MAX,
        ensures
            id == old(self)@.len() + 1,
            final(self)@ == old(self)@.push(
                UserView {
                    id,
                    username: username@,
                    credential: CredentialView::Secret(reference@),
                    access_token: None,
                },
            ),
    {
        proof {
            use_type_invariant(&*self);
        }
        let ghost before = user_views(self.users@);
        let id: u64 = self.users.len() as u64 + 1;
        let user = User { id, username, credential: Credential::Secret(reference), access_token: None };
        let mut users: Vec<User> = Vec::new();
        assert(user_views(users@) =~= Seq::<UserView>::empty());
        core::mem::swap(&mut self.users, &mut users);
        users.push(user);
        proof {
            let after = user_views(users@);
            assert(after =~= before.push(user@));
            assert forall|i: int, j: int, account: u64|
                is_external(after, account, i) && is_external(after, account, j) implies i
                == j by {
                assert(is_external(before, account, i));
                assert(is_external(before, account, j));
            }
        }
        self.users = users;
        id
    }

    /// Verifies a secret for the user known locally by `identifier`. The
    /// secret is presented in the form in which references are kept and is
    /// compared in constant time.
    pub fn verify_direct(&self, identifier: &String, secret: &[u8]) -> (verified: Result<
        User,
        AuthError,
    >)
        ensures
            match verified {
                Ok(u) => spec_verify_direct(self@, identifier@, secret@) == Ok::<
                    UserView,
                    AuthError,
                >(u@),
                Err(e) => spec_verify_direct(self@, identifier@, secret@) == Err::<
                    UserView,
                    AuthError,
                >(e),
            },
    {
        let ghost users = user_views(self.users@);
        let mut i: usize = 0;
        while i < self.users.len()
            invariant
                i <= self.users@.len(),
                users == user_views(self.users@),
                forall|j: int| 0 <= j < i ==> !is_local(users, identifier@, j),
            decreases self.users@.len() - i,
        {
            let user = &self.users[i];
            if user.username == *identifier {
                if let Credential::Secret(reference) = &user.credential {
                    proof {
                        assert(is_first_local(users, identifier@, i as int));
                        let c = choose|c: int| is_first_local(users, identifier@, c);
                        assert(c == i) by {
                            if c < i {
                                assert(!is_local(users, identifier@, c));
                            } else if i < c {
                                assert(is_local(users, identifier@, i as int));
                            }
                        }
                    }
                    if constant_time_eq(reference.as_slice(), secret) {
                        return Ok(user.clone());
                    } else {
                        return Err(AuthError::VerificationFailed);
                    }
                }
            }
            i += 1;
        }
        Err(AuthError::NotFound)
    }

    /// The position of the user who is the provider's account, if any.
    fn find_external(&self, account: u64) -> (at: Option<usize>)
        ensures
            match at {
                Some(i) => is_external(self@, account, i as int),
                None => !has_external(self@, account),
            },
    {
        let ghost users = user_views(self.users@);
        let mut i: usize = 0;
        while i < self.users.len()
            invariant
                i <= self.users@.len(),
                users == user_views(self.users@),
                forall|j: int| 0 <= j < i ==> !is_external(users, account, j),
            decreases self.users@.len() - i,
        {
            if let Credential::External(id) = &self.users[i].credential {
                if *id == account {
                    return Some(i);
                }
            }
            i += 1;
        }
        None
    }

    /// Finds the user who stands for the profile's account, adding one where
    /// the account is not known yet, and returns the user's id. Resolving the
    /// same account again finds the same user.
    pub fn provision(&mut self, profile: ExternalProfile) -> (id: UserId)
        requires
            old(self)@.len() < u64::MAX,
        ensures
            final(self)@ == provisioned(old(self)@, profile@),
            is_external(final(self)@, profile.account_id, id - 1),
            final(self)@[id - 1].id == id,
            forall|i: int| is_external(final(self)@, profile.account_id, i) ==> i == id - 1,
    {
        proof {
            use_type_invariant(&*self);
        }
        let ghost before = user_views(self.users@);
        let at = match self.find_external(profile.account_id) {
            Some(i) => i,
            None => {
                let at = self.users.len();
                let user = User {
                    id: at as u64 + 1,
                    username: profile.login,
                    credential: Credential::External(profile.account_id),
                    access_token: None,
                };
                let mut users: Vec<User> = Vec::new();
                assert(user_views(users@) =~= Seq::<UserView>::empty());
                core::mem::swap(&mut self.users, &mut users);
                users.push(user);
                proof {
                    let after = user_views(users@);
                    assert(after =~= before.push(user@));
                    assert forall|i: int, j: int, account: u64|
                        is_external(after, account, i) && is_external(
                            after,
                            account,
                            j,
                        ) implies i == j by {
                        if i < before.len() {
                            assert(is_external(before, account, i));
                        }
                        if j < before.len() {
                            assert(is_external(before, account, j));
                        }
                    }
                }
                self.users = users;
                at
            },
        };
        proof {
            use_type_invariant(&*self);
            assert(is_external(self@, profile.account_id, at as int));
        }
        at as u64 + 1
    }

    /// Resolves the owner of an access token to a user. `profile` is what the
    /// provider's identity endpoint answered for the token, `None` where it
    /// rejected the token or could not be reached. A profile whose account is
    /// not known yet gets a new user; one that is known gets the user it
    /// has. The user returned carries the token; the backend keeps none.
    pub fn verify_oauth(&mut self, access_token: String, profile: Option<ExternalProfile>) -> (
        verified: Result<User, AuthError>
    )
        requires
            old(self)@.len() < u64::MAX,
        ensures
            match profile {
                None => {
                    &&& verified matches Err(e)
                    &&& e == AuthError::VerificationFailed
                    &&& final(self)@ == old(self)@
                },
                Some(p) => {
                    &&& verified matches Ok(u)
                    &&& final(self)@ == provisioned(old(self)@, p@)
                    &&& exists|i: int| #[trigger]
                        is_external(final(self)@, p.account_id, i) && u@ == (UserView {
                            access_token: Some(access_token@),
                            ..final(self)@[i]
                        })
                    &&& forall|i: int, j: int|
                        is_external(final(self)@, p.account_id, i) && is_external(
                            final(self)@,
                            p.account_id,
                            j,
                        ) ==> i == j
                },
            },
    {
        let profile = match profile {
            Some(p) => p,
            None => {
                return Err(AuthError::VerificationFailed);
            },
        };
        let ghost account = profile.account_id;
        let id = self.provision(profile);
        let count = self.users.len();
        assert(is_external(self@, account, id - 1) && id - 1 < count);
        let mut user = self.users[(id - 1) as usize].clone();
        user.access_token = Some(access_token);
        Ok(user)
    }

    /// Looks a user up by id, without verifying anything.
    pub fn load_user(&self, id: UserId) -> (found: Result<User, AuthError>)
        ensures
            match found {
                Ok(u) => spec_load_user(self@, id) == Ok::<UserView, AuthError>(u@),
                Err(e) => spec_load_user(self@, id) == Err::<UserView, AuthError>(e),
            },
            found matches Ok(u) ==> u.id == id && u.access_token is None,
    {
        proof {
            use_type_invariant(self);
        }
        if id >= 1 && id - 1 < self.users.len() as u64 {
            let at: usize = (id - 1) as usize;
            Ok(self.users[at].clone())
        } else {
            Err(AuthError::NotFound)
        }
    }
}

/// First-login provisioning is idempotent: once a profile's account has been
/// resolved, resolving the same account again adds no user, so exactly one
/// user stands for the account, whichever of two logins came first.
pub proof fn law_provisioning_is_idempotent(users: Seq<UserView>, p: ProfileView, q: ProfileView)
    requires
        well_formed(users),
        users.len() < u64::MAX,
        p.account_id == q.account_id,
    ensures
        provisioned(provisioned(users, p), q) == provisioned(users, p),
        well_formed(provisioned(users, p)),
        has_external(provisioned(users, p), p.account_id),
        forall|i: int, j: int|
            is_external(provisioned(users, p), p.account_id, i) && is_external(
                provisioned(users, p),
                p.account_id,
                j,
            ) ==> i == j,
{
    let after = provisioned(users, p);
    if !has_external(users, p.account_id) {
        assert(is_external(after, p.account_id, users.len() as int));
        assert forall|i: int, j: int, account: u64|
            is_external(after, account, i) && is_external(after, account, j) implies i == j by {
            if i < users.len() {
                assert(is_external(users, account, i));
            }
            if j < users.len() {
                assert(is_external(users, account, j));
            }
        }
    }
}

/// A user who was resolved from a profile can be looked up by the id that
/// the resolution gave.
pub proof fn law_provisioned_user_loads(users: Seq<UserView>, p: ProfileView, i: int)
    requires
        well_formed(users),
        users.len() < u64::MAX,
        is_external(provisioned(users, p), p.account_id, i),
    ensures
        spec_load_user(provisioned(users, p), provisioned(users, p)[i].id) == Ok::<
            UserView,
            AuthError,
        >(provisioned(users, p)[i]),
{
    law_provisioning_is_idempotent(users, p, p);
}

} // verus!
