//! The credential store and the identity/session state machine that runs on
//! it.
//!
//! `DatabaseController` holds the three collections the system persists —
//! user records, OAuth provider records and generic identity-allocation
//! objects — and owns every rule that reads or mutates them: registration,
//! email verification, login, token rotation and logout.  The remote
//! document store these collections mirror is a transport concern;
//! this type is the authoritative model of its contents, and uniqueness of
//! usernames, emails, provider names and object ids is kept as an invariant
//! (inserts reject duplicates instead of trusting an advisory pre-check).

use vstd::prelude::*;

use crate::configuration::{same_config, Configuration, OauthConfig};
use crate::errors::{AlreadyExistsError, DatabaseError, InvalidCredentialsError, NotFoundError};
use crate::gen::object_id_hex;
use crate::request::RequestData;
use crate::structures::{
    bcrypt_accepts, bcrypt_matches, AccessRecord, Object, User, Verified, CODE_LENGTH,
    SESSION_WINDOW_MILLIS, TOKEN_LENGTH, VERIFY_WINDOW_MILLIS,
};
use crate::strutil::{hex_digit_char, str_eq};
use crate::validate::{email_is_valid, valid_email};

verus! {

/// The view of an optional owned string.
pub open spec fn view_opt(s: Option<String>) -> Option<Seq<char>> {
    match s {
        Some(v) => Some(v@),
        None => None,
    }
}

/// Whether `u` is found by a lookup for `username`, optionally OR-matched
/// against `email` (the shape of the store's find-one filter).
pub open spec fn user_matches(u: User, username: Seq<char>, email: Option<Seq<char>>) -> bool {
    ||| u.username@ == username
    ||| (email matches Some(e) && u.email@ == e)
}

/// The first user record a lookup for `username` (OR `email`) returns.
pub open spec fn first_user_match(
    users: Seq<User>,
    username: Seq<char>,
    email: Option<Seq<char>>,
) -> Option<User>
    decreases users.len(),
{
    if users.len() == 0 {
        None
    } else if user_matches(users[0], username, email) {
        Some(users[0])
    } else {
        first_user_match(users.drop_first(), username, email)
    }
}

/// A lookup is decided by the entries after a prefix holding no match.
pub proof fn lemma_user_match_skip(
    users: Seq<User>,
    username: Seq<char>,
    email: Option<Seq<char>>,
    i: int,
)
    requires
        0 <= i <= users.len(),
        forall|j: int| 0 <= j < i ==> !user_matches(#[trigger] users[j], username, email),
    ensures
        first_user_match(users, username, email) == first_user_match(users.skip(i), username, email),
    decreases i,
{
    if i > 0 {
        assert(users.skip(1).skip(i - 1) =~= users.skip(i));
        lemma_user_match_skip(users.drop_first(), username, email, i - 1);
    } else {
        assert(users.skip(0) =~= users);
    }
}

/// A lookup comes back empty exactly when no record matches.
pub proof fn lemma_user_match_none(users: Seq<User>, username: Seq<char>, email: Option<Seq<char>>)
    ensures
        (first_user_match(users, username, email) is None) <==> (forall|i: int|
            0 <= i < users.len() ==> !user_matches(#[trigger] users[i], username, email)),
    decreases users.len(),
{
    if users.len() > 0 {
        lemma_user_match_none(users.drop_first(), username, email);
        assert(forall|i: int|
            1 <= i < users.len() ==> users.drop_first()[i - 1] == #[trigger] users[i]);
    }
}

/// A successful lookup returns a record of the store that matches.
pub proof fn lemma_user_match_found(
    users: Seq<User>,
    username: Seq<char>,
    email: Option<Seq<char>>,
)
    requires
        first_user_match(users, username, email) is Some,
    ensures
        exists|i: int|
            0 <= i < users.len() && users[i] == first_user_match(users, username, email)->0
                && user_matches(#[trigger] users[i], username, email),
    decreases users.len(),
{
    if users.len() > 0 {
        if user_matches(users[0], username, email) {
        } else {
            lemma_user_match_found(users.drop_first(), username, email);
            let i = choose|i: int|
                0 <= i < users.drop_first().len() && users.drop_first()[i] == first_user_match(
                    users.drop_first(),
                    username,
                    email,
                )->0 && user_matches(#[trigger] users.drop_first()[i], username, email);
            assert(users[i + 1] == users.drop_first()[i]);
        }
    }
}

/// After a pointwise update at `username`, a lookup for that name finds the
/// replacement record.
pub proof fn lemma_first_match_after_update(
    olds: Seq<User>,
    news: Seq<User>,
    username: Seq<char>,
    u2: User,
)
    requires
        updated_at_username(olds, news, username, u2),
        first_user_match(olds, username, None) is Some,
        u2.username@ == username,
    ensures
        first_user_match(news, username, None) == Some(u2),
    decreases olds.len(),
{
    if olds.len() > 0 {
        if olds[0].username@ == username {
            assert(news[0] == u2);
        } else {
            assert(news[0] == olds[0]);
            assert forall|j: int| 0 <= j < olds.drop_first().len() implies #[trigger] news.drop_first()[j]
                == (if olds.drop_first()[j].username@ == username {
                u2
            } else {
                olds.drop_first()[j]
            }) by {
                assert(news[j + 1] == (if olds[j + 1].username@ == username {
                    u2
                } else {
                    olds[j + 1]
                }));
            }
            lemma_first_match_after_update(olds.drop_first(), news.drop_first(), username, u2);
        }
    }
}

/// The first provider record bearing `name`.
pub open spec fn first_config_named(cfgs: Seq<OauthConfig>, name: Seq<char>) -> Option<OauthConfig>
    decreases cfgs.len(),
{
    if cfgs.len() == 0 {
        None
    } else if cfgs[0].name@ == name {
        Some(cfgs[0])
    } else {
        first_config_named(cfgs.drop_first(), name)
    }
}

/// A provider lookup is decided by the entries after a matchless prefix.
pub proof fn lemma_config_named_skip(cfgs: Seq<OauthConfig>, name: Seq<char>, i: int)
    requires
        0 <= i <= cfgs.len(),
        forall|j: int| 0 <= j < i ==> (#[trigger] cfgs[j]).name@ != name,
    ensures
        first_config_named(cfgs, name) == first_config_named(cfgs.skip(i), name),
    decreases i,
{
    if i > 0 {
        assert(cfgs.skip(1).skip(i - 1) =~= cfgs.skip(i));
        lemma_config_named_skip(cfgs.drop_first(), name, i - 1);
    } else {
        assert(cfgs.skip(0) =~= cfgs);
    }
}

/// Whether some object record already carries `id`.
pub open spec fn has_object_id(objects: Seq<Object>, id: Seq<char>) -> bool {
    exists|i: int| 0 <= i < objects.len() && (#[trigger] objects[i]).id@ == id
}

/// No two user records share a username or an email address.
pub open spec fn users_distinct(users: Seq<User>) -> bool {
    forall|i: int, j: int|
        #![trigger users[i], users[j]]
        0 <= i < j < users.len() ==> users[i].username@ != users[j].username@ && users[i].email@
            != users[j].email@
}

/// Every stored user record is well formed.
pub open spec fn users_wf(users: Seq<User>) -> bool {
    forall|i: int| 0 <= i < users.len() ==> (#[trigger] users[i]).wf()
}

/// No two provider records share a name.
pub open spec fn configs_distinct(cfgs: Seq<OauthConfig>) -> bool {
    forall|i: int, j: int|
        #![trigger cfgs[i], cfgs[j]]
        0 <= i < j < cfgs.len() ==> cfgs[i].name@ != cfgs[j].name@
}

/// No two object records share an id.
pub open spec fn objects_distinct(objects: Seq<Object>) -> bool {
    forall|i: int, j: int|
        #![trigger objects[i], objects[j]]
        0 <= i < j < objects.len() ==> objects[i].id@ != objects[j].id@
}

/// Whether a verification attempt is accepted: the user exists and presents
/// the exact token/code pair before its expiry.
pub open spec fn verify_accepted(
    s: DatabaseController,
    username: Seq<char>,
    token: Seq<char>,
    code: Seq<char>,
    now: u64,
) -> bool {
    first_user_match(s.users@, username, None) matches Some(u) && Verified::spec_verify(
        u.verify->0,
        token,
        code,
        now,
    )
}

/// Whether a login is accepted: the user exists, the password matches the
/// stored hash, and the account is verified.
pub open spec fn login_accepted(
    s: DatabaseController,
    username: Seq<char>,
    password: Seq<char>,
) -> bool {
    first_user_match(s.users@, username, None) matches Some(u) && bcrypt_matches(
        password,
        u.password@,
    ) && u.verify->0.verified
}

/// Whether a login at time `now` reuses the stored session: one is attached
/// and has not yet expired.
pub open spec fn login_reuses(s: DatabaseController, username: Seq<char>, now: u64) -> bool {
    match first_user_match(s.users@, username, None) {
        Some(u) => match u.access_record {
            Some(rec) => now < rec.expires,
            None => false,
        },
        None => false,
    }
}

/// Whether a refresh-token exchange is accepted: the user exists, a session
/// is attached, and both presented tokens equal the stored pair exactly.
pub open spec fn exchange_accepted(
    s: DatabaseController,
    username: Seq<char>,
    access_token: Seq<char>,
    refresh_token: Seq<char>,
) -> bool {
    match first_user_match(s.users@, username, None) {
        Some(u) => match u.access_record {
            Some(rec) => rec.access_token@ == access_token && match rec.refresh_token {
                Some(rt) => rt@ == refresh_token,
                None => false,
            },
            None => false,
        },
        None => false,
    }
}

/// Whether a logout is accepted: the user exists, a session is attached and
/// the presented access token equals the stored one exactly.
pub open spec fn logout_accepted(
    s: DatabaseController,
    username: Seq<char>,
    access_token: Seq<char>,
) -> bool {
    first_user_match(s.users@, username, None) matches Some(u) && u.access_record matches Some(rec)
        && rec.access_token@ == access_token
}

/// Whether a registration request carries all three required fields.
pub open spec fn register_fields_present(data: RequestData) -> bool {
    &&& data.spec_get("password"@) is Some
    &&& data.spec_get("username"@) is Some
    &&& data.spec_get("email"@) is Some
}

/// Whether a registration is accepted: required fields present, the email
/// address syntactically valid, and neither username nor email taken.
pub open spec fn register_accepted(s: DatabaseController, data: RequestData) -> bool {
    &&& register_fields_present(data)
    &&& valid_email(data.spec_get("email"@)->0)
    &&& first_user_match(
        s.users@,
        data.spec_get("username"@)->0,
        Some(data.spec_get("email"@)->0),
    ) is None
}

/// The user collection after the record bearing `username` is replaced by
/// `u2`; every other record is untouched.  When no record bears the name,
/// this says the collection is unchanged.
pub open spec fn updated_at_username(
    olds: Seq<User>,
    news: Seq<User>,
    username: Seq<char>,
    u2: User,
) -> bool {
    &&& news.len() == olds.len()
    &&& forall|j: int|
        #![trigger news[j]]
        0 <= j < olds.len() ==> news[j] == (if olds[j].username@ == username {
            u2
        } else {
            olds[j]
        })
}

/// Typed access to the persisted collections, and the rules that govern
/// them.
pub struct DatabaseController {
    pub users: Vec<User>,
    pub oauth_records: Vec<OauthConfig>,
    pub objects: Vec<Object>,
}

impl DatabaseController {
    /// The store invariant: usernames, emails, provider names and object
    /// ids are each unique across their collection, and every user record
    /// is well formed.
    pub open spec fn wf(self) -> bool {
        &&& users_distinct(self.users@)
        &&& users_wf(self.users@)
        &&& configs_distinct(self.oauth_records@)
        &&& objects_distinct(self.objects@)
    }

    /// An empty store.
    pub fn new() -> (r: DatabaseController)
        ensures
            r.wf(),
            r.users@.len() == 0,
            r.oauth_records@.len() == 0,
            r.objects@.len() == 0,
    {
        DatabaseController { users: Vec::new(), oauth_records: Vec::new(), objects: Vec::new() }
    }

    /// Whether any user record exists at all.
    pub fn has_any_user(&self) -> (r: bool)
        ensures
            r == (self.users@.len() > 0),
    {
        self.users.len() > 0
    }

    /// Find the first user record matching `username`, or — when an email is
    /// given — matching the username or that email (the OR-filter used by
    /// the registration uniqueness check).  A miss is reported as
    /// `NotFoundError`, never as an empty success.
    pub fn find_user(&self, username: &str, email: Option<String>) -> (r: Result<
        User,
        DatabaseError,
    >)
        requires
            self.wf(),
        ensures
            match r {
                Ok(u) => first_user_match(self.users@, username@, view_opt(email)) == Some(u)
                    && u.wf(),
                Err(e) => first_user_match(self.users@, username@, view_opt(email)) is None && (
                e matches DatabaseError::NotFoundError(ne) && (ne.details@ == username@
                    + " was not found"@ && ne.code == 2)),
            },
    {
        let ghost espec = view_opt(email);
        let n = self.users.len();
        let mut i: usize = 0;
        while i < n
            invariant
                n == self.users@.len(),
                0 <= i <= n,
                espec == view_opt(email),
                self.wf(),
                forall|j: int| 0 <= j < i ==> !user_matches(#[trigger] self.users@[j], username@, espec),
            decreases n - i,
        {
            let u = &self.users[i];
            let by_name = str_eq(u.username.as_str(), username);
            let by_email = match &email {
                Some(e) => str_eq(u.email.as_str(), e.as_str()),
                None => false,
            };
            if by_name || by_email {
                proof {
                    lemma_user_match_skip(self.users@, username@, espec, i as int);
                    assert(self.users@.skip(i as int)[0] == self.users@[i as int]);
                }
                return Ok(self.users[i].clone());
            }
            i = i + 1;
        }
        proof {
            lemma_user_match_skip(self.users@, username@, espec, n as int);
        }
        Err(
            DatabaseError::NotFoundError(
                NotFoundError::new(username.to_owned().concat(" was not found").as_str()),
            ),
        )
    }

    /// The registration existence check: does any record already carry this
    /// username or email address?
    pub fn user_exists(&self, username: &str, email: &str) -> (r: Result<User, DatabaseError>)
        requires
            self.wf(),
        ensures
            match r {
                Ok(u) => first_user_match(self.users@, username@, Some(email@)) == Some(u) && u.wf(),
                Err(e) => first_user_match(self.users@, username@, Some(email@)) is None && (
                e matches DatabaseError::NotFoundError(ne) && (ne.details@ == username@
                    + " was not found"@ && ne.code == 2)),
            },
    {
        self.find_user(username, Some(email.to_owned()))
    }

    /// Allocate a fresh object id: the 24-character hex form of a newly
    /// minted store identifier.
    pub fn generate_object_id() -> (r: Result<String, DatabaseError>)
        ensures
            r matches Ok(id) && id@.len() == 24,
            r matches Ok(id) ==> forall|i: int|
                0 <= i < id@.len() ==> hex_digit_char(#[trigger] id@[i]),
    {
        Ok(object_id_hex())
    }

    /// Fetch the stored provider record bearing `name`.
    pub fn get_oauth_record(&self, name: String) -> (r: Result<OauthConfig, DatabaseError>)
        ensures
            match r {
                Ok(c) => first_config_named(self.oauth_records@, name@) matches Some(c0)
                    && same_config(c, c0),
                Err(e) => first_config_named(self.oauth_records@, name@) is None && (
                e matches DatabaseError::NotFoundError(ne) && (ne.details@ == "Oauth config for "@
                    + name@ + " was not found"@ && ne.code == 2)),
            },
    {
        let n = self.oauth_records.len();
        let mut i: usize = 0;
        while i < n
            invariant
                n == self.oauth_records@.len(),
                0 <= i <= n,
                forall|j: int| 0 <= j < i ==> (#[trigger] self.oauth_records@[j]).name@ != name@,
            decreases n - i,
        {
            if str_eq(self.oauth_records[i].name.as_str(), name.as_str()) {
                proof {
                    lemma_config_named_skip(self.oauth_records@, name@, i as int);
                    assert(self.oauth_records@.skip(i as int)[0] == self.oauth_records@[i as int]);
                }
                return Ok(self.oauth_records[i].clone());
            }
            i = i + 1;
        }
        proof {
            lemma_config_named_skip(self.oauth_records@, name@, n as int);
        }
        let detail = "Oauth config for ".to_owned().concat(name.as_str()).concat(" was not found");
        Err(DatabaseError::NotFoundError(NotFoundError::new(detail.as_str())))
    }

    /// The session record currently attached to `username`: an absent user
    /// and an absent record are both reported as `NotFoundError`, told apart
    /// by the detail text.
    pub fn get_acccess_record(&self, username: String) -> (r: Result<
        Option<AccessRecord>,
        DatabaseError,
    >)
        requires
            self.wf(),
        ensures
            match r {
                Ok(o) => o matches Some(rec) && (first_user_match(
                    self.users@,
                    username@,
                    None,
                ) matches Some(u) && u.access_record == Some(rec)),
                Err(e) => (e matches DatabaseError::NotFoundError(ne) && ne.code == 2)
                    && match first_user_match(
                    self.users@,
                    username@,
                    None,
                ) {
                    Some(u) => u.access_record is None,
                    None => true,
                },
            },
    {
        match self.find_user(username.as_str(), None) {
            Ok(user) => {
                match user.access_record {
                    Some(rec) => Ok(Some(rec)),
                    None => Err(
                        DatabaseError::NotFoundError(
                            NotFoundError::new("User access record doesn't exist was not found!"),
                        ),
                    ),
                }
            },
            Err(e) => Err(e),
        }
    }

    /// Replace the record bearing `username` with `user` wholesale.  The
    /// caller must hand back a record that keeps the store's uniqueness
    /// guarantees: same username, and the email the stored record already
    /// carries.  A missing record is not an error (the underlying update is
    /// fire-and-confirm): the store is simply left unchanged.
    pub fn update_user(&mut self, username: String, user: User) -> (r: Result<
        Option<User>,
        DatabaseError,
    >)
        requires
            old(self).wf(),
            user.wf(),
            user.username@ == username@,
            forall|j: int|
                0 <= j < old(self).users@.len() && (#[trigger] old(self).users@[j]).username@
                    == username@ ==> old(self).users@[j].email@ == user.email@,
        ensures
            final(self).wf(),
            final(self).oauth_records == old(self).oauth_records,
            final(self).objects == old(self).objects,
            updated_at_username(old(self).users@, final(self).users@, username@, user),
            r matches Ok(o) && o matches Some(u2) && u2 == user,
    {
        let ghost olds = self.users@;
        let ret = user.clone();
        let n = self.users.len();
        let mut i: usize = 0;
        while i < n
            invariant
                n == olds.len(),
                self.users@ == olds,
                self.oauth_records == old(self).oauth_records,
                self.objects == old(self).objects,
                old(self).users@ == olds,
                old(self).wf(),
                user.wf(),
                ret == user,
                user.username@ == username@,
                forall|j: int|
                    0 <= j < olds.len() && (#[trigger] olds[j]).username@ == username@
                        ==> olds[j].email@ == user.email@,
                0 <= i <= n,
                forall|j: int| 0 <= j < i ==> (#[trigger] olds[j]).username@ != username@,
            decreases n - i,
        {
            if str_eq(self.users[i].username.as_str(), username.as_str()) {
                self.users[i] = user;
                proof {
                    assert(self.users@ == olds.update(i as int, user));
                    assert forall|a: int, b: int|
                        #![trigger self.users@[a], self.users@[b]]
                        0 <= a < b < self.users@.len() implies self.users@[a].username@
                        != self.users@[b].username@ && self.users@[a].email@
                        != self.users@[b].email@ by {
                        assert(olds[a].username@ != olds[b].username@);
                        assert(olds[a].email@ != olds[b].email@);
                        assert(olds[i as int].username@ == username@);
                        assert(olds[i as int].email@ == user.email@);
                    }
                }
                return Ok(Some(ret));
            }
            i = i + 1;
        }
        Ok(Some(ret))
    }

    /// Attach `record` (or clear it, with `None`) on `user`'s stored record.
    pub fn update_access_record(&mut self, user: User, record: Option<AccessRecord>) -> (r: Result<
        Option<AccessRecord>,
        DatabaseError,
    >)
        requires
            old(self).wf(),
            user.wf(),
            match record {
                Some(rec) => rec.refresh_token is Some,
                None => true,
            },
            forall|j: int|
                0 <= j < old(self).users@.len() && (#[trigger] old(self).users@[j]).username@
                    == user.username@ ==> old(self).users@[j].email@ == user.email@,
        ensures
            final(self).wf(),
            final(self).oauth_records == old(self).oauth_records,
            final(self).objects == old(self).objects,
            updated_at_username(
                old(self).users@,
                final(self).users@,
                user.username@,
                (User { access_record: record, ..user }),
            ),
            r matches Ok(o) && o == record,
    {
        let ret = match &record {
            Some(rec) => Some(rec.clone()),
            None => None,
        };
        let mut u2 = user;
        u2.access_record = record;
        let username = u2.username.clone();
        match self.update_user(username, u2) {
            Ok(_us) => Ok(ret),
            Err(e) => Err(e),
        }
    }

    /// Attach a freshly minted session record on `user`'s stored record and
    /// hand it back.
    pub fn add_access_record(&mut self, user: User, data: Option<AccessRecord>) -> (r: Result<
        Option<AccessRecord>,
        DatabaseError,
    >)
        requires
            old(self).wf(),
            user.wf(),
            data is Some,
            data->0.refresh_token is Some,
            forall|j: int|
                0 <= j < old(self).users@.len() && (#[trigger] old(self).users@[j]).username@
                    == user.username@ ==> old(self).users@[j].email@ == user.email@,
        ensures
            final(self).wf(),
            final(self).oauth_records == old(self).oauth_records,
            final(self).objects == old(self).objects,
            updated_at_username(
                old(self).users@,
                final(self).users@,
                user.username@,
                (User { access_record: data, ..user }),
            ),
            r matches Ok(o) && o == data,
    {
        self.update_access_record(user, data)
    }

    /// Allocate a fresh object record of the given type at time `now`, and
    /// return its id.  The store's id-uniqueness guarantee is authoritative:
    /// in the astronomically unlikely event that the freshly minted id
    /// already exists, the insert is refused and nothing changes.
    pub fn add_object(&mut self, the_type: &str, now: u64) -> (r: Result<
        Option<String>,
        DatabaseError,
    >)
        requires
            old(self).wf(),
        ensures
            final(self).wf(),
            final(self).users == old(self).users,
            final(self).oauth_records == old(self).oauth_records,
            match r {
                Ok(o) => {
                    &&& o matches Some(id)
                    &&& id@.len() == 24
                    &&& (forall|i: int| 0 <= i < id@.len() ==> hex_digit_char(#[trigger] id@[i]))
                    &&& !has_object_id(old(self).objects@, id@)
                    &&& final(self).objects@.len() == old(self).objects@.len() + 1
                    &&& final(self).objects@ == old(self).objects@.push(
                        final(self).objects@.last(),
                    )
                    &&& final(self).objects@.last().id@ == id@
                    &&& final(self).objects@.last().creation_time == now
                    &&& final(self).objects@.last().the_type@ == the_type@
                },
                Err(e) => {
                    &&& e matches DatabaseError::StoreFailure(msg) && msg@
                        == "a freshly allocated object id collided"@
                    &&& *final(self) == *old(self)
                    &&& old(self).objects@.len() > 0
                },
            },
    {
        let id = object_id_hex();
        let n = self.objects.len();
        let mut i: usize = 0;
        while i < n
            invariant
                n == self.objects@.len(),
                0 <= i <= n,
                *self == *old(self),
                old(self).wf(),
                forall|j: int| 0 <= j < i ==> (#[trigger] self.objects@[j]).id@ != id@,
            decreases n - i,
        {
            if str_eq(self.objects[i].id.as_str(), id.as_str()) {
                return Err(
                    DatabaseError::StoreFailure("a freshly allocated object id collided".to_owned()),
                );
            }
            i = i + 1;
        }
        let obj = Object { id: id.clone(), creation_time: now, the_type: the_type.to_owned() };
        self.objects.push(obj);
        Ok(Some(id))
    }

    /// Persist a provider record: allocate its object id, stamp it into the
    /// record and insert it.  At most one record may exist per provider
    /// name, and a second insert is refused as `AlreadyExistsError`.
    pub fn add_oauth_record(&mut self, oauth: OauthConfig, now: u64) -> (r: Result<
        Option<String>,
        DatabaseError,
    >)
        requires
            old(self).wf(),
        ensures
            final(self).wf(),
            final(self).users == old(self).users,
            match r {
                Ok(o) => {
                    &&& o matches Some(id)
                    &&& id@.len() == 24
                    &&& first_config_named(old(self).oauth_records@, oauth.name@) is None
                    &&& final(self).oauth_records@.len() == old(self).oauth_records@.len() + 1
                    &&& final(self).oauth_records@ == old(self).oauth_records@.push(
                        final(self).oauth_records@.last(),
                    )
                    &&& final(self).oauth_records@.last() == (OauthConfig { id: Some(id), ..oauth })
                    &&& final(self).objects@.len() == old(self).objects@.len() + 1
                    &&& final(self).objects@ == old(self).objects@.push(final(self).objects@.last())
                    &&& final(self).objects@.last().id@ == id@
                    &&& final(self).objects@.last().creation_time == now
                    &&& final(self).objects@.last().the_type@ == "oauth"@
                },
                Err(e) => *final(self) == *old(self) && match e {
                    DatabaseError::AlreadyExistsError(ae) => first_config_named(
                        old(self).oauth_records@,
                        oauth.name@,
                    ) is Some && ae.code == 3,
                    DatabaseError::StoreFailure(msg) => msg@
                        == "a freshly allocated object id collided"@ && old(
                        self,
                    ).objects@.len() > 0,
                    _ => false,
                },
            },
    {
        let n = self.oauth_records.len();
        let mut i: usize = 0;
        while i < n
            invariant
                n == self.oauth_records@.len(),
                0 <= i <= n,
                *self == *old(self),
                old(self).wf(),
                forall|j: int|
                    0 <= j < i ==> (#[trigger] self.oauth_records@[j]).name@ != oauth.name@,
            decreases n - i,
        {
            if str_eq(self.oauth_records[i].name.as_str(), oauth.name.as_str()) {
                proof {
                    lemma_config_named_skip(self.oauth_records@, oauth.name@, i as int);
                    assert(self.oauth_records@.skip(i as int)[0] == self.oauth_records@[i as int]);
                }
                return Err(
                    DatabaseError::AlreadyExistsError(
                        AlreadyExistsError::new("There is already an OAuth record for that provider"),
                    ),
                );
            }
            i = i + 1;
        }
        proof {
            lemma_config_named_skip(self.oauth_records@, oauth.name@, n as int);
        }
        match self.add_object("oauth", now) {
            Ok(idopt) => {
                let id = match idopt {
                    Some(id) => id,
                    None => {
                        return Err(
                            DatabaseError::StoreFailure("no object id was allocated".to_owned()),
                        );
                    },
                };
                let mut o2 = oauth;
                o2.id = Some(id.clone());
                self.oauth_records.push(o2);
                Ok(Some(id))
            },
            Err(e) => Err(e),
        }
    }

    /// Insert a brand-new user record, hashing the plaintext password.  The
    /// insert is atomic insert-if-absent: a colliding username or email is
    /// refused as `AlreadyExistsError` (telling the two apart in the detail
    /// text), and that refusal is the authoritative duplicate signal.
    pub fn add_user(
        &mut self,
        id: String,
        username: String,
        password: String,
        email: String,
        access_level: String,
        verified: Verified,
        first_name: Option<String>,
        last_name: Option<String>,
        address: Option<String>,
        phone_number: Option<String>,
    ) -> (r: Result<Option<User>, DatabaseError>)
        requires
            old(self).wf(),
            verified.verified == false,
        ensures
            final(self).wf(),
            final(self).oauth_records == old(self).oauth_records,
            final(self).objects == old(self).objects,
            match r {
                Ok(o) => {
                    &&& o matches Some(u)
                    &&& first_user_match(old(self).users@, username@, Some(email@)) is None
                    &&& u.id == id
                    &&& u.username == username
                    &&& bcrypt_accepts(u.password@)
                    &&& bcrypt_matches(password@, u.password@)
                    &&& u.email == email
                    &&& u.access_level == access_level
                    &&& u.verify == Some(verified)
                    &&& u.access_record is None
                    &&& u.first_name == first_name
                    &&& u.last_name == last_name
                    &&& u.address == address
                    &&& u.phone_number == phone_number
                    &&& final(self).users@ == old(self).users@.push(u)
                },
                Err(e) => *final(self) == *old(self) && match e {
                    DatabaseError::AlreadyExistsError(ae) => {
                        &&& first_user_match(
                            old(self).users@,
                            username@,
                            Some(email@),
                        ) matches Some(m)
                        &&& ae.details@ == (if m.username@ == username@ {
                            "There is already someone wth that username"@
                        } else {
                            "There is already an account with that email address"@
                        })
                        &&& ae.code == 3
                    },
                    DatabaseError::HashingFailure(msg) => first_user_match(
                        old(self).users@,
                        username@,
                        Some(email@),
                    ) is None && msg@ == "the password could not be hashed"@,
                    _ => false,
                },
            },
    {
        match self.user_exists(username.as_str(), email.as_str()) {
            Ok(existing) => {
                if str_eq(existing.username.as_str(), username.as_str()) {
                    return Err(
                        DatabaseError::AlreadyExistsError(
                            AlreadyExistsError::new("There is already someone wth that username"),
                        ),
                    );
                } else {
                    return Err(
                        DatabaseError::AlreadyExistsError(
                            AlreadyExistsError::new(
                                "There is already an account with that email address",
                            ),
                        ),
                    );
                }
            },
            Err(_missing) => {},
        }
        proof {
            lemma_user_match_none(self.users@, username@, Some(email@));
        }
        match User::new(
            id,
            username,
            password,
            email,
            access_level,
            Some(verified),
            first_name,
            last_name,
            address,
            phone_number,
        ) {
            Ok(user) => {
                let ret = user.clone();
                proof {
                    assert forall|a: int, b: int|
                        #![trigger self.users@.push(user)[a], self.users@.push(user)[b]]
                        0 <= a < b < self.users@.push(user).len() implies self.users@.push(
                        user,
                    )[a].username@ != self.users@.push(user)[b].username@ && self.users@.push(
                        user,
                    )[a].email@ != self.users@.push(user)[b].email@ by {
                        if b == self.users@.len() {
                            assert(!user_matches(self.users@[a], user.username@, Some(user.email@)));
                        }
                    }
                }
                self.users.push(user);
                Ok(Some(ret))
            },
            Err(_e) => Err(DatabaseError::HashingFailure("the password could not be hashed".to_owned())),
        }
    }

    /// The verification step of the lifecycle.  Exactly when the presented
    /// token/code pair matches and the pair has not expired, the record is
    /// stamped `verified` with the verification time.  Re-verifying an
    /// already-verified account with a still-valid pair succeeds
    /// idempotently and leaves the record untouched.  A failed check does
    /// not reveal which of the token, the code or the expiry was at fault.
    pub fn verify_user(
        &mut self,
        username: String,
        verify_token: String,
        verify_code: String,
        now: u64,
    ) -> (r: Result<User, DatabaseError>)
        requires
            old(self).wf(),
        ensures
            final(self).wf(),
            final(self).oauth_records == old(self).oauth_records,
            final(self).objects == old(self).objects,
            match r {
                Ok(u2) => {
                    &&& verify_accepted(*old(self), username@, verify_token@, verify_code@, now)
                    &&& first_user_match(old(self).users@, username@, None) matches Some(u0) && (
                    if u0.verify->0.verified {
                        u2 == u0 && *final(self) == *old(self)
                    } else {
                        u2 == (User {
                            verify: Some(
                                (Verified {
                                    verified: true,
                                    verify_time: Some(now),
                                    ..u0.verify->0
                                }),
                            ),
                            ..u0
                        }) && updated_at_username(
                            old(self).users@,
                            final(self).users@,
                            username@,
                            u2,
                        )
                    })
                },
                Err(e) => *final(self) == *old(self) && match e {
                    DatabaseError::NotFoundError(ne) => first_user_match(
                        old(self).users@,
                        username@,
                        None,
                    ) is None && (ne.details@ == username@ + " was not found"@ && ne.code == 2),
                    DatabaseError::InvalidCredentialsError(ic) => {
                        &&& first_user_match(old(self).users@, username@, None) is Some
                        &&& !verify_accepted(
                            *old(self),
                            username@,
                            verify_token@,
                            verify_code@,
                            now,
                        )
                        &&& ic.details@ == "Invalid verify credentials"@
                        &&& ic.code == 1
                    },
                    _ => false,
                },
            },
    {
        let user = match self.find_user(username.as_str(), None) {
            Ok(u) => u,
            Err(e) => {
                return Err(e);
            },
        };
        proof {
            lemma_user_match_found(self.users@, username@, None);
        }
        if Verified::verify(&user, verify_token, verify_code, now) {
            let already = user.verify.as_ref().unwrap().verified;
            if already {
                Ok(user)
            } else {
                let mut v2 = user.verify.as_ref().unwrap().clone();
                v2.verified = true;
                v2.verify_time = Some(now);
                let mut u2 = user;
                u2.verify = Some(v2);
                let ret = u2.clone();
                let uname = u2.username.clone();
                match self.update_user(uname, u2) {
                    Ok(_us) => Ok(ret),
                    Err(e) => Err(e),
                }
            }
        } else {
            Err(
                DatabaseError::InvalidCredentialsError(
                    InvalidCredentialsError::new("Invalid verify credentials"),
                ),
            )
        }
    }

    /// End the session: exactly when the presented access token equals the
    /// stored one, the session record is cleared (the session becomes
    /// absent, not expired).  A token mismatch is `NotFoundError`; an absent
    /// session is `InvalidCredentialsError`.
    pub fn logout(&mut self, username: String, access_token: String) -> (r: Result<
        bool,
        DatabaseError,
    >)
        requires
            old(self).wf(),
        ensures
            final(self).wf(),
            final(self).oauth_records == old(self).oauth_records,
            final(self).objects == old(self).objects,
            match r {
                Ok(b) => {
                    &&& b == true
                    &&& logout_accepted(*old(self), username@, access_token@)
                    &&& first_user_match(old(self).users@, username@, None) matches Some(u0)
                        && updated_at_username(
                        old(self).users@,
                        final(self).users@,
                        username@,
                        (User { access_record: None, ..u0 }),
                    )
                },
                Err(e) => *final(self) == *old(self) && match e {
                    DatabaseError::NotFoundError(ne) => ne.code == 2 && match first_user_match(
                        old(self).users@,
                        username@,
                        None,
                    ) {
                        None => ne.details@ == username@ + " was not found"@,
                        Some(u0) => {
                            &&& u0.access_record matches Some(rec)
                            &&& rec.access_token@ != access_token@
                            &&& ne.details@ == username@ + " has no access record please login"@
                        },
                    },
                    DatabaseError::InvalidCredentialsError(ic) => {
                        &&& first_user_match(old(self).users@, username@, None) matches Some(u0)
                        &&& u0.access_record is None
                        &&& ic.details@ == "Invalid username or access token"@
                        &&& ic.code == 1
                    },
                    _ => false,
                },
            },
    {
        let user = match self.find_user(username.as_str(), None) {
            Ok(u) => u,
            Err(e) => {
                return Err(e);
            },
        };
        proof {
            lemma_user_match_found(self.users@, username@, None);
        }
        if user.access_record.is_some() {
            let token_matches = str_eq(
                user.access_record.as_ref().unwrap().access_token.as_str(),
                access_token.as_str(),
            );
            if token_matches {
                match self.update_access_record(user, None) {
                    Ok(_acc) => Ok(true),
                    Err(e) => Err(e),
                }
            } else {
                Err(
                    DatabaseError::NotFoundError(
                        NotFoundError::new(
                            username.concat(" has no access record please login").as_str(),
                        ),
                    ),
                )
            }
        } else {
            Err(
                DatabaseError::InvalidCredentialsError(
                    InvalidCredentialsError::new("Invalid username or access token"),
                ),
            )
        }
    }

    /// Rotate the session: exactly when both presented tokens equal the
    /// stored pair, a brand-new record replaces it — both tokens rotate
    /// together, and the old pair is immediately invalid.  Every failure,
    /// including an absent user or session, is `NotFoundError`, so a caller
    /// cannot tell an expired pair from a wrong one.
    pub fn exchange_refresh_token(
        &mut self,
        access_token: String,
        refresh_token: String,
        username: String,
        now: u64,
    ) -> (r: Result<Option<AccessRecord>, DatabaseError>)
        requires
            old(self).wf(),
            now + SESSION_WINDOW_MILLIS <= u64::MAX,
        ensures
            final(self).wf(),
            final(self).oauth_records == old(self).oauth_records,
            final(self).objects == old(self).objects,
            match r {
                Ok(o) => {
                    &&& exchange_accepted(*old(self), username@, access_token@, refresh_token@)
                    &&& o matches Some(rec)
                    &&& first_user_match(old(self).users@, username@, None) matches Some(u0) && {
                        &&& rec.user_id == u0.id
                        &&& rec.creation_time == now
                        &&& rec.expires == now + SESSION_WINDOW_MILLIS
                        &&& rec.access_token@.len() == TOKEN_LENGTH
                        &&& rec.refresh_token is Some
                        &&& rec.refresh_token->0@.len() == TOKEN_LENGTH
                        &&& updated_at_username(
                            old(self).users@,
                            final(self).users@,
                            username@,
                            (User { access_record: Some(rec), ..u0 }),
                        )
                    }
                },
                Err(e) => *final(self) == *old(self) && match e {
                    DatabaseError::NotFoundError(ne) => !exchange_accepted(
                        *old(self),
                        username@,
                        access_token@,
                        refresh_token@,
                    ) && ne.code == 2 && ne.details@ == (match first_user_match(
                        old(self).users@,
                        username@,
                        None,
                    ) {
                        None => username@ + " was not found"@,
                        Some(_) => "The specified access token was not found!"@,
                    }),
                    _ => false,
                },
            },
    {
        let user = match self.find_user(username.as_str(), None) {
            Ok(u) => u,
            Err(e) => {
                return Err(e);
            },
        };
        proof {
            lemma_user_match_found(self.users@, username@, None);
        }
        let pair_matches = match &user.access_record {
            Some(rec) => {
                let at_ok = str_eq(rec.access_token.as_str(), access_token.as_str());
                let rt_ok = match &rec.refresh_token {
                    Some(t) => str_eq(t.as_str(), refresh_token.as_str()),
                    None => false,
                };
                at_ok && rt_ok
            },
            None => false,
        };
        if pair_matches {
            let fresh = AccessRecord::new(user.id.clone(), now);
            self.update_access_record(user, Some(fresh))
        } else {
            Err(
                DatabaseError::NotFoundError(
                    NotFoundError::new("The specified access token was not found!"),
                ),
            )
        }
    }

    /// Authenticate and hand out a session.  The password is checked first;
    /// only a correct password on an unverified account yields the distinct
    /// "not verified" failure.  A still-fresh stored session is returned
    /// unchanged (re-login inside the window is idempotent); otherwise a
    /// brand-new record is minted and persisted, discarding any stale one.
    pub fn login_user(&mut self, data: &RequestData, now: u64) -> (r: Result<
        Option<AccessRecord>,
        DatabaseError,
    >)
        requires
            old(self).wf(),
            now + SESSION_WINDOW_MILLIS <= u64::MAX,
        ensures
            final(self).wf(),
            final(self).oauth_records == old(self).oauth_records,
            final(self).objects == old(self).objects,
            ({
                let uopt = data.spec_get("username"@);
                let popt = data.spec_get("password"@);
                match r {
                    Ok(o) => {
                        &&& uopt is Some
                        &&& popt is Some
                        &&& login_accepted(*old(self), uopt->0, popt->0)
                        &&& o matches Some(rec)
                        &&& first_user_match(old(self).users@, uopt->0, None) matches Some(u0) && (
                        if login_reuses(*old(self), uopt->0, now) {
                            Some(rec) == u0.access_record && *final(self) == *old(self)
                        } else {
                            &&& rec.user_id == u0.id
                            &&& rec.creation_time == now
                            &&& rec.expires == now + SESSION_WINDOW_MILLIS
                            &&& rec.access_token@.len() == TOKEN_LENGTH
                            &&& rec.refresh_token is Some
                            &&& rec.refresh_token->0@.len() == TOKEN_LENGTH
                            &&& updated_at_username(
                                old(self).users@,
                                final(self).users@,
                                uopt->0,
                                (User { access_record: Some(rec), ..u0 }),
                            )
                        })
                    },
                    Err(e) => *final(self) == *old(self) && match e {
                        DatabaseError::InvalidCredentialsError(ic) => ic.code == 1 && {
                            ||| (uopt is None && ic.details@ == "Missing username field"@)
                            ||| (uopt is Some && popt is None && ic.details@
                                == "Missing password field"@)
                            ||| (uopt is Some && popt is Some && match first_user_match(
                                old(self).users@,
                                uopt->0,
                                None,
                            ) {
                                Some(u0) => if !bcrypt_matches(popt->0, u0.password@) {
                                    ic.details@ == "Invalid Passoword"@
                                } else {
                                    !u0.verify->0.verified && ic.details@
                                        == "Account has not yet been verified"@
                                },
                                None => false,
                            })
                        },
                        DatabaseError::NotFoundError(ne) => {
                            &&& uopt is Some
                            &&& popt is Some
                            &&& first_user_match(old(self).users@, uopt->0, None) is None
                            &&& ne.details@ == uopt->0 + " was not found"@
                            &&& ne.code == 2
                        },
                        _ => false,
                    },
                }
            }),
    {
        let username = match data.get("username") {
            Some(u) => u.clone(),
            None => {
                return Err(
                    DatabaseError::InvalidCredentialsError(
                        InvalidCredentialsError::new("Missing username field"),
                    ),
                );
            },
        };
        let password = match data.get("password") {
            Some(p) => p.clone(),
            None => {
                return Err(
                    DatabaseError::InvalidCredentialsError(
                        InvalidCredentialsError::new("Missing password field"),
                    ),
                );
            },
        };
        let user = match self.find_user(username.as_str(), None) {
            Ok(u) => u,
            Err(e) => {
                return Err(e);
            },
        };
        proof {
            lemma_user_match_found(self.users@, username@, None);
        }
        let pw_ok = match User::verify_pw(password, user.password.clone()) {
            Ok(b) => b,
            Err(_e) => {
                return Err(
                    DatabaseError::HashingFailure("the stored hash could not be checked".to_owned()),
                );
            },
        };
        if pw_ok {
            if user.verify.as_ref().unwrap().verified {
                let reuse = match &user.access_record {
                    Some(rec) => now < rec.expires,
                    None => false,
                };
                if reuse {
                    let rec = user.access_record.as_ref().unwrap().clone();
                    Ok(Some(rec))
                } else {
                    let access = AccessRecord::new(user.id.clone(), now);
                    self.add_access_record(user, Some(access))
                }
            } else {
                Err(
                    DatabaseError::InvalidCredentialsError(
                        InvalidCredentialsError::new("Account has not yet been verified"),
                    ),
                )
            }
        } else {
            Err(
                DatabaseError::InvalidCredentialsError(
                    InvalidCredentialsError::new("Invalid Passoword"),
                ),
            )
        }
    }

    /// Register an account.  Required fields are validated, the email
    /// address syntax-checked, and the identity claimed atomically: the
    /// object id is allocated and the user inserted only when username and
    /// email are both free, so a rejected registration persists nothing.
    /// The created record is returned — carrying the plaintext verify
    /// token/code for the one-time response — when the verification-email
    /// provider is configured, and `Ok(None)` when it is not (the account
    /// still exists; no email can be composed for it).
    pub fn register_user(
        &mut self,
        access_level: String,
        data: &RequestData,
        config: &Configuration,
        now: u64,
    ) -> (r: Result<Option<User>, DatabaseError>)
        requires
            old(self).wf(),
            now + VERIFY_WINDOW_MILLIS <= u64::MAX,
        ensures
            final(self).wf(),
            final(self).oauth_records == old(self).oauth_records,
            ({
                let uopt = data.spec_get("username"@);
                let popt = data.spec_get("password"@);
                let eopt = data.spec_get("email"@);
                match r {
                    Ok(o) => {
                        &&& register_accepted(*old(self), *data)
                        &&& final(self).users@.len() == old(self).users@.len() + 1
                        &&& final(self).users@ == old(self).users@.push(final(self).users@.last())
                        &&& ({
                            let u = final(self).users@.last();
                            &&& u.username@ == uopt->0
                            &&& u.email@ == eopt->0
                            &&& u.access_level == access_level
                            &&& bcrypt_accepts(u.password@)
                            &&& bcrypt_matches(popt->0, u.password@)
                            &&& u.verify matches Some(v) && {
                                &&& !v.verified
                                &&& v.verify_time is None
                                &&& v.expiration_time == now + VERIFY_WINDOW_MILLIS
                                &&& v.verify_token@.len() == TOKEN_LENGTH
                                &&& v.verify_code@.len() == CODE_LENGTH
                            }
                            &&& u.access_record is None
                            &&& view_opt(u.first_name) == data.spec_get("first_name"@)
                            &&& view_opt(u.last_name) == data.spec_get("last_name"@)
                            &&& view_opt(u.address) == data.spec_get("address"@)
                            &&& view_opt(u.phone_number) == data.spec_get("phone_number"@)
                            &&& u.id@.len() == 24
                        })
                        &&& final(self).objects@.len() == old(self).objects@.len() + 1
                        &&& final(self).objects@ == old(self).objects@.push(
                            final(self).objects@.last(),
                        )
                        &&& final(self).objects@.last().the_type@ == "user"@
                        &&& final(self).objects@.last().creation_time == now
                        &&& final(self).objects@.last().id@ == final(self).users@.last().id@
                        &&& (o is Some <==> first_config_named(
                            old(self).oauth_records@,
                            config.email.provider@,
                        ) is Some)
                        &&& (o matches Some(u2) ==> u2 == final(self).users@.last())
                    },
                    Err(e) => match e {
                        DatabaseError::InvalidCredentialsError(ic) => *final(self) == *old(self)
                            && ic.code == 1 && {
                            ||| (popt is None && ic.details@ == "Missing password field"@)
                            ||| (popt is Some && uopt is None && ic.details@
                                == "Missing username field"@)
                            ||| (popt is Some && uopt is Some && eopt is None && ic.details@
                                == "Missing email field"@)
                            ||| (register_fields_present(*data) && !valid_email(eopt->0)
                                && ic.details@ == "This is an invalid email address"@)
                        },
                        DatabaseError::AlreadyExistsError(ae) => *final(self) == *old(self) && {
                            &&& register_fields_present(*data)
                            &&& valid_email(eopt->0)
                            &&& first_user_match(
                                old(self).users@,
                                uopt->0,
                                Some(eopt->0),
                            ) matches Some(m)
                            &&& ae.details@ == (if m.username@ == uopt->0 {
                                "There is already someone wth that username"@
                            } else {
                                "There is already an account with that email address"@
                            })
                            &&& ae.code == 3
                        },
                        DatabaseError::StoreFailure(msg) => register_accepted(*old(self), *data)
                            && *final(self) == *old(self) && msg@
                            == "a freshly allocated object id collided"@ && old(
                            self,
                        ).objects@.len() > 0,
                        DatabaseError::HashingFailure(msg) => register_accepted(*old(self), *data)
                            && final(self).users == old(self).users && final(self).objects@.len()
                            == old(self).objects@.len() + 1 && msg@
                            == "the password could not be hashed"@,
                        _ => false,
                    },
                }
            }),
    {
        let password = match data.get("password") {
            Some(p) => p.clone(),
            None => {
                return Err(
                    DatabaseError::InvalidCredentialsError(
                        InvalidCredentialsError::new("Missing password field"),
                    ),
                );
            },
        };
        let username = match data.get("username") {
            Some(u) => u.clone(),
            None => {
                return Err(
                    DatabaseError::InvalidCredentialsError(
                        InvalidCredentialsError::new("Missing username field"),
                    ),
                );
            },
        };
        let email = match data.get("email") {
            Some(e) => e.clone(),
            None => {
                return Err(
                    DatabaseError::InvalidCredentialsError(
                        InvalidCredentialsError::new("Missing email field"),
                    ),
                );
            },
        };
        let first_name = match data.get("first_name") {
            Some(v) => Some(v.clone()),
            None => None,
        };
        let last_name = match data.get("last_name") {
            Some(v) => Some(v.clone()),
            None => None,
        };
        let address = match data.get("address") {
            Some(v) => Some(v.clone()),
            None => None,
        };
        let phone_number = match data.get("phone_number") {
            Some(v) => Some(v.clone()),
            None => None,
        };
        if !email_is_valid(email.as_str()) {
            return Err(
                DatabaseError::InvalidCredentialsError(
                    InvalidCredentialsError::new("This is an invalid email address"),
                ),
            );
        }
        match self.user_exists(username.as_str(), email.as_str()) {
            Ok(existing) => {
                if str_eq(existing.username.as_str(), username.as_str()) {
                    return Err(
                        DatabaseError::AlreadyExistsError(
                            AlreadyExistsError::new("There is already someone wth that username"),
                        ),
                    );
                } else {
                    return Err(
                        DatabaseError::AlreadyExistsError(
                            AlreadyExistsError::new(
                                "There is already an account with that email address",
                            ),
                        ),
                    );
                }
            },
            Err(_missing) => {},
        }
        let id = match self.add_object("user", now) {
            Ok(o) => match o {
                Some(id) => id,
                None => {
                    return Err(
                        DatabaseError::StoreFailure("no object id was allocated".to_owned()),
                    );
                },
            },
            Err(e) => {
                return Err(e);
            },
        };
        let verified = Verified::new(now);
        let user = match self.add_user(
            id,
            username,
            password,
            email,
            access_level,
            verified,
            first_name,
            last_name,
            address,
            phone_number,
        ) {
            Ok(o) => match o {
                Some(u) => u,
                None => {
                    return Err(DatabaseError::StoreFailure("the user was not inserted".to_owned()));
                },
            },
            Err(e) => {
                return Err(e);
            },
        };
        match self.get_oauth_record(config.email.provider.clone()) {
            Ok(_provider) => Ok(Some(user)),
            Err(_e) => Ok(None),
        }
    }
}

} // verus!
