//! The library's cross-call guarantees, each proved from the contracts of
//! the operations it relates.
//!
//! Every operation's own `ensures` describes one call; the lemmas here chain
//! calls: registering a taken username, re-verifying a verified account,
//! logging in after a verification or a logout, re-logging-in inside the
//! session window, presenting a rotated-away token pair, and the isolation
//! of one user's session operations from every other user.  Together with
//! the per-operation contracts they link the whole lifecycle step by step:
//! register, verify, login, exchange, logout, fresh login.

use vstd::prelude::*;

use crate::database::{
    first_user_match, lemma_first_match_after_update, lemma_user_match_none, register_accepted,
    register_fields_present, updated_at_username, user_matches, DatabaseController,
};
use crate::request::RequestData;
use crate::structures::{bcrypt_matches, AccessRecord, User, Verified};

verus! {

/// Law: a username match is also an OR-filter match, so whenever the
/// username-only lookup finds a record, the registration uniqueness check
/// (username OR email) finds one too.
pub proof fn lemma_username_match_implies_or_match(
    users: Seq<User>,
    username: Seq<char>,
    email: Seq<char>,
)
    requires
        first_user_match(users, username, None) is Some,
    ensures
        first_user_match(users, username, Some(email)) is Some,
{
    lemma_user_match_none(users, username, None);
    lemma_user_match_none(users, username, Some(email));
    if first_user_match(users, username, Some(email)) is None {
        assert forall|i: int| 0 <= i < users.len() implies !user_matches(
            #[trigger] users[i],
            username,
            None,
        ) by {
            assert(!user_matches(users[i], username, Some(email)));
        }
    }
}

/// Law: registering the same username twice is refused.  Once a
/// registration accepted for `d` has put its record into the store, no
/// later registration whose `username` field is the same value is accepted
/// — by `register_user`'s contract it is answered with
/// `AlreadyExistsError` and persists nothing (no user record and no
/// identity object).
pub proof fn lemma_duplicate_username_rejected(
    s0: DatabaseController,
    s1: DatabaseController,
    d: RequestData,
    d2: RequestData,
    u: User,
)
    requires
        register_accepted(s0, d),
        s1.users@ == s0.users@.push(u),
        u.username@ == d.spec_get("username"@)->0,
        register_fields_present(d2),
        d2.spec_get("username"@)->0 == d.spec_get("username"@)->0,
    ensures
        !register_accepted(s1, d2),
{
    let username = d2.spec_get("username"@)->0;
    let email = d2.spec_get("email"@)->0;
    lemma_user_match_none(s1.users@, username, Some(email));
    assert(user_matches(s1.users@[s0.users@.len() as int], username, Some(email)));
}

/// Law: verification succeeds exactly once and is idempotent afterwards.
/// After a successful verification stamped at `now1`, the stored record is
/// verified; a second presentation of the same token/code pair before the
/// expiry finds that verified record and passes the same check, so by
/// `verify_user`'s contract it returns the record and leaves the store
/// untouched.
pub proof fn lemma_verify_idempotent(
    olds: Seq<User>,
    news: Seq<User>,
    username: Seq<char>,
    token: Seq<char>,
    code: Seq<char>,
    now1: u64,
    now2: u64,
    u0: User,
)
    requires
        first_user_match(olds, username, None) == Some(u0),
        u0.username@ == username,
        u0.verify is Some,
        Verified::spec_verify(u0.verify->0, token, code, now1),
        updated_at_username(
            olds,
            news,
            username,
            (User {
                verify: Some(
                    (Verified { verified: true, verify_time: Some(now1), ..u0.verify->0 }),
                ),
                ..u0
            }),
        ),
        now2 < u0.verify->0.expiration_time,
    ensures
        first_user_match(news, username, None) matches Some(u1) && {
            &&& u1.verify is Some
            &&& u1.verify->0.verified
            &&& Verified::spec_verify(u1.verify->0, token, code, now2)
        },
{
    let u2 = User {
        verify: Some((Verified { verified: true, verify_time: Some(now1), ..u0.verify->0 })),
        ..u0
    };
    lemma_first_match_after_update(olds, news, username, u2);
}

/// Law: re-login inside the session window reuses the stored pair.  After a
/// login minted and persisted `rec` for a verified user whose password
/// matches, any later login with the same credentials at a time before
/// `rec.expires` finds the same user, passes the same checks, and finds the
/// still-fresh `rec` attached — so by `login_user`'s contract it returns
/// exactly `rec` and changes nothing.
pub proof fn lemma_relogin_within_window(
    olds: Seq<User>,
    news: Seq<User>,
    username: Seq<char>,
    password: Seq<char>,
    rec: AccessRecord,
    u0: User,
    now2: u64,
)
    requires
        first_user_match(olds, username, None) == Some(u0),
        u0.username@ == username,
        u0.verify is Some,
        u0.verify->0.verified,
        bcrypt_matches(password, u0.password@),
        updated_at_username(olds, news, username, (User { access_record: Some(rec), ..u0 })),
        now2 < rec.expires,
    ensures
        first_user_match(news, username, None) matches Some(u1) && {
            &&& bcrypt_matches(password, u1.password@)
            &&& u1.verify is Some
            &&& u1.verify->0.verified
            &&& u1.access_record == Some(rec)
            &&& now2 < rec.expires
        },
{
    lemma_first_match_after_update(olds, news, username, (User { access_record: Some(rec), ..u0 }));
}

/// Law: a refresh-token exchange rotates both tokens.  After a successful
/// exchange replaced the stored pair with the fresh record `rec2`, a later
/// exchange presenting the old pair `(stale_access, stale_refresh)` finds
/// `rec2` attached and fails its exact-match check — by
/// `exchange_refresh_token`'s contract it is answered `NotFoundError` and
/// rotates nothing.  The one input left out is the freshly generated pair
/// colliding with the stale one.
pub proof fn lemma_exchange_rotates(
    olds: Seq<User>,
    news: Seq<User>,
    username: Seq<char>,
    stale_access: Seq<char>,
    stale_refresh: Seq<char>,
    rec2: AccessRecord,
    u0: User,
)
    requires
        first_user_match(olds, username, None) == Some(u0),
        u0.username@ == username,
        updated_at_username(olds, news, username, (User { access_record: Some(rec2), ..u0 })),
        !(rec2.access_token@ == stale_access && (rec2.refresh_token matches Some(rt) && rt@
            == stale_refresh)),
    ensures
        first_user_match(news, username, None) matches Some(u1) && !(u1.access_record matches Some(
            rc,
        ) && rc.access_token@ == stale_access && (rc.refresh_token matches Some(rt) && rt@
            == stale_refresh)),
{
    lemma_first_match_after_update(
        olds,
        news,
        username,
        (User { access_record: Some(rec2), ..u0 }),
    );
}

/// Law: operations are isolated between users.  Replacing the record of
/// one username (what a login, verification, rotation or logout does)
/// leaves the lookup of every other username exactly as it was.
pub proof fn lemma_first_match_other_user(
    olds: Seq<User>,
    news: Seq<User>,
    username: Seq<char>,
    u2: User,
    other: Seq<char>,
)
    requires
        updated_at_username(olds, news, username, u2),
        u2.username@ == username,
        other != username,
    ensures
        first_user_match(news, other, None) == first_user_match(olds, other, None),
    decreases olds.len(),
{
    if olds.len() > 0 {
        assert(news[0] == (if olds[0].username@ == username {
            u2
        } else {
            olds[0]
        }));
        assert forall|j: int| 0 <= j < olds.drop_first().len() implies #[trigger] news.drop_first()[j]
            == (if olds.drop_first()[j].username@ == username {
            u2
        } else {
            olds.drop_first()[j]
        }) by {
            assert(news[j + 1] == (if olds[j + 1].username@ == username {
                u2
            } else {
                olds[j + 1]
            }));
        }
        lemma_first_match_other_user(olds.drop_first(), news.drop_first(), username, u2, other);
    }
}

/// Law: a successful verification unlocks login.  After the verification
/// stamp is persisted, the stored record is verified, so a login presenting
/// a matching password finds every acceptance condition met — by
/// `login_user`'s contract it must return a session.
pub proof fn lemma_login_after_verify(
    olds: Seq<User>,
    news: Seq<User>,
    username: Seq<char>,
    password: Seq<char>,
    now1: u64,
    u0: User,
)
    requires
        first_user_match(olds, username, None) == Some(u0),
        u0.username@ == username,
        u0.verify is Some,
        bcrypt_matches(password, u0.password@),
        updated_at_username(
            olds,
            news,
            username,
            (User {
                verify: Some(
                    (Verified { verified: true, verify_time: Some(now1), ..u0.verify->0 }),
                ),
                ..u0
            }),
        ),
    ensures
        first_user_match(news, username, None) matches Some(u1) && {
            &&& bcrypt_matches(password, u1.password@)
            &&& u1.verify is Some
            &&& u1.verify->0.verified
        },
{
    lemma_first_match_after_update(
        olds,
        news,
        username,
        (User {
            verify: Some((Verified { verified: true, verify_time: Some(now1), ..u0.verify->0 })),
            ..u0
        }),
    );
}

/// Law: after a logout cleared the session, the next login cannot reuse a
/// stored pair.  The record is verified with no session attached, so a
/// login presenting a matching password is accepted and — by `login_user`'s
/// contract — must mint and persist a brand-new pair.
pub proof fn lemma_login_after_logout(
    olds: Seq<User>,
    news: Seq<User>,
    username: Seq<char>,
    password: Seq<char>,
    u0: User,
)
    requires
        first_user_match(olds, username, None) == Some(u0),
        u0.username@ == username,
        u0.verify is Some,
        u0.verify->0.verified,
        bcrypt_matches(password, u0.password@),
        updated_at_username(olds, news, username, (User { access_record: None, ..u0 })),
    ensures
        first_user_match(news, username, None) matches Some(u1) && {
            &&& bcrypt_matches(password, u1.password@)
            &&& u1.verify is Some
            &&& u1.verify->0.verified
            &&& u1.access_record is None
        },
{
    lemma_first_match_after_update(olds, news, username, (User { access_record: None, ..u0 }));
}

} // verus!
