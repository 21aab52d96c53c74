//! The request API: one dispatcher mapping an action name and its field map
//! onto the identity/session operations, answering with a uniform envelope.

use vstd::prelude::*;

use crate::configuration::Configuration;
use crate::errors::DatabaseError;
use crate::database::{
    exchange_accepted, first_config_named, first_user_match, lemma_first_match_after_update,
    lemma_user_match_found, login_accepted, login_reuses, logout_accepted, register_accepted,
    verify_accepted, DatabaseController,
};
use crate::request::RequestData;
use crate::server::Server;
use crate::structures::{bcrypt_matches, SESSION_WINDOW_MILLIS, VERIFY_WINDOW_MILLIS};
use crate::strutil::str_eq;
use crate::validate::valid_email;

verus! {

/// The catch-all failure body.
#[derive(Debug, PartialEq)]
pub struct APIFail {
    pub response: String,
}

/// The uniform response envelope: a status, an optional human-readable
/// message and an optional payload.
#[derive(Debug, PartialEq)]
pub struct APIResponse<T> {
    pub status: String,
    pub message: Option<String>,
    pub data: Option<T>,
}

/// The payload of one answered action.
#[derive(Debug, PartialEq)]
pub enum ResponsePayload {
    /// Answers `register`: the allocated id and the one-time verify token.
    Registration { user_id: String, verify_token: String },
    /// Answers `login` and `exchange`: the current bearer pair.
    Session { access_token: String, refresh_token: String, expires: u64 },
    /// Answers `verify`: the token and the stamped verification time.
    Verification { verify_token: String, verify_time: u64 },
    /// Free-form detail text (confirmations and error details).
    Text(String),
}

/// The envelope answering a request with no usable action or data object.
pub open spec fn invalid_reply(resp: APIResponse<ResponsePayload>) -> bool {
    &&& resp.status@ == "fail"@
    &&& resp.message matches Some(m) && m@ == "Invalid data"@
    &&& resp.data matches Some(p) && (p matches ResponsePayload::Text(t) && t@ == ""@)
}

/// Whether a `register` request must be accepted, and the detail text it is
/// refused with otherwise.
pub open spec fn register_fail_detail(s: DatabaseController, d: RequestData) -> Seq<char> {
    if d.spec_get("password"@) is None {
        "Missing password field"@
    } else if d.spec_get("username"@) is None {
        "Missing username field"@
    } else if d.spec_get("email"@) is None {
        "Missing email field"@
    } else if !valid_email(d.spec_get("email"@)->0) {
        "This is an invalid email address"@
    } else {
        match first_user_match(
            s.users@,
            d.spec_get("username"@)->0,
            Some(d.spec_get("email"@)->0),
        ) {
            Some(m) => if m.username@ == d.spec_get("username"@)->0 {
                "There is already someone wth that username"@
            } else {
                "There is already an account with that email address"@
            },
            None => ""@,
        }
    }
}

/// What the `register` branch answers.
pub open spec fn register_reply(
    s0: DatabaseController,
    s1: DatabaseController,
    d: RequestData,
    cfg: Configuration,
    resp: APIResponse<ResponsePayload>,
) -> bool {
    &&& (resp.status@ == "success"@ ==> {
        &&& register_accepted(s0, d)
        &&& s1.users@.len() == s0.users@.len() + 1
        &&& s1.users@ == s0.users@.push(s1.users@.last())
        &&& s1.users@.last().access_level@ == "subscriber"@
        &&& first_config_named(s0.oauth_records@, cfg.email.provider@) is Some
        &&& resp.message is None
        &&& resp.data matches Some(p) && (p matches ResponsePayload::Registration {
            user_id,
            verify_token,
        } && user_id@ == s1.users@.last().id@ && (match s1.users@.last().verify {
            Some(v) => verify_token@ == v.verify_token@,
            None => false,
        }))
    })
    &&& (!register_accepted(s0, d) ==> {
        &&& resp.status@ == "fail"@
        &&& s1 == s0
        &&& resp.message matches Some(m) && m@ == "Registration failed!"@
        &&& resp.data matches Some(p) && (p matches ResponsePayload::Text(t) && t@
            == register_fail_detail(s0, d))
    })
    &&& (resp.status@ == "fail"@ ==> (resp.message matches Some(m) && m@
        == "Registration failed!"@))
    &&& (register_accepted(s0, d) && resp.status@ == "fail"@ ==> (resp.data matches Some(p) && (
    p matches ResponsePayload::Text(t) && {
        ||| (t@ == "the verification email provider is not configured"@ && {
            &&& first_config_named(s0.oauth_records@, cfg.email.provider@) is None
            &&& s1.users@.len() == s0.users@.len() + 1
            &&& s1.users@ == s0.users@.push(s1.users@.last())
            &&& s1.objects@.len() == s0.objects@.len() + 1
        })
        ||| (t@ == "a freshly allocated object id collided"@ && s1 == s0 && s0.objects@.len() > 0)
        ||| (t@ == "the password could not be hashed"@ && s1.users == s0.users
            && s1.objects@.len() == s0.objects@.len() + 1)
    })))
}

/// Whether a `login` request must succeed.
pub open spec fn login_ok(s: DatabaseController, d: RequestData) -> bool {
    &&& d.spec_get("username"@) is Some
    &&& d.spec_get("password"@) is Some
    &&& login_accepted(s, d.spec_get("username"@)->0, d.spec_get("password"@)->0)
}

/// The detail text a refused `login` carries.
pub open spec fn login_fail_detail(s: DatabaseController, d: RequestData) -> Seq<char> {
    if d.spec_get("username"@) is None {
        "Missing username field"@
    } else if d.spec_get("password"@) is None {
        "Missing password field"@
    } else {
        match first_user_match(s.users@, d.spec_get("username"@)->0, None) {
            None => d.spec_get("username"@)->0 + " was not found"@,
            Some(u0) => if !bcrypt_matches(d.spec_get("password"@)->0, u0.password@) {
                "Invalid Passoword"@
            } else {
                "Account has not yet been verified"@
            },
        }
    }
}

/// The session payload names exactly the bearer pair stored for `username`
/// after the call.
pub open spec fn session_payload_current(
    s1: DatabaseController,
    username: Seq<char>,
    resp: APIResponse<ResponsePayload>,
) -> bool {
    match first_user_match(s1.users@, username, None) {
        Some(u1) => match u1.access_record {
            Some(rec) => resp.data matches Some(p) && (p matches ResponsePayload::Session {
                access_token,
                refresh_token,
                expires,
            } && access_token@ == rec.access_token@ && (match rec.refresh_token {
                Some(rt) => refresh_token@ == rt@,
                None => false,
            }) && expires == rec.expires),
            None => false,
        },
        None => false,
    }
}

/// What the `login` branch answers.
pub open spec fn login_reply(
    s0: DatabaseController,
    s1: DatabaseController,
    d: RequestData,
    now: u64,
    resp: APIResponse<ResponsePayload>,
) -> bool {
    &&& (login_ok(s0, d) ==> {
        &&& resp.status@ == "success"@
        &&& resp.message matches Some(m) && m@ == "Success"@
        &&& session_payload_current(s1, d.spec_get("username"@)->0, resp)
        &&& (login_reuses(s0, d.spec_get("username"@)->0, now) ==> s1 == s0)
        &&& (!login_reuses(s0, d.spec_get("username"@)->0, now) ==> match first_user_match(
            s1.users@,
            d.spec_get("username"@)->0,
            None,
        ) {
            Some(u1) => match u1.access_record {
                Some(rec) => rec.creation_time == now && rec.expires == now
                    + SESSION_WINDOW_MILLIS,
                None => false,
            },
            None => false,
        })
    })
    &&& (!login_ok(s0, d) ==> {
        &&& resp.status@ == "fail"@
        &&& s1 == s0
        &&& resp.message matches Some(m) && m@ == "Login Failed"@
        &&& resp.data matches Some(p) && (p matches ResponsePayload::Text(t) && t@
            == login_fail_detail(s0, d))
    })
}

/// Whether an `exchange` request must succeed.
pub open spec fn exchange_ok(s: DatabaseController, d: RequestData) -> bool {
    &&& d.spec_get("username"@) is Some
    &&& d.spec_get("refresh_token"@) is Some
    &&& d.spec_get("access_token"@) is Some
    &&& exchange_accepted(
        s,
        d.spec_get("username"@)->0,
        d.spec_get("access_token"@)->0,
        d.spec_get("refresh_token"@)->0,
    )
}

/// The detail text a refused `exchange` carries.
pub open spec fn exchange_fail_detail(s: DatabaseController, d: RequestData) -> Seq<char> {
    if d.spec_get("username"@) is None {
        "Missing username field"@
    } else if d.spec_get("refresh_token"@) is None {
        "Missing refresh_token field"@
    } else if d.spec_get("access_token"@) is None {
        "Missing access_token field"@
    } else {
        match first_user_match(s.users@, d.spec_get("username"@)->0, None) {
            None => d.spec_get("username"@)->0 + " was not found"@,
            Some(_) => "The specified access token was not found!"@,
        }
    }
}

/// What the `exchange` branch answers.
pub open spec fn exchange_reply(
    s0: DatabaseController,
    s1: DatabaseController,
    d: RequestData,
    now: u64,
    resp: APIResponse<ResponsePayload>,
) -> bool {
    &&& (exchange_ok(s0, d) ==> {
        &&& resp.status@ == "success"@
        &&& resp.message matches Some(m) && m@ == "Success"@
        &&& session_payload_current(s1, d.spec_get("username"@)->0, resp)
        &&& match first_user_match(s1.users@, d.spec_get("username"@)->0, None) {
            Some(u1) => match u1.access_record {
                Some(rec) => rec.creation_time == now && rec.expires == now
                    + SESSION_WINDOW_MILLIS,
                None => false,
            },
            None => false,
        }
    })
    &&& (!exchange_ok(s0, d) ==> {
        &&& resp.status@ == "fail"@
        &&& s1 == s0
        &&& resp.message matches Some(m) && m@ == "Login Failed"@
        &&& resp.data matches Some(p) && (p matches ResponsePayload::Text(t) && t@
            == exchange_fail_detail(s0, d))
    })
}

/// Whether a `verify` request must succeed.
pub open spec fn verify_ok(s: DatabaseController, d: RequestData, now: u64) -> bool {
    &&& d.spec_get("username"@) is Some
    &&& d.spec_get("verify_token"@) is Some
    &&& d.spec_get("verify_code"@) is Some
    &&& verify_accepted(
        s,
        d.spec_get("username"@)->0,
        d.spec_get("verify_token"@)->0,
        d.spec_get("verify_code"@)->0,
        now,
    )
}

/// The detail text a refused `verify` carries.
pub open spec fn verify_fail_detail(s: DatabaseController, d: RequestData) -> Seq<char> {
    if d.spec_get("username"@) is None {
        "Missing username field"@
    } else if d.spec_get("verify_token"@) is None {
        "Missing verify_token field"@
    } else if d.spec_get("verify_code"@) is None {
        "Missing verify_code field"@
    } else {
        match first_user_match(s.users@, d.spec_get("username"@)->0, None) {
            None => d.spec_get("username"@)->0 + " was not found"@,
            Some(_) => "Invalid verify credentials"@,
        }
    }
}

/// What the `verify` branch answers.
pub open spec fn verify_reply(
    s0: DatabaseController,
    s1: DatabaseController,
    d: RequestData,
    now: u64,
    resp: APIResponse<ResponsePayload>,
) -> bool {
    &&& (verify_ok(s0, d, now) ==> {
        &&& resp.status@ == "success"@
        &&& resp.message matches Some(m) && m@ == d.spec_get("username"@)->0
            + " is now verified"@
        &&& match first_user_match(s1.users@, d.spec_get("username"@)->0, None) {
            Some(u1) => match u1.verify {
                Some(v) => v.verified && (resp.data matches Some(p) && (
                p matches ResponsePayload::Verification { verify_token, verify_time }
                    && verify_token@ == v.verify_token@ && Some(verify_time) == v.verify_time)),
                None => false,
            },
            None => false,
        }
    })
    &&& (!verify_ok(s0, d, now) ==> {
        &&& resp.status@ == "fail"@
        &&& s1 == s0
        &&& resp.message matches Some(m) && m@ == "Verify Failed"@
        &&& resp.data matches Some(p) && (p matches ResponsePayload::Text(t) && t@
            == verify_fail_detail(s0, d))
    })
}

/// Whether a `logout` request must succeed.
pub open spec fn logout_ok(s: DatabaseController, d: RequestData) -> bool {
    &&& d.spec_get("username"@) is Some
    &&& d.spec_get("access_token"@) is Some
    &&& logout_accepted(s, d.spec_get("username"@)->0, d.spec_get("access_token"@)->0)
}

/// The detail text a refused `logout` carries.
pub open spec fn logout_fail_detail(s: DatabaseController, d: RequestData) -> Seq<char> {
    if d.spec_get("username"@) is None {
        "Missing username field"@
    } else if d.spec_get("access_token"@) is None {
        "Missing access_token field"@
    } else {
        match first_user_match(s.users@, d.spec_get("username"@)->0, None) {
            None => d.spec_get("username"@)->0 + " was not found"@,
            Some(u0) => match u0.access_record {
                Some(_) => d.spec_get("username"@)->0 + " has no access record please login"@,
                None => "Invalid username or access token"@,
            },
        }
    }
}

/// What the `logout` branch answers.
pub open spec fn logout_reply(
    s0: DatabaseController,
    s1: DatabaseController,
    d: RequestData,
    resp: APIResponse<ResponsePayload>,
) -> bool {
    &&& (logout_ok(s0, d) ==> {
        &&& resp.status@ == "success"@
        &&& resp.message matches Some(m) && m@ == d.spec_get("username"@)->0
            + " is logged out"@
        &&& resp.data matches Some(p) && (p matches ResponsePayload::Text(t) && t@
            == "Logged Out!"@)
        &&& match first_user_match(s1.users@, d.spec_get("username"@)->0, None) {
            Some(u1) => u1.access_record is None,
            None => false,
        }
    })
    &&& (!logout_ok(s0, d) ==> {
        &&& resp.status@ == "fail"@
        &&& s1 == s0
        &&& resp.message matches Some(m) && m@ == "Logout Failed"@
        &&& resp.data matches Some(p) && (p matches ResponsePayload::Text(t) && t@
            == logout_fail_detail(s0, d))
    })
}

/// The request API over one serving instance.
pub struct API {
    pub server: Server,
}

impl API {
    /// Dispatch one request: `action` names the operation, `data` carries
    /// its flat field map.  Always answers with an envelope — a request
    /// without a data object, or with an unknown action, is answered with
    /// the uniform "Invalid data" failure rather than refused.  A
    /// registration whose account was created but whose verification-email
    /// provider is not configured is reported as a failure with that detail
    /// (the account exists; see the register operation).
    pub fn map_actions(
        _version: u8,
        server: &mut Server,
        action: String,
        data: Option<&RequestData>,
        config: &Configuration,
        now: u64,
    ) -> (r: Result<APIResponse<ResponsePayload>, DatabaseError>)
        requires
            old(server).database.wf(),
            now + VERIFY_WINDOW_MILLIS <= u64::MAX,
        ensures
            final(server).database.wf(),
            final(server).database.oauth_records == old(server).database.oauth_records,
            final(server).port == old(server).port,
            final(server).hostname == old(server).hostname,
            final(server).address == old(server).address,
            r matches Ok(resp) && ({
                let s0 = old(server).database;
                let s1 = final(server).database;
                &&& (resp.status@ == "success"@ || resp.status@ == "fail"@)
                &&& (match data {
                    Some(d) => {
                        &&& (action@ == "register"@ ==> register_reply(s0, s1, *d, *config, resp))
                        &&& (action@ == "login"@ ==> login_reply(s0, s1, *d, now, resp))
                        &&& (action@ == "exchange"@ ==> exchange_reply(s0, s1, *d, now, resp))
                        &&& (action@ == "verify"@ ==> verify_reply(s0, s1, *d, now, resp))
                        &&& (action@ == "logout"@ ==> logout_reply(s0, s1, *d, resp))
                        &&& (!(action@ == "register"@ || action@ == "login"@ || action@
                            == "exchange"@ || action@ == "verify"@ || action@ == "logout"@)
                            ==> invalid_reply(resp) && s1 == s0)
                    },
                    None => invalid_reply(resp) && s1 == s0,
                })
            }),
    {
        proof {
            reveal_strlit("register");
            reveal_strlit("login");
            reveal_strlit("exchange");
            reveal_strlit("verify");
            reveal_strlit("logout");
            reveal_strlit("success");
            reveal_strlit("fail");
            assert("register"@[0] == 'r' && "register"@.len() == 8);
            assert("login"@[0] == 'l' && "login"@.len() == 5);
            assert("exchange"@[0] == 'e' && "exchange"@.len() == 8);
            assert("verify"@[0] == 'v' && "verify"@.len() == 6);
            assert("logout"@[0] == 'l' && "logout"@[2] == 'g' && "logout"@.len() == 6);
            assert("success"@.len() == 7 && "fail"@.len() == 4);
        }
        let d = match data {
            Some(d) => d,
            None => {
                return Ok(Self::invalid_data());
            },
        };
        if str_eq(action.as_str(), "register") {
            match server.database.register_user("subscriber".to_owned(), d, config, now) {
                Ok(created) => {
                    match created {
                        Some(user) => {
                            let verify_token = match &user.verify {
                                Some(v) => v.verify_token.clone(),
                                None => {
                                    return Ok(Self::invalid_data());
                                },
                            };
                            Ok(
                                APIResponse {
                                    status: "success".to_owned(),
                                    message: None,
                                    data: Some(
                                        ResponsePayload::Registration {
                                            user_id: user.id,
                                            verify_token,
                                        },
                                    ),
                                },
                            )
                        },
                        None => Ok(
                            Self::fail_reply(
                                "Registration failed!",
                                "the verification email provider is not configured".to_owned(),
                            ),
                        ),
                    }
                },
                Err(e) => Ok(Self::fail_reply("Registration failed!", e.details())),
            }
        } else if str_eq(action.as_str(), "login") {
            let ghost s0 = server.database;
            match server.database.login_user(d, now) {
                Ok(record) => {
                    let rec = match record {
                        Some(rec) => rec,
                        None => {
                            return Ok(Self::invalid_data());
                        },
                    };
                    proof {
                        let uname = d.spec_get("username"@)->0;
                        lemma_user_match_found(s0.users@, uname, None);
                        if !login_reuses(s0, uname, now) {
                            let u0 = first_user_match(s0.users@, uname, None)->0;
                            lemma_first_match_after_update(
                                s0.users@,
                                server.database.users@,
                                uname,
                                (crate::structures::User { access_record: Some(rec), ..u0 }),
                            );
                        }
                    }
                    let refresh_token = match &rec.refresh_token {
                        Some(rt) => rt.clone(),
                        None => {
                            return Ok(Self::invalid_data());
                        },
                    };
                    Ok(
                        APIResponse {
                            status: "success".to_owned(),
                            message: Some("Success".to_owned()),
                            data: Some(
                                ResponsePayload::Session {
                                    access_token: rec.access_token,
                                    refresh_token,
                                    expires: rec.expires,
                                },
                            ),
                        },
                    )
                },
                Err(e) => Ok(Self::fail_reply("Login Failed", e.details())),
            }
        } else if str_eq(action.as_str(), "exchange") {
            let username = match d.get("username") {
                Some(u) => u.clone(),
                None => {
                    return Ok(
                        Self::fail_reply("Login Failed", "Missing username field".to_owned()),
                    );
                },
            };
            let refresh_token = match d.get("refresh_token") {
                Some(t) => t.clone(),
                None => {
                    return Ok(
                        Self::fail_reply("Login Failed", "Missing refresh_token field".to_owned()),
                    );
                },
            };
            let access_token = match d.get("access_token") {
                Some(t) => t.clone(),
                None => {
                    return Ok(
                        Self::fail_reply("Login Failed", "Missing access_token field".to_owned()),
                    );
                },
            };
            let ghost s0 = server.database;
            match server.database.exchange_refresh_token(
                access_token,
                refresh_token,
                username,
                now,
            ) {
                Ok(record) => {
                    let rec = match record {
                        Some(rec) => rec,
                        None => {
                            return Ok(Self::invalid_data());
                        },
                    };
                    proof {
                        let uname = d.spec_get("username"@)->0;
                        lemma_user_match_found(s0.users@, uname, None);
                        let u0 = first_user_match(s0.users@, uname, None)->0;
                        lemma_first_match_after_update(
                            s0.users@,
                            server.database.users@,
                            uname,
                            (crate::structures::User { access_record: Some(rec), ..u0 }),
                        );
                    }
                    let refresh_token = match &rec.refresh_token {
                        Some(rt) => rt.clone(),
                        None => {
                            return Ok(Self::invalid_data());
                        },
                    };
                    Ok(
                        APIResponse {
                            status: "success".to_owned(),
                            message: Some("Success".to_owned()),
                            data: Some(
                                ResponsePayload::Session {
                                    access_token: rec.access_token,
                                    refresh_token,
                                    expires: rec.expires,
                                },
                            ),
                        },
                    )
                },
                Err(e) => Ok(Self::fail_reply("Login Failed", e.details())),
            }
        } else if str_eq(action.as_str(), "verify") {
            let username = match d.get("username") {
                Some(u) => u.clone(),
                None => {
                    return Ok(
                        Self::fail_reply("Verify Failed", "Missing username field".to_owned()),
                    );
                },
            };
            let verify_token = match d.get("verify_token") {
                Some(t) => t.clone(),
                None => {
                    return Ok(
                        Self::fail_reply("Verify Failed", "Missing verify_token field".to_owned()),
                    );
                },
            };
            let verify_code = match d.get("verify_code") {
                Some(t) => t.clone(),
                None => {
                    return Ok(
                        Self::fail_reply("Verify Failed", "Missing verify_code field".to_owned()),
                    );
                },
            };
            let ghost s0 = server.database;
            let message = username.clone().concat(" is now verified");
            match server.database.verify_user(username, verify_token, verify_code, now) {
                Ok(user) => {
                    proof {
                        let uname = d.spec_get("username"@)->0;
                        lemma_user_match_found(s0.users@, uname, None);
                        let u0 = first_user_match(s0.users@, uname, None)->0;
                        if !u0.verify->0.verified {
                            lemma_first_match_after_update(
                                s0.users@,
                                server.database.users@,
                                uname,
                                user,
                            );
                        }
                    }
                    let (vtoken, vtime) = match &user.verify {
                        Some(v) => {
                            let t = match v.verify_time {
                                Some(t) => t,
                                None => {
                                    return Ok(Self::invalid_data());
                                },
                            };
                            (v.verify_token.clone(), t)
                        },
                        None => {
                            return Ok(Self::invalid_data());
                        },
                    };
                    Ok(
                        APIResponse {
                            status: "success".to_owned(),
                            message: Some(message),
                            data: Some(
                                ResponsePayload::Verification {
                                    verify_token: vtoken,
                                    verify_time: vtime,
                                },
                            ),
                        },
                    )
                },
                Err(e) => Ok(Self::fail_reply("Verify Failed", e.details())),
            }
        } else if str_eq(action.as_str(), "logout") {
            let username = match d.get("username") {
                Some(u) => u.clone(),
                None => {
                    return Ok(
                        Self::fail_reply("Logout Failed", "Missing username field".to_owned()),
                    );
                },
            };
            let access_token = match d.get("access_token") {
                Some(t) => t.clone(),
                None => {
                    return Ok(
                        Self::fail_reply("Logout Failed", "Missing access_token field".to_owned()),
                    );
                },
            };
            let ghost s0 = server.database;
            let message = username.clone().concat(" is logged out");
            match server.database.logout(username, access_token) {
                Ok(_res) => {
                    proof {
                        let uname = d.spec_get("username"@)->0;
                        lemma_user_match_found(s0.users@, uname, None);
                        let u0 = first_user_match(s0.users@, uname, None)->0;
                        lemma_first_match_after_update(
                            s0.users@,
                            server.database.users@,
                            uname,
                            (crate::structures::User { access_record: None, ..u0 }),
                        );
                    }
                    Ok(
                        APIResponse {
                            status: "success".to_owned(),
                            message: Some(message),
                            data: Some(ResponsePayload::Text("Logged Out!".to_owned())),
                        },
                    )
                },
                Err(e) => Ok(Self::fail_reply("Logout Failed", e.details())),
            }
        } else {
            Ok(Self::invalid_data())
        }
    }

    /// The uniform failure envelope for one action.
    fn fail_reply(message: &str, detail: String) -> (r: APIResponse<ResponsePayload>)
        ensures
            r.status@ == "fail"@,
            r.message matches Some(m) && m@ == message@,
            r.data matches Some(p) && (p matches ResponsePayload::Text(t) && t@ == detail@),
    {
        APIResponse {
            status: "fail".to_owned(),
            message: Some(message.to_owned()),
            data: Some(ResponsePayload::Text(detail)),
        }
    }

    /// The envelope answering an unusable request.
    fn invalid_data() -> (r: APIResponse<ResponsePayload>)
        ensures
            invalid_reply(r),
    {
        APIResponse {
            status: "fail".to_owned(),
            message: Some("Invalid data".to_owned()),
            data: Some(ResponsePayload::Text("".to_owned())),
        }
    }
}

} // verus!
