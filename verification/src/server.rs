//! The serving instance: the owned credential store plus the endpoint it is
//! reachable at.

use vstd::prelude::*;

use crate::configuration::Configuration;
use crate::database::DatabaseController;
use crate::errors::DatabaseError;

verus! {

/// Whether `c` is a decimal digit.
pub open spec fn is_digit(c: char) -> bool {
    '0' <= c && c <= '9'
}

/// The value of a decimal digit.
pub open spec fn digit_val(c: char) -> int {
    c as int - '0' as int
}

/// The dotted-quad grammar, read left to right: `parts` holds the finished
/// octets and `cur` the digits of the one being read.  An octet is one to
/// three digits valued at most 255, and exactly four of them are joined by
/// single dots.
pub open spec fn spec_scan_ipv4(s: Seq<char>, parts: Seq<u8>, cur: Seq<char>, acc: int) -> Option<
    Seq<u8>,
>
    decreases s.len(),
{
    if s.len() == 0 {
        if 1 <= cur.len() && parts.len() == 3 {
            Some(parts.push(acc as u8))
        } else {
            None
        }
    } else if s[0] == '.' {
        if 1 <= cur.len() && parts.len() < 3 {
            spec_scan_ipv4(s.drop_first(), parts.push(acc as u8), Seq::empty(), 0)
        } else {
            None
        }
    } else if is_digit(s[0]) && cur.len() < 3 && acc * 10 + digit_val(s[0]) <= 255 {
        spec_scan_ipv4(s.drop_first(), parts, cur.push(s[0]), acc * 10 + digit_val(s[0]))
    } else {
        None
    }
}

/// The four octets of a dotted-quad IPv4 address, when `s` is one.
pub open spec fn spec_parse_ipv4(s: Seq<char>) -> Option<Seq<u8>> {
    spec_scan_ipv4(s, Seq::empty(), Seq::empty(), 0)
}

/// Parse a dotted-quad IPv4 address.
pub fn parse_ipv4(s: &str) -> (r: Option<[u8; 4]>)
    ensures
        match r {
            Some(a) => spec_parse_ipv4(s@) == Some(a@),
            None => spec_parse_ipv4(s@) is None,
        },
{
    let n = s.unicode_len();
    let mut parts: [u8; 4] = [0, 0, 0, 0];
    let mut filled: usize = 0;
    let mut cur_len: usize = 0;
    let mut acc: u16 = 0;
    let mut i: usize = 0;
    proof {
        assert(s@.skip(0) =~= s@);
        assert(s@.subrange(0, 0) =~= Seq::<char>::empty());
        assert(parts@.subrange(0, 0) =~= Seq::<u8>::empty());
    }
    while i < n
        invariant
            n == s@.len(),
            0 <= i <= n,
            filled <= 3,
            cur_len <= 3,
            acc <= 255,
            cur_len <= i,
            spec_parse_ipv4(s@) == spec_scan_ipv4(
                s@.skip(i as int),
                parts@.subrange(0, filled as int),
                s@.subrange(i - cur_len, i as int),
                acc as int,
            ),
        decreases n - i,
    {
        let ghost pre = s@.skip(i as int);
        let ghost gparts = parts@.subrange(0, filled as int);
        let ghost gcur = s@.subrange(i - cur_len, i as int);
        let c = s.get_char(i);
        proof {
            assert(pre[0] == s@[i as int]);
            assert(pre.drop_first() =~= s@.skip(i + 1));
        }
        if c == '.' {
            if 1 <= cur_len && filled < 3 {
                let ghost oacc = acc as u8;
                parts[filled] = acc as u8;
                filled = filled + 1;
                cur_len = 0;
                acc = 0;
                proof {
                    assert(parts@.subrange(0, filled as int) =~= gparts.push(oacc));
                    assert(s@.subrange(i + 1, i + 1) =~= Seq::<char>::empty());
                }
            } else {
                return None;
            }
        } else if ('0' <= c && c <= '9') && cur_len < 3 && (acc * 10 + (c as u16 - 48)) <= 255 {
            acc = acc * 10 + (c as u16 - 48);
            cur_len = cur_len + 1;
            proof {
                assert(s@.subrange(i + 1 - cur_len as int, (i + 1) as int) =~= gcur.push(
                    s@[i as int],
                ));
            }
        } else {
            return None;
        }
        i = i + 1;
    }
    proof {
        assert(s@.skip(n as int) =~= Seq::<char>::empty());
    }
    if 1 <= cur_len && filled == 3 {
        parts[filled] = acc as u8;
        proof {
            assert(parts@ =~= parts@.subrange(0, 3).push(parts@[3]));
        }
        Some(parts)
    } else {
        None
    }
}

/// A serving instance: the credential store it owns, and the address, port
/// and public hostname it serves under.
pub struct Server {
    pub database: DatabaseController,
    pub address: [u8; 4],
    pub port: u16,
    pub hostname: String,
}

impl Server {
    /// Stand up an instance from the configuration: a fresh, empty store
    /// behind the configured endpoint.  An address that is not a dotted
    /// quad is `ConfigFailure`.
    pub fn instance(config: &Configuration) -> (r: Result<Server, DatabaseError>)
        ensures
            match r {
                Ok(s) => {
                    &&& s.database.wf()
                    &&& s.database.users@.len() == 0
                    &&& s.database.oauth_records@.len() == 0
                    &&& s.database.objects@.len() == 0
                    &&& s.port == config.server.port
                    &&& s.hostname@ == config.server.hostname@
                    &&& spec_parse_ipv4(config.server.address@) == Some(s.address@)
                },
                Err(e) => e matches DatabaseError::ConfigFailure(_) && spec_parse_ipv4(
                    config.server.address@,
                ) is None,
            },
    {
        let address = match parse_ipv4(config.server.address.as_str()) {
            Some(a) => a,
            None => {
                return Err(
                    DatabaseError::ConfigFailure(
                        "the configured address is not a dotted-quad IPv4 address".to_owned(),
                    ),
                );
            },
        };
        Ok(
            Server {
                database: DatabaseController::new(),
                address,
                port: config.server.port,
                hostname: config.server.hostname.clone(),
            },
        )
    }
}

} // verus!
