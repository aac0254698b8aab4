//! Process configuration: the settings the service starts with, and the
//! rules that resolve them from defaults and environment overrides.
//!
//! Reading the environment itself is the surrounding process's job; it
//! hands the raw strings in and aborts startup when resolution fails.

use vstd::prelude::*;

use vstd::utf8::encode_utf8;

use crate::digits::{dec_val, is_digit, lemma_dec_val_extend_ge};

verus! {

/// Which store backend the service runs on.
#[derive(Debug, Clone, Copy, PartialEq, Eq, Structural)]
pub enum DatabaseType {
    Postgres,
    Memory,
}

/// The resolved settings of the service.
#[derive(Debug)]
pub struct Config {
    /// Which errors are logged (info, warn or error).
    pub log_level: String,
    /// The port the server listens on.
    pub port: u16,
    /// Database user.
    pub db_user: String,
    /// Database password.
    pub db_password: String,
    /// Host of the database.
    pub db_host: String,
    /// Port of the database.
    pub db_port: u16,
    /// Name of the database.
    pub db_name: String,
    /// Which backend to use.
    pub db_type: DatabaseType,
}

/// The bytes of `postgres`.
pub open spec fn postgres_bytes() -> Seq<u8> {
    seq![112u8, 111u8, 115u8, 116u8, 103u8, 114u8, 101u8, 115u8]
}

/// The bytes of `memory`.
pub open spec fn memory_bytes() -> Seq<u8> {
    seq![109u8, 101u8, 109u8, 111u8, 114u8, 121u8]
}

/// The backend a name denotes: exactly `postgres` or `memory`.
pub open spec fn db_type_spec(b: Seq<u8>) -> Option<DatabaseType> {
    if b == postgres_bytes() {
        Some(DatabaseType::Postgres)
    } else if b == memory_bytes() {
        Some(DatabaseType::Memory)
    } else {
        None
    }
}

/// The number a string of decimal digits denotes, if it is all digits
/// and fits a `u16`; leading zeroes are accepted.
pub open spec fn u16_of_dec(b: Seq<u8>) -> Option<u16> {
    if b.len() > 0 && (forall|i: int| 0 <= i < b.len() ==> is_digit(#[trigger] b[i])) && dec_val(b)
        <= u16::MAX {
        Some(dec_val(b) as u16)
    } else {
        None
    }
}

impl DatabaseType {
    /// Reads a backend name, as `db_type_spec` states.
    pub fn parse(s: &str) -> (r: Option<DatabaseType>)
        ensures
            r == db_type_spec(encode_utf8(s@)),
    {
        let b = s.as_bytes();
        if b.len() == 8 && b[0] == 112 && b[1] == 111 && b[2] == 115 && b[3] == 116 && b[4] == 103
            && b[5] == 114 && b[6] == 101 && b[7] == 115 {
            proof {
                assert(b@ =~= postgres_bytes());
            }
            return Some(DatabaseType::Postgres);
        }
        if b.len() == 6 && b[0] == 109 && b[1] == 101 && b[2] == 109 && b[3] == 111 && b[4] == 114
            && b[5] == 121 {
            proof {
                assert(b@ =~= memory_bytes());
            }
            return Some(DatabaseType::Memory);
        }
        proof {
            if b@ == postgres_bytes() {
                assert(b@[0] == 112 && b@[1] == 111 && b@[2] == 115 && b@[3] == 116 && b@[4] == 103
                    && b@[5] == 114 && b@[6] == 101 && b@[7] == 115);
            }
            if b@ == memory_bytes() {
                assert(b@[0] == 109 && b@[1] == 101 && b@[2] == 109 && b@[3] == 111 && b@[4] == 114
                    && b@[5] == 121);
            }
        }
        None
    }
}

/// Reads a port number, as `u16_of_dec` states.
pub fn parse_u16(s: &str) -> (r: Option<u16>)
    ensures
        r == u16_of_dec(encode_utf8(s@)),
{
    let b = s.as_bytes();
    let n = b.len();
    if n == 0 {
        return None;
    }
    let mut val: u16 = 0;
    let mut i: usize = 0;
    while i < n
        invariant
            0 <= i <= n,
            n == b@.len(),
            n > 0,
            b@ == encode_utf8(s@),
            forall|j: int| 0 <= j < i ==> is_digit(#[trigger] b@[j]),
            val == dec_val(b@.subrange(0, i as int)),
        decreases n - i,
    {
        let c = b[i];
        if c < 48 || c > 57 {
            assert(!is_digit(b@[i as int]));
            return None;
        }
        let d = c - 48;
        assert(b@.subrange(0, i + 1).drop_last() =~= b@.subrange(0, i as int));
        assert(dec_val(b@.subrange(0, i + 1)) == val * 10 + d);
        if val > u16::MAX / 10 {
            proof {
                assert(u16::MAX == (u16::MAX / 10) * 10 + (u16::MAX % 10));
                assert(val * 10 >= (u16::MAX / 10 + 1) * 10);
                lemma_dec_val_extend_ge(b@, 0, i + 1, n as int);
                assert(b@.subrange(0, n as int) =~= b@);
                assert(dec_val(b@) > u16::MAX);
            }
            return None;
        }
        let v10 = val * 10;
        if d as u16 > u16::MAX - v10 {
            proof {
                lemma_dec_val_extend_ge(b@, 0, i + 1, n as int);
                assert(b@.subrange(0, n as int) =~= b@);
                assert(dec_val(b@) > u16::MAX);
            }
            return None;
        }
        val = v10 + d as u16;
        i += 1;
    }
    assert(b@.subrange(0, n as int) =~= b@);
    Some(val)
}

/// The string chosen for a setting: the override when one is given, the
/// default otherwise.
pub open spec fn chosen_string(over: Option<String>, default: Seq<char>) -> Seq<char> {
    match over {
        Some(s) => s@,
        None => default,
    }
}

/// The port chosen for a setting: the parsed override when one is given,
/// the default otherwise; nothing when the override does not parse.
pub open spec fn chosen_port(over: Option<String>, default: u16) -> Option<u16> {
    match over {
        Some(s) => u16_of_dec(encode_utf8(s@)),
        None => Some(default),
    }
}

/// The backend chosen for a setting: an override naming a backend wins,
/// anything else falls back to the default.
pub open spec fn chosen_db_type(over: Option<String>, default: DatabaseType) -> DatabaseType {
    match over {
        Some(s) => match db_type_spec(encode_utf8(s@)) {
            Some(t) => t,
            None => default,
        },
        None => default,
    }
}

impl Config {
    /// Resolves the settings from defaults and environment overrides.
    /// Fails — and startup must abort — when the database password is
    /// absent or a port override does not parse.
    pub fn resolve(
        defaults: Config,
        env_port: Option<String>,
        env_db_user: Option<String>,
        env_db_password: Option<String>,
        env_db_host: Option<String>,
        env_db_port: Option<String>,
        env_db_name: Option<String>,
        env_db_type: Option<String>,
    ) -> (r: Option<Config>)
        ensures
            r is Some <==> env_db_password is Some && chosen_port(env_port, defaults.port) is Some
                && chosen_port(env_db_port, defaults.db_port) is Some,
            r matches Some(c) ==> {
                &&& c.log_level == defaults.log_level
                &&& Some(c.port) == chosen_port(env_port, defaults.port)
                &&& c.db_user@ == chosen_string(env_db_user, defaults.db_user@)
                &&& Some(c.db_password) == env_db_password
                &&& c.db_host@ == chosen_string(env_db_host, defaults.db_host@)
                &&& Some(c.db_port) == chosen_port(env_db_port, defaults.db_port)
                &&& c.db_name@ == chosen_string(env_db_name, defaults.db_name@)
                &&& c.db_type == chosen_db_type(env_db_type, defaults.db_type)
            },
    {
        let db_password = match env_db_password {
            Some(p) => p,
            None => {
                return None;
            },
        };
        let port = match env_port {
            Some(p) => match parse_u16(p.as_str()) {
                Some(v) => v,
                None => {
                    return None;
                },
            },
            None => defaults.port,
        };
        let db_port = match env_db_port {
            Some(p) => match parse_u16(p.as_str()) {
                Some(v) => v,
                None => {
                    return None;
                },
            },
            None => defaults.db_port,
        };
        let db_user = match env_db_user {
            Some(u) => u,
            None => defaults.db_user,
        };
        let db_host = match env_db_host {
            Some(h) => h,
            None => defaults.db_host,
        };
        let db_name = match env_db_name {
            Some(d) => d,
            None => defaults.db_name,
        };
        let db_type = match env_db_type {
            Some(t) => match DatabaseType::parse(t.as_str()) {
                Some(t) => t,
                None => defaults.db_type,
            },
            None => defaults.db_type,
        };
        Some(
            Config {
                log_level: defaults.log_level,
                port,
                db_user,
                db_password,
                db_host,
                db_port,
                db_name,
                db_type,
            },
        )
    }
}

} // verus!
