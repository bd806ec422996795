//! Process configuration: where the durable store lives and the shared
//! secret, plus the connection-string formatter.  Reading the process
//! environment stays outside the engine; this module only holds the values
//! and formats them.

use vstd::prelude::*;
use vstd::string::StringExecFns;

verus! {

broadcast use vstd::string::group_string_axioms;

/// The process configuration: storage coordinates and the shared secret.
/// An empty `api_key` disables the credential gate.
pub struct EnvConfig {
    pub host: String,
    pub port: i32,
    pub database: String,
    pub user: String,
    pub password: String,
    pub api_key: String,
}

impl Clone for EnvConfig {
    fn clone(&self) -> (res: Self)
        ensures
            res == *self,
    {
        EnvConfig {
            host: self.host.clone(),
            port: self.port,
            database: self.database.clone(),
            user: self.user.clone(),
            password: self.password.clone(),
            api_key: self.api_key.clone(),
        }
    }
}

/// The decimal digit character for `d`.
pub open spec fn dec_digit(d: int) -> char {
    if d == 0 {
        '0'
    } else if d == 1 {
        '1'
    } else if d == 2 {
        '2'
    } else if d == 3 {
        '3'
    } else if d == 4 {
        '4'
    } else if d == 5 {
        '5'
    } else if d == 6 {
        '6'
    } else if d == 7 {
        '7'
    } else if d == 8 {
        '8'
    } else {
        '9'
    }
}

/// The decimal representation of a nonnegative number, most significant
/// digit first and without leading zeros.
pub open spec fn dec_rep(n: int) -> Seq<char>
    decreases n,
{
    if n < 10 {
        seq![dec_digit(n)]
    } else {
        dec_rep(n / 10).push(dec_digit(n % 10))
    }
}

/// The decimal representation of `n`, with a leading minus sign when
/// negative.
pub open spec fn dec_int(n: int) -> Seq<char> {
    if n < 0 {
        seq!['-'] + dec_rep(-n)
    } else {
        dec_rep(n)
    }
}

/// The connection string the configuration denotes.
pub open spec fn db_url_of(
    user: Seq<char>,
    password: Seq<char>,
    host: Seq<char>,
    port: int,
    database: Seq<char>,
) -> Seq<char> {
    "postgresql://"@ + user + ":"@ + password + "@"@ + host + ":"@ + dec_int(port) + "/"@
        + database
}

fn digit_str(d: u32) -> (r: &'static str)
    requires
        d < 10,
    ensures
        r@ == seq![dec_digit(d as int)],
{
    if d == 0 {
        proof {
            reveal_strlit("0");
            assert("0"@ =~= seq![dec_digit(0)]);
        }
        "0"
    } else if d == 1 {
        proof {
            reveal_strlit("1");
            assert("1"@ =~= seq![dec_digit(1)]);
        }
        "1"
    } else if d == 2 {
        proof {
            reveal_strlit("2");
            assert("2"@ =~= seq![dec_digit(2)]);
        }
        "2"
    } else if d == 3 {
        proof {
            reveal_strlit("3");
            assert("3"@ =~= seq![dec_digit(3)]);
        }
        "3"
    } else if d == 4 {
        proof {
            reveal_strlit("4");
            assert("4"@ =~= seq![dec_digit(4)]);
        }
        "4"
    } else if d == 5 {
        proof {
            reveal_strlit("5");
            assert("5"@ =~= seq![dec_digit(5)]);
        }
        "5"
    } else if d == 6 {
        proof {
            reveal_strlit("6");
            assert("6"@ =~= seq![dec_digit(6)]);
        }
        "6"
    } else if d == 7 {
        proof {
            reveal_strlit("7");
            assert("7"@ =~= seq![dec_digit(7)]);
        }
        "7"
    } else if d == 8 {
        proof {
            reveal_strlit("8");
            assert("8"@ =~= seq![dec_digit(8)]);
        }
        "8"
    } else {
        proof {
            reveal_strlit("9");
            assert("9"@ =~= seq![dec_digit(9)]);
        }
        "9"
    }
}

/// Append the decimal representation of `n`.
fn push_dec(s: &mut String, n: u32)
    ensures
        final(s)@ == old(s)@ + dec_rep(n as int),
    decreases n,
{
    if n < 10 {
        s.append(digit_str(n));
        proof {
            assert(s@ =~= old(s)@ + dec_rep(n as int));
        }
    } else {
        let q = n / 10;
        let r = n % 10;
        push_dec(s, q);
        s.append(digit_str(r));
        proof {
            assert(q as int == (n as int) / 10 && r as int == (n as int) % 10);
            assert(s@ =~= old(s)@ + dec_rep(n as int));
        }
    }
}

/// Format the connection string for the configured storage coordinates.
pub fn build_db_url(env: &EnvConfig) -> (url: String)
    ensures
        url@ == db_url_of(env.user@, env.password@, env.host@, env.port as int, env.database@),
{
    let mut url = String::new();
    url.append("postgresql://");
    url.append(env.user.as_str());
    url.append(":");
    url.append(env.password.as_str());
    url.append("@");
    url.append(env.host.as_str());
    url.append(":");
    if env.port < 0 {
        url.append("-");
        proof {
            reveal_strlit("-");
            assert("-"@ =~= seq!['-']);
        }
        let m: u32 = (-(env.port as i64)) as u32;
        assert(m as int == -(env.port as int));
        push_dec(&mut url, m);
    } else {
        push_dec(&mut url, env.port as u32);
    }
    url.append("/");
    url.append(env.database.as_str());
    proof {
        reveal_strlit("postgresql://");
        reveal_strlit(":");
        reveal_strlit("@");
        reveal_strlit("/");
        assert(url@ =~= db_url_of(
            env.user@,
            env.password@,
            env.host@,
            env.port as int,
            env.database@,
        ));
    }
    url
}

} // verus!
