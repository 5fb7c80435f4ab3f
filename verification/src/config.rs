//! The service's settings, computed from the environment variables that are set.
use vstd::prelude::*;
use vstd::string::*;
use vstd::utf8::encode_utf8;

verus! {

/// The settings of the service.
#[derive(Debug)]
pub struct Environment {
    pub neo4j_uri: String,
    pub neo4j_user: String,
    pub neo4j_password: String,
    pub neo4j_database: Option<String>,
    pub app_port: u16,
    pub app_address: String,
    pub test_user_data: bool,
    pub token_secret: String,
}

/// The variables read from the environment; `None` where a variable is unset
/// (or not valid Unicode).
#[derive(Debug)]
pub struct EnvVars {
    pub token_secret: Option<String>,
    pub neo4j_uri: Option<String>,
    pub neo4j_user: Option<String>,
    pub neo4j_password: Option<String>,
    pub neo4j_database: Option<String>,
    pub app_address: Option<String>,
    pub app_port: Option<String>,
    pub test_user_data: Option<String>,
}

/// Why the settings cannot be made.
#[derive(Debug)]
pub enum ConfigError {
    MissingTokenSecret,
    ShortTokenSecret,
    MissingNeo4jPassword,
    InvalidAppPort,
}

impl ConfigError {
    /// The message reported for this error.
    pub fn message(&self) -> (m: String)
        ensures
            m@ == match self {
                ConfigError::MissingTokenSecret => "TOKEN_SECRET is required"@,
                ConfigError::ShortTokenSecret => "TOKEN_SECRET must be at least 32 bytes"@,
                ConfigError::MissingNeo4jPassword => "NEO4J_PASSWORD is required"@,
                ConfigError::InvalidAppPort => "Invalid APP_PORT"@,
            },
    {
        match self {
            ConfigError::MissingTokenSecret => String::from_str("TOKEN_SECRET is required"),
            ConfigError::ShortTokenSecret => String::from_str("TOKEN_SECRET must be at least 32 bytes"),
            ConfigError::MissingNeo4jPassword => String::from_str("NEO4J_PASSWORD is required"),
            ConfigError::InvalidAppPort => String::from_str("Invalid APP_PORT"),
        }
    }
}

pub open spec fn is_digit(c: char) -> bool {
    '0' <= c && c <= '9'
}

/// The number written by a string of decimal digits.
pub open spec fn decimal_value(s: Seq<char>) -> nat
    decreases s.len(),
{
    if s.len() == 0 {
        0
    } else {
        decimal_value(s.drop_last()) * 10 + ((s.last() as u32 - '0' as u32) as nat)
    }
}

/// The text of a port number after its optional `+` sign.
pub open spec fn port_digits(s: Seq<char>) -> Seq<char> {
    if s.len() > 0 && s[0] == '+' { s.drop_first() } else { s }
}

/// A port number in decimal, as the standard library reads a `u16`: an
/// optional `+`, then at least one digit and nothing else, worth at most 65535.
pub open spec fn parse_port_spec(s: Seq<char>) -> Option<u16> {
    let d = port_digits(s);
    if d.len() > 0 && (forall|i: int| 0 <= i < d.len() ==> is_digit(#[trigger] d[i])) && decimal_value(d) <= 65535 {
        Some(decimal_value(d) as u16)
    } else {
        None
    }
}

proof fn lemma_decimal_grows(s: Seq<char>, i: int)
    requires
        0 <= i <= s.len(),
        forall|k: int| 0 <= k < s.len() ==> is_digit(#[trigger] s[k]),
    ensures
        decimal_value(s.take(i)) <= decimal_value(s),
    decreases s.len() - i,
{
    if i < s.len() {
        lemma_decimal_grows(s, i + 1);
        assert(s.take(i + 1).drop_last() =~= s.take(i));
    } else {
        assert(s.take(i) =~= s);
    }
}

/// Reads a port number.
pub fn parse_port(s: &str) -> (r: Option<u16>)
    ensures
        r == parse_port_spec(s@),
{
    let n = s.unicode_len();
    let mut start: usize = 0;
    if n > 0 && s.get_char(0) == '+' {
        start = 1;
    }
    let ghost d = port_digits(s@);
    assert(d =~= s@.subrange(start as int, n as int));
    if start >= n {
        return None;
    }
    let mut value: u32 = 0;
    let mut i: usize = start;
    while i < n
        invariant
            n == s@.len(),
            start <= i <= n,
            d == s@.subrange(start as int, n as int),
            d == port_digits(s@),
            forall|k: int| start <= k < i ==> is_digit(#[trigger] s@[k]),
            value as nat == decimal_value(d.take(i - start)),
            value <= 65535,
        decreases n - i,
    {
        let c = s.get_char(i);
        assert(d[(i - start) as int] == c);
        if !('0' <= c && c <= '9') {
            proof {
                let k = (i - start) as int;
                assert(!is_digit(d[k]));
                assert(!(forall|j: int| 0 <= j < d.len() ==> is_digit(#[trigger] d[j])));
            }
            return None;
        }
        let digit = (c as u32) - ('0' as u32);
        let ghost k = (i - start) as int;
        assert(d.take(k + 1).drop_last() =~= d.take(k));
        assert(d.take(k + 1).last() == c);
        assert(decimal_value(d.take(k + 1)) == decimal_value(d.take(k)) * 10 + digit);
        let next = value * 10 + digit;
        if next > 65535 {
            proof {
                if forall|j: int| 0 <= j < d.len() ==> is_digit(#[trigger] d[j]) {
                    lemma_decimal_grows(d, k + 1);
                    assert(decimal_value(d) > 65535);
                }
            }
            return None;
        }
        value = next;
        i = i + 1;
    }
    assert(d.take(n - start) =~= d);
    Some(value as u16)
}

/// The length in bytes of the UTF-8 encoding of a string.
pub open spec fn byte_len(s: Seq<char>) -> usize {
    encode_utf8(s).len() as usize
}

/// The settings from the variables that are set: `TOKEN_SECRET` is required and
/// has at least 32 bytes; `NEO4J_PASSWORD` is required; `APP_PORT` (default
/// `4000`) must read as a port; the others default to `bolt://localhost:7687`,
/// `neo4j`, `127.0.0.1`; test user data is on only when `TEST_USER_DATA` is `true`.
impl Environment {
    /// Computes the settings.
    pub fn load_env(vars: EnvVars) -> (r: Result<Environment, ConfigError>)
        ensures
            match vars.token_secret {
                None => r matches Err(ConfigError::MissingTokenSecret),
                Some(t) => if byte_len(t@) < 32 {
                    r matches Err(ConfigError::ShortTokenSecret)
                } else if vars.neo4j_password is None {
                    r matches Err(ConfigError::MissingNeo4jPassword)
                } else if parse_port_spec(match vars.app_port { Some(p) => p@, None => "4000"@ }) is None {
                    r matches Err(ConfigError::InvalidAppPort)
                } else {
                    r matches Ok(env) && env.token_secret@ == t@
                        && env.neo4j_uri@ == (match vars.neo4j_uri { Some(u) => u@, None => "bolt://localhost:7687"@ })
                        && env.neo4j_user@ == (match vars.neo4j_user { Some(u) => u@, None => "neo4j"@ })
                        && env.neo4j_password@ == vars.neo4j_password->0@
                        && env.neo4j_database.deep_view() == vars.neo4j_database.deep_view()
                        && env.app_address@ == (match vars.app_address { Some(a) => a@, None => "127.0.0.1"@ })
                        && Some(env.app_port) == parse_port_spec(match vars.app_port { Some(p) => p@, None => "4000"@ })
                        && env.test_user_data == (match vars.test_user_data { Some(x) => x@ == "true"@, None => false })
                },
            },
    {
        let token_secret = match vars.token_secret {
            None => return Err(ConfigError::MissingTokenSecret),
            Some(t) => t,
        };
        if token_secret.as_str().len() < 32 {
            return Err(ConfigError::ShortTokenSecret);
        }
        let neo4j_uri = match vars.neo4j_uri {
            Some(u) => u,
            None => String::from_str("bolt://localhost:7687"),
        };
        let neo4j_user = match vars.neo4j_user {
            Some(u) => u,
            None => String::from_str("neo4j"),
        };
        let neo4j_password = match vars.neo4j_password {
            Some(p) => p,
            None => return Err(ConfigError::MissingNeo4jPassword),
        };
        let app_address = match vars.app_address {
            Some(a) => a,
            None => String::from_str("127.0.0.1"),
        };
        let port_text = match vars.app_port {
            Some(p) => p,
            None => String::from_str("4000"),
        };
        let app_port = match parse_port(port_text.as_str()) {
            Some(p) => p,
            None => return Err(ConfigError::InvalidAppPort),
        };
        let test_user_data = match &vars.test_user_data {
            Some(x) => {
                let t = String::from_str("true");
                *x == t
            },
            None => false,
        };
        Ok(Environment {
            neo4j_uri,
            neo4j_user,
            neo4j_password,
            neo4j_database: vars.neo4j_database,
            app_port,
            app_address,
            test_user_data,
            token_secret,
        })
    }
}

} // verus!
