use vstd::prelude::*;

use crate::decimal::{
    int_text, integer_text_value, lemma_int_text_round_trip, parse_i64, parse_i64_spec, parse_u16, parse_u16_spec,
};

verus! {

/// The settings of the service.
#[derive(Clone)]
pub struct AppConfig {
    pub host: String,
    pub port: u16,
    pub environment: String,
    pub database_url: String,
    pub jwt_secret: String,
    pub jwt_expiry: i64,
    pub rv_terminal_secret: String,
    pub rfid_salt: [u8; 16],
    pub smtp_host: String,
}

/// The raw values of the environment variables that configure the service,
/// `None` where a variable is unset.
pub struct EnvVars {
    pub host: Option<String>,
    pub port: Option<String>,
    pub environment: Option<String>,
    pub database_url: Option<String>,
    pub jwt_secret: Option<String>,
    pub jwt_expiry: Option<String>,
    pub rv_terminal_secret: Option<String>,
    pub rfid_hash: Option<String>,
    pub smtp_host: Option<String>,
}

/// The text of a variable, or the default where it is unset.
pub open spec fn text_or(v: Option<String>, default: Seq<char>) -> Seq<char> {
    match v {
        Some(s) => s@,
        None => default,
    }
}

/// The 16 salt bytes made of a text: its first bytes (at most 16), padded
/// with zero bytes.
pub open spec fn salt_from_bytes(bytes: Seq<u8>) -> Seq<u8> {
    Seq::new(16, |i: int| if i < bytes.len() { bytes[i] } else { 0u8 })
}

/// The salt that the `RFID_HASH` variable gives: all zero where unset.
pub open spec fn salt_from_var(v: Option<String>) -> Seq<u8> {
    match v {
        Some(s) => salt_from_bytes(vstd::utf8::encode_utf8(s@)),
        None => Seq::new(16, |i: int| 0u8),
    }
}

/// The port: the variable read as a `u16`, or 4040 where it is unset or
/// does not read.
pub open spec fn port_from_var(v: Option<String>) -> u16 {
    match v {
        Some(s) => match parse_u16_spec(s@) {
            Some(p) => p,
            None => 4040,
        },
        None => 4040,
    }
}

/// The lifetime of a token in seconds: the variable read as an `i64`, or
/// 3600 where it is unset or does not read.
pub open spec fn expiry_from_var(v: Option<String>) -> i64 {
    match v {
        Some(s) => match parse_i64_spec(s@) {
            Some(p) => p,
            None => 3600,
        },
        None => 3600,
    }
}

fn or_default(v: Option<String>, default: &str) -> (r: String)
    ensures
        r@ == text_or(v, default@),
{
    match v {
        Some(s) => s,
        None => String::from_str(default),
    }
}

/// The 16 salt bytes made of a text, as `salt_from_bytes` says.
pub fn salt_from_text(text: &str) -> (r: [u8; 16])
    ensures
        r@ == salt_from_bytes(vstd::utf8::encode_utf8(text@)),
{
    let bytes = text.as_bytes();
    let mut buf = [0u8; 16];
    let mut i: usize = 0;
    while i < 16 && i < bytes.len()
        invariant
            bytes@ == vstd::utf8::encode_utf8(text@),
            i <= 16,
            i <= bytes@.len(),
            forall|j: int| 0 <= j < i ==> buf@[j] == bytes@[j],
            forall|j: int| i <= j < 16 ==> buf@[j] == 0u8,
        decreases 16 - i,
    {
        buf[i] = bytes[i];
        i = i + 1;
    }
    assert(buf@ =~= salt_from_bytes(vstd::utf8::encode_utf8(text@)));
    buf
}

impl AppConfig {
    /// The settings that the environment gives, `None` where the database
    /// URL is unset; every other variable has a default.
    pub fn from_vars(vars: EnvVars) -> (r: Option<AppConfig>)
        ensures
            r is None <==> vars.database_url is None,
            r matches Some(c) ==> {
                &&& c.host@ == text_or(vars.host, "0.0.0.0"@)
                &&& c.port == port_from_var(vars.port)
                &&& c.environment@ == text_or(vars.environment, "development"@)
                &&& Some(c.database_url) == vars.database_url
                &&& c.jwt_secret@ == text_or(vars.jwt_secret, "unsecure"@)
                &&& c.jwt_expiry == expiry_from_var(vars.jwt_expiry)
                &&& c.rv_terminal_secret@ == text_or(vars.rv_terminal_secret, "unsecure"@)
                &&& c.rfid_salt@ == salt_from_var(vars.rfid_hash)
                &&& c.smtp_host@ == text_or(vars.smtp_host, "localhost"@)
            },
    {
        let database_url = match vars.database_url {
            Some(u) => u,
            None => return None,
        };
        let port = match &vars.port {
            Some(p) => match parse_u16(p.as_str()) {
                Some(v) => v,
                None => 4040,
            },
            None => 4040,
        };
        let jwt_expiry = match &vars.jwt_expiry {
            Some(p) => match parse_i64(p.as_str()) {
                Some(v) => v,
                None => 3600,
            },
            None => 3600,
        };
        let rfid_salt = match &vars.rfid_hash {
            Some(s) => salt_from_text(s.as_str()),
            None => [0u8; 16],
        };
        proof {
            if vars.rfid_hash is None {
                assert(rfid_salt@ =~= salt_from_var(vars.rfid_hash));
            }
        }
        Some(AppConfig {
            host: or_default(vars.host, "0.0.0.0"),
            port,
            environment: or_default(vars.environment, "development"),
            database_url,
            jwt_secret: or_default(vars.jwt_secret, "unsecure"),
            jwt_expiry,
            rv_terminal_secret: or_default(vars.rv_terminal_secret, "unsecure"),
            rfid_salt,
            smtp_host: or_default(vars.smtp_host, "localhost"),
        })
    }
}

/// The token lifetime is read as a 64-bit integer: a `JWT_EXPIRY` that
/// holds the decimal text of any `i64` (such as `86400`) sets exactly that
/// many seconds.
pub proof fn lemma_expiry_reads_any_i64(x: i64, s: String)
    requires
        s@ == int_text(x as int),
    ensures
        expiry_from_var(Some(s)) == x,
{
    lemma_int_text_round_trip(x as int);
}

/// A `JWT_EXPIRY` that denotes an integer in the `i64` range sets that
/// lifetime; one that denotes no integer, or one out of that range, leaves
/// the default of 3600 seconds.
pub proof fn lemma_expiry_from_text(s: String)
    ensures
        match integer_text_value(s@, true) {
            Some(v) => if i64::MIN <= v <= i64::MAX {
                expiry_from_var(Some(s)) == v
            } else {
                expiry_from_var(Some(s)) == 3600
            },
            None => expiry_from_var(Some(s)) == 3600,
        },
        expiry_from_var(None) == 3600,
{
}

} // verus!
