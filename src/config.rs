//! Startup configuration: the credentials of the accounts to show, given as
//! identifiers and keys paired by position, or as `id:key` tokens.
use vstd::prelude::*;
use crate::size::{decimal, push_decimal};

verus! {

/// The credentials of one account: its identifier and its API key.
pub struct Credential {
    pub veid: String,
    pub api_key: String,
}

/// Startup parameters: account identifiers and their API keys, paired by position.
pub struct Args {
    pub veids: Vec<String>,
    pub api_keys: Vec<String>,
}

/// The configuration the dashboard runs with.
pub struct Config {
    pub credentials: Vec<Credential>,
}

/// A configuration that cannot be used.
pub enum ConfigError {
    /// The identifier and key lists differ in length.
    LengthMismatch { veids: usize, api_keys: usize },
    /// A credential token without the `:` separator.
    MalformedToken { token: String },
    /// A configuration was already published.
    AlreadyInitialized,
    /// The page template could not be compiled.
    Template { detail: String },
}

/// The text of a configuration error.
pub open spec fn config_error_text(e: ConfigError) -> Seq<char> {
    match e {
        ConfigError::LengthMismatch { veids, api_keys } => "The number of veids ("@ + decimal(
            veids as nat,
        ) + ") and api_keys ("@ + decimal(api_keys as nat) + ") must be the same."@,
        ConfigError::MalformedToken { token } => "Malformed credential token (expected id:key): "@
            + token@,
        ConfigError::AlreadyInitialized => "Config already initialized"@,
        ConfigError::Template { detail } => "Failed to add template: "@ + detail@,
    }
}

/// `s` holds no `:`.
pub open spec fn colon_free(s: Seq<char>) -> bool {
    forall|j: int| 0 <= j < s.len() ==> s[j] != ':'
}

/// `c` is what the token `s` denotes: `s` is the identifier, a `:` and the key,
/// split at the first `:`.
pub open spec fn denotes(s: Seq<char>, c: Credential) -> bool {
    s == c.veid@ + seq![':'] + c.api_key@ && colon_free(c.veid@)
}

/// `e` reports the malformed token `s`.
pub open spec fn reports_token(e: ConfigError, s: Seq<char>) -> bool {
    match e {
        ConfigError::MalformedToken { token } => token@ == s,
        _ => false,
    }
}

/// `cs` pairs `veids` and `keys` by position.
pub open spec fn pairs_of(veids: Seq<String>, keys: Seq<String>, cs: Seq<Credential>) -> bool {
    cs.len() == veids.len() && forall|i: int|
        0 <= i < cs.len() ==> #[trigger] cs[i].veid@ == veids[i]@ && cs[i].api_key@ == keys[i]@
}

impl ConfigError {
    /// A human-readable description of the error.
    pub fn message(&self) -> (r: String)
        ensures
            r@ == config_error_text(*self),
    {
        match self {
            ConfigError::LengthMismatch { veids, api_keys } => {
                let mut s = String::from_str("The number of veids (");
                push_decimal(&mut s, *veids as u128);
                s.append(") and api_keys (");
                push_decimal(&mut s, *api_keys as u128);
                s.append(") must be the same.");
                s
            },
            ConfigError::MalformedToken { token } => {
                let mut s = String::from_str("Malformed credential token (expected id:key): ");
                s.append(token.as_str());
                s
            },
            ConfigError::AlreadyInitialized => String::from_str("Config already initialized"),
            ConfigError::Template { detail } => {
                let mut s = String::from_str("Failed to add template: ");
                s.append(detail.as_str());
                s
            },
        }
    }
}

/// Splits a credential token `id:key` at its first `:`.
pub fn parse_credential(token: &str) -> (r: Result<Credential, ConfigError>)
    ensures
        r is Ok <==> !colon_free(token@),
        r matches Ok(c) ==> denotes(token@, c),
        r matches Err(e) ==> reports_token(e, token@),
{
    let n = token.unicode_len();
    let mut i: usize = 0;
    while i < n
        invariant
            n == token@.len(),
            i <= n,
            colon_free(token@.take(i as int)),
        decreases n - i,
    {
        if token.get_char(i) == ':' {
            let veid = String::from_str(token.substring_char(0, i));
            let api_key = String::from_str(token.substring_char(i + 1, n));
            let c = Credential { veid, api_key };
            assert(token@ =~= c.veid@ + seq![':'] + c.api_key@);
            assert(c.veid@ =~= token@.take(i as int));
            return Ok(c);
        }
        assert(token@.take(i + 1) =~= token@.take(i as int).push(token@[i as int]));
        i = i + 1;
    }
    assert(token@.take(n as int) =~= token@);
    Err(ConfigError::MalformedToken { token: String::from_str(token) })
}

/// Parses a list of `id:key` tokens; the first token without a `:` is reported.
pub fn parse_credentials(tokens: &Vec<String>) -> (r: Result<Vec<Credential>, ConfigError>)
    ensures
        r is Ok <==> forall|i: int| 0 <= i < tokens.len() ==> !colon_free(#[trigger] tokens[i]@),
        r matches Ok(cs) ==> cs.len() == tokens.len() && forall|i: int|
            0 <= i < cs.len() ==> denotes(#[trigger] tokens[i]@, cs[i]),
        r matches Err(e) ==> exists|i: int|
            0 <= i < tokens.len() && colon_free(#[trigger] tokens[i]@) && (forall|j: int|
                0 <= j < i ==> !colon_free(#[trigger] tokens[j]@)) && reports_token(e, tokens[i]@),
{
    let mut out: Vec<Credential> = Vec::new();
    let mut i: usize = 0;
    while i < tokens.len()
        invariant
            i <= tokens.len(),
            out.len() == i,
            forall|j: int| 0 <= j < i ==> !colon_free(#[trigger] tokens[j]@),
            forall|j: int| 0 <= j < i ==> denotes(#[trigger] tokens[j]@, out[j]),
        decreases tokens.len() - i,
    {
        match parse_credential(tokens[i].as_str()) {
            Ok(c) => out.push(c),
            Err(e) => {
                return Err(e);
            },
        }
        i = i + 1;
    }
    Ok(out)
}

/// Pairs account identifiers with their keys by position; the lists must be
/// of equal length.
pub fn pair_credentials(veids: &Vec<String>, api_keys: &Vec<String>) -> (r: Result<
    Vec<Credential>,
    ConfigError,
>)
    ensures
        r is Ok <==> veids.len() == api_keys.len(),
        r matches Ok(cs) ==> pairs_of(veids@, api_keys@, cs@),
        r matches Err(e) ==> e == (ConfigError::LengthMismatch {
            veids: veids.len(),
            api_keys: api_keys.len(),
        }),
{
    if veids.len() != api_keys.len() {
        return Err(ConfigError::LengthMismatch { veids: veids.len(), api_keys: api_keys.len() });
    }
    let mut out: Vec<Credential> = Vec::new();
    let mut i: usize = 0;
    while i < veids.len()
        invariant
            veids.len() == api_keys.len(),
            i <= veids.len(),
            out.len() == i,
            forall|j: int|
                0 <= j < i ==> #[trigger] out[j].veid@ == veids[j]@ && out[j].api_key@
                    == api_keys[j]@,
        decreases veids.len() - i,
    {
        let veid = veids[i].clone();
        let api_key = api_keys[i].clone();
        out.push(Credential { veid, api_key });
        i = i + 1;
    }
    Ok(out)
}

impl Config {
    /// Builds the configuration from the startup parameters.
    pub fn from_args(args: &Args) -> (r: Result<Config, ConfigError>)
        ensures
            r is Ok <==> args.veids.len() == args.api_keys.len(),
            r matches Ok(c) ==> pairs_of(args.veids@, args.api_keys@, c.credentials@),
            r matches Err(e) ==> e == (ConfigError::LengthMismatch {
                veids: args.veids.len(),
                api_keys: args.api_keys.len(),
            }),
    {
        match pair_credentials(&args.veids, &args.api_keys) {
            Ok(credentials) => Ok(Config { credentials }),
            Err(e) => Err(e),
        }
    }
}

} // verus!
