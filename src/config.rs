use vstd::prelude::*;
use vstd::string::*;
use crate::trusted::{is_white_space, push_char, white_space};
use crate::validation::is_digit;

verus! {

/// The service's settings.
#[derive(Debug, Clone)]
pub struct Config {
    pub database_url: String,
    pub server_host: String,
    pub server_port: u16,
    pub jwt_secret: String,
    pub jwt_expiration: i64,
    pub cors_allowed_origins: Vec<String>,
}

/// The raw settings as the process environment gives them, each possibly
/// absent.
#[derive(Debug, Clone)]
pub struct ConfigVars {
    pub database_url: Option<String>,
    pub server_host: Option<String>,
    pub server_port: Option<String>,
    pub jwt_secret: Option<String>,
    pub jwt_expiration: Option<String>,
    pub cors_allowed_origins: Option<String>,
}

/// Why the settings could not be read.
#[derive(Debug, Clone, Copy, PartialEq, Eq, Structural)]
pub enum ConfigError {
    MissingDatabaseUrl,
    InvalidServerPort,
    InvalidJwtExpiration,
}

/// The value of a digit character.
pub open spec fn digit_value(c: char) -> int {
    c as int - '0' as int
}

/// The value of a string of decimal digits.
pub open spec fn digits_value(s: Seq<char>) -> int
    decreases s.len(),
{
    if s.len() == 0 {
        0
    } else {
        digits_value(s.drop_last()) * 10 + digit_value(s.last())
    }
}

/// Whether `s` is one or more decimal digits.
pub open spec fn is_numeral(s: Seq<char>) -> bool {
    s.len() > 0 && forall|i: int| 0 <= i < s.len() ==> is_digit(#[trigger] s[i])
}

/// The integer an unsigned numeral denotes, an optional `+` first.
pub open spec fn unsigned_value(s: Seq<char>) -> Option<int> {
    let body = if s.len() > 0 && s[0] == '+' {
        s.drop_first()
    } else {
        s
    };
    if is_numeral(body) {
        Some(digits_value(body))
    } else {
        None
    }
}

/// The integer a signed numeral denotes, an optional `+` or `-` first.
pub open spec fn signed_value(s: Seq<char>) -> Option<int> {
    if s.len() > 0 && s[0] == '-' {
        if is_numeral(s.drop_first()) {
            Some(-digits_value(s.drop_first()))
        } else {
            None
        }
    } else {
        unsigned_value(s)
    }
}

/// The port number a text denotes, if it is in range.
pub open spec fn port_value(s: Seq<char>) -> Option<u16> {
    match unsigned_value(s) {
        Some(v) => if v <= 0xffff {
            Some(v as u16)
        } else {
            None
        },
        None => None,
    }
}

/// The `i64` a text denotes, if it is in range.
pub open spec fn i64_value(s: Seq<char>) -> Option<i64> {
    match signed_value(s) {
        Some(v) => if -0x8000_0000_0000_0000 <= v <= 0x7fff_ffff_ffff_ffff {
            Some(v as i64)
        } else {
            None
        },
        None => None,
    }
}

/// The value of the digits of `s` from `start`, capped at `cap`; `None` if
/// some character there is no digit or there is none.
fn capped_digits(s: &str, start: usize, cap: u128) -> (r: Option<u128>)
    requires
        start <= s@.len(),
        cap <= 0x1_0000_0000_0000_0000,
    ensures
        ({
            let body = s@.subrange(start as int, s@.len() as int);
            if is_numeral(body) {
                r matches Some(v) && v == if digits_value(body) < cap {
                    digits_value(body)
                } else {
                    cap as int
                }
            } else {
                r is None
            }
        }),
{
    let n = s.unicode_len();
    if start == n {
        return None;
    }
    let mut acc: u128 = 0;
    let mut i: usize = start;
    while i < n
        invariant
            n == s@.len(),
            start <= i <= n,
            cap <= 0x1_0000_0000_0000_0000,
            forall|k: int| start <= k < i ==> is_digit(#[trigger] s@[k]),
            acc == if digits_value(s@.subrange(start as int, i as int)) < cap {
                digits_value(s@.subrange(start as int, i as int))
            } else {
                cap as int
            },
            digits_value(s@.subrange(start as int, i as int)) >= 0,
        decreases n - i,
    {
        let c = s.get_char(i);
        if !('0' <= c && c <= '9') {
            proof {
                let body = s@.subrange(start as int, n as int);
                assert(body[i - start] == c);
            }
            return None;
        }
        let d: u128 = (c as u32 - '0' as u32) as u128;
        let ghost prev = digits_value(s@.subrange(start as int, i as int));
        assert(s@.subrange(start as int, i as int + 1).drop_last() =~= s@.subrange(
            start as int,
            i as int,
        ));
        let ghost next = digits_value(s@.subrange(start as int, i as int + 1));
        assert(next == prev * 10 + d);
        let step: u128 = acc * 10 + d;
        assert(acc < cap ==> acc == prev);
        assert(acc >= cap ==> prev >= cap && next >= cap) by (nonlinear_arith)
            requires
                acc >= cap ==> prev >= cap,
                next == prev * 10 + d,
                d >= 0,
                prev >= 0,
        ;
        acc = if step < cap {
            step
        } else {
            cap
        };
        i = i + 1;
    }
    proof {
        let body = s@.subrange(start as int, n as int);
        assert forall|k: int| 0 <= k < body.len() implies is_digit(#[trigger] body[k]) by {
            assert(body[k] == s@[start + k]);
        }
    }
    Some(acc)
}

/// Reads a port number, as `str::parse::<u16>` does.
pub fn parse_port(s: &str) -> (r: Option<u16>)
    ensures
        r == port_value(s@),
{
    let n = s.unicode_len();
    let start: usize = if n > 0 && s.get_char(0) == '+' {
        1
    } else {
        0
    };
    assert(s@.subrange(start as int, n as int) =~= if n > 0 && s@[0] == '+' {
        s@.drop_first()
    } else {
        s@
    });
    match capped_digits(s, start, 0x1_0000) {
        Some(v) => if v < 0x1_0000 {
            Some(v as u16)
        } else {
            None
        },
        None => None,
    }
}

/// Reads a signed 64-bit integer, as `str::parse::<i64>` does.
pub fn parse_i64(s: &str) -> (r: Option<i64>)
    ensures
        r == i64_value(s@),
{
    let n = s.unicode_len();
    let negative = n > 0 && s.get_char(0) == '-';
    let start: usize = if n > 0 && (s.get_char(0) == '+' || s.get_char(0) == '-') {
        1
    } else {
        0
    };
    assert(start == 1 ==> s@.subrange(start as int, n as int) =~= s@.drop_first());
    assert(start == 0 ==> s@.subrange(start as int, n as int) =~= s@);
    match capped_digits(s, start, 0x8000_0000_0000_0001) {
        Some(v) => if negative {
            if v <= 0x8000_0000_0000_0000 {
                Some((0i128 - v as i128) as i64)
            } else {
                None
            }
        } else {
            if v <= 0x7fff_ffff_ffff_ffff {
                Some(v as i64)
            } else {
                None
            }
        },
        None => None,
    }
}

/// `s` without the white space at its start.
pub open spec fn trim_start_of(s: Seq<char>) -> Seq<char>
    decreases s.len(),
{
    if s.len() > 0 && white_space(s[0]) {
        trim_start_of(s.drop_first())
    } else {
        s
    }
}

/// `s` without the white space at its end.
pub open spec fn trim_end_of(s: Seq<char>) -> Seq<char>
    decreases s.len(),
{
    if s.len() > 0 && white_space(s.last()) {
        trim_end_of(s.drop_last())
    } else {
        s
    }
}

/// `s` without the white space at either end.
pub open spec fn trim_of(s: Seq<char>) -> Seq<char> {
    trim_end_of(trim_start_of(s))
}

/// Removes the white space at both ends of a text.
pub fn trim(s: &str) -> (r: String)
    ensures
        r@ == trim_of(s@),
{
    let n = s.unicode_len();
    let mut i: usize = 0;
    assert(s@.subrange(0, n as int) =~= s@);
    while i < n && is_white_space(s.get_char(i))
        invariant
            n == s@.len(),
            0 <= i <= n,
            trim_start_of(s@) == trim_start_of(s@.subrange(i as int, n as int)),
        decreases n - i,
    {
        assert(s@.subrange(i as int, n as int).drop_first() =~= s@.subrange(i as int + 1, n as int));
        i = i + 1;
    }
    assert(trim_start_of(s@) == s@.subrange(i as int, n as int));
    let mut j: usize = n;
    while j > i && is_white_space(s.get_char(j - 1))
        invariant
            n == s@.len(),
            0 <= i <= j <= n,
            trim_of(s@) == trim_end_of(s@.subrange(i as int, j as int)),
        decreases j,
    {
        assert(s@.subrange(i as int, j as int).drop_last() =~= s@.subrange(i as int, j as int - 1));
        j = j - 1;
    }
    String::from_str(s.substring_char(i, j))
}

/// The pieces of `s` between commas, in order; a text without commas is
/// one piece.
pub open spec fn split_commas(s: Seq<char>) -> Seq<Seq<char>>
    decreases s.len(),
{
    if s.len() == 0 {
        seq![Seq::<char>::empty()]
    } else {
        let p = split_commas(s.drop_last());
        if s.last() == ',' {
            p.push(Seq::<char>::empty())
        } else {
            p.update(p.len() - 1, p.last().push(s.last()))
        }
    }
}

proof fn lemma_split_nonempty(s: Seq<char>)
    ensures
        split_commas(s).len() >= 1,
    decreases s.len(),
{
    if s.len() > 0 {
        lemma_split_nonempty(s.drop_last());
    }
}

/// The texts that a vector of strings holds.
pub open spec fn texts(v: Seq<String>) -> Seq<Seq<char>> {
    v.map_values(|x: String| x@)
}

/// The comma-separated items of a list, each trimmed of white space.
pub open spec fn list_items(s: Seq<char>) -> Seq<Seq<char>> {
    split_commas(s).map_values(|x: Seq<char>| trim_of(x))
}

/// Splits a comma-separated list into its items, trimming each.
pub fn split_list(s: &str) -> (r: Vec<String>)
    ensures
        texts(r@) == list_items(s@),
{
    let n = s.unicode_len();
    let mut pieces: Vec<String> = Vec::new();
    let mut cur = String::new();
    let mut i: usize = 0;
    assert(s@.take(0) =~= Seq::<char>::empty());
    assert(texts(pieces@).push(cur@) =~= split_commas(s@.take(0)));
    while i < n
        invariant
            n == s@.len(),
            0 <= i <= n,
            texts(pieces@).push(cur@) == split_commas(s@.take(i as int)),
        decreases n - i,
    {
        let c = s.get_char(i);
        let ghost before = s@.take(i as int);
        assert(s@.take(i as int + 1).drop_last() =~= before);
        proof {
            lemma_split_nonempty(before);
        }
        if c == ',' {
            pieces.push(cur);
            cur = String::new();
            assert(texts(pieces@).push(cur@) =~= split_commas(before).push(Seq::<char>::empty()));
        } else {
            push_char(&mut cur, c);
            let ghost p = split_commas(before);
            assert(texts(pieces@).push(cur@) =~= p.update(p.len() - 1, p.last().push(c)));
        }
        i = i + 1;
    }
    assert(s@.take(n as int) =~= s@);
    pieces.push(cur);
    assert(texts(pieces@) =~= split_commas(s@));
    let mut out: Vec<String> = Vec::new();
    let mut k: usize = 0;
    assert(texts(out@) =~= split_commas(s@).take(0).map_values(|x: Seq<char>| trim_of(x)));
    while k < pieces.len()
        invariant
            0 <= k <= pieces@.len(),
            texts(pieces@) == split_commas(s@),
            texts(out@) == split_commas(s@).take(k as int).map_values(|x: Seq<char>| trim_of(x)),
        decreases pieces@.len() - k,
    {
        let t = trim(pieces[k].as_str());
        assert(texts(pieces@)[k as int] == pieces@[k as int]@);
        let ghost before = out@;
        out.push(t);
        assert(texts(out@) =~= texts(before).push(t@));
        assert(texts(out@) =~= split_commas(s@).take(k as int + 1).map_values(
            |x: Seq<char>| trim_of(x),
        ));
        k = k + 1;
    }
    assert(split_commas(s@).take(k as int) =~= split_commas(s@));
    out
}

/// The host the service binds to when none is set.
pub open spec fn default_host() -> Seq<char> {
    "0.0.0.0"@
}

/// The signing secret used when none is set.
pub open spec fn default_jwt_secret() -> Seq<char> {
    "your_jwt_secret_key_please_change_in_production"@
}

/// The origins allowed when none are set: any.
pub open spec fn default_origins() -> Seq<char> {
    "*"@
}

/// The port the service listens on when none is set.
pub const DEFAULT_PORT: u16 = 8080;

/// The token lifetime in seconds when none is set: one day.
pub const DEFAULT_JWT_EXPIRATION: i64 = 86400;

/// A set value, or the default text.
pub open spec fn or_default(v: Option<String>, d: Seq<char>) -> Seq<char> {
    match v {
        Some(t) => t@,
        None => d,
    }
}

/// Builds the settings from raw values, each absent one taking its default:
/// the database URL is required, the port must be a valid `u16` and the
/// token lifetime a valid `i64`, and the allowed origins are a
/// comma-separated list.
pub fn get_config(vars: ConfigVars) -> (r: Result<Config, ConfigError>)
    ensures
        vars.database_url is None ==> r == Err::<Config, ConfigError>(
            ConfigError::MissingDatabaseUrl,
        ),
        vars.database_url is Some && (vars.server_port matches Some(p) && port_value(p@) is None)
            ==> r == Err::<Config, ConfigError>(ConfigError::InvalidServerPort),
        vars.database_url is Some && !(vars.server_port matches Some(p) && port_value(p@) is None)
            && (vars.jwt_expiration matches Some(e) && i64_value(e@) is None) ==> r == Err::<
            Config,
            ConfigError,
        >(ConfigError::InvalidJwtExpiration),
        r matches Ok(c) ==> {
            &&& vars.database_url matches Some(u) && c.database_url@ == u@
            &&& c.server_host@ == or_default(vars.server_host, default_host())
            &&& match vars.server_port {
                Some(p) => port_value(p@) == Some(c.server_port),
                None => c.server_port == DEFAULT_PORT,
            }
            &&& c.jwt_secret@ == or_default(vars.jwt_secret, default_jwt_secret())
            &&& match vars.jwt_expiration {
                Some(e) => i64_value(e@) == Some(c.jwt_expiration),
                None => c.jwt_expiration == DEFAULT_JWT_EXPIRATION,
            }
            &&& texts(c.cors_allowed_origins@) == list_items(
                or_default(vars.cors_allowed_origins, default_origins()),
            )
        },
        (vars.database_url is Some && !(vars.server_port matches Some(p) && port_value(p@) is None)
            && !(vars.jwt_expiration matches Some(e) && i64_value(e@) is None)) ==> r is Ok,
{
    let database_url = match vars.database_url {
        Some(u) => u,
        None => return Err(ConfigError::MissingDatabaseUrl),
    };
    let server_port = match &vars.server_port {
        Some(p) => match parse_port(p.as_str()) {
            Some(v) => v,
            None => return Err(ConfigError::InvalidServerPort),
        },
        None => DEFAULT_PORT,
    };
    let jwt_expiration = match &vars.jwt_expiration {
        Some(e) => match parse_i64(e.as_str()) {
            Some(v) => v,
            None => return Err(ConfigError::InvalidJwtExpiration),
        },
        None => DEFAULT_JWT_EXPIRATION,
    };
    let server_host = match vars.server_host {
        Some(h) => h,
        None => String::from_str("0.0.0.0"),
    };
    let jwt_secret = match vars.jwt_secret {
        Some(j) => j,
        None => String::from_str("your_jwt_secret_key_please_change_in_production"),
    };
    let cors_allowed_origins = match &vars.cors_allowed_origins {
        Some(o) => split_list(o.as_str()),
        None => split_list("*"),
    };
    Ok(
        Config {
            database_url,
            server_host,
            server_port,
            jwt_secret,
            jwt_expiration,
            cors_allowed_origins,
        },
    )
}

} // verus!
