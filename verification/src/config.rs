//! Start-up configuration: what the environment must and may set, and the
//! browser origins the API admits.
use vstd::prelude::*;
use vstd::string::*;
use vstd::utf8::encode_utf8;
use crate::text::{owned, parse_u16, spec_parse_u16, spec_trim, trim};

verus! {

/// Object-store settings.
#[derive(Clone)]
pub struct StorageConfig {
    pub endpoint: String,
    pub region: String,
    pub access_key: String,
    pub secret_key: String,
    pub bucket: String,
    pub path_style: bool,
}

/// The server's configuration.
pub struct AppConfig {
    pub port: u16,
    pub database_url: String,
    pub jwt_secret: String,
    pub ws_allowed_origins: String,
    pub storage_endpoint: String,
    pub storage_region: String,
    pub storage_access_key: String,
    pub storage_secret_key: String,
    pub storage_bucket: String,
    pub storage_path_style: bool,
}

/// The values of the configuring environment variables, each absent when
/// the variable is unset (or not valid Unicode).
pub struct EnvValues {
    pub port: Option<String>,
    pub database_url: Option<String>,
    pub jwt_secret: Option<String>,
    pub ws_allowed_origins: Option<String>,
    pub storage_endpoint: Option<String>,
    pub storage_region: Option<String>,
    pub storage_access_key: Option<String>,
    pub storage_secret_key: Option<String>,
    pub storage_bucket: Option<String>,
    pub storage_path_style: Option<String>,
}

/// A required variable is unset.
#[derive(Debug)]
pub struct ConfigError {
    pub message: String,
}

pub const DEFAULT_PORT: u16 = 8080;

/// The port: `PORT` when it holds a valid port number, 8080 otherwise.
pub open spec fn spec_port(v: Option<String>) -> u16 {
    match v {
        Some(p) => match spec_parse_u16(p@) {
            Some(n) => n,
            None => DEFAULT_PORT,
        },
        None => DEFAULT_PORT,
    }
}

/// Path-style addressing: on unless `STORAGE_PATH_STYLE` is set to
/// something other than `true` or `1`.
pub open spec fn spec_path_style(v: Option<String>) -> bool {
    match v {
        Some(s) => s@ == "true"@ || s@ == "1"@,
        None => true,
    }
}

pub open spec fn or_default(v: Option<String>, default: Seq<char>) -> Seq<char> {
    match v {
        Some(s) => s@,
        None => default,
    }
}

fn value_or(v: Option<String>, default: &str) -> (r: String)
    ensures
        r@ == or_default(v, default@),
{
    match v {
        Some(s) => s,
        None => owned(default),
    }
}

fn required(v: Option<String>, message: &str) -> (r: Result<String, ConfigError>)
    ensures
        match v {
            Some(s) => r == Ok::<String, ConfigError>(s),
            None => r matches Err(e) && e.message@ == message@,
        },
{
    match v {
        Some(s) => Ok(s),
        None => Err(ConfigError { message: owned(message) }),
    }
}

/// The configuration was refused with this message.
pub open spec fn fails_with(r: Result<AppConfig, ConfigError>, message: Seq<char>) -> bool {
    r matches Err(e) && e.message@ == message
}

impl AppConfig {
    /// The configuration the environment describes. `DATABASE_URL`,
    /// `JWT_SECRET`, `STORAGE_ACCESS_KEY`, `STORAGE_SECRET_KEY` and
    /// `STORAGE_BUCKET` are required, and the first of them found unset (in
    /// that order) is reported; the rest have defaults.
    pub fn from_env_values(vars: EnvValues) -> (r: Result<AppConfig, ConfigError>)
        ensures
            vars.database_url is None ==> fails_with(r, "DATABASE_URL is required"@),
            vars.database_url is Some && vars.jwt_secret is None ==> fails_with(r, "JWT_SECRET is required"@),
            vars.database_url is Some && vars.jwt_secret is Some && vars.storage_access_key is None
                ==> fails_with(r, "STORAGE_ACCESS_KEY is required"@),
            vars.database_url is Some && vars.jwt_secret is Some && vars.storage_access_key is Some
                && vars.storage_secret_key is None ==> fails_with(r, "STORAGE_SECRET_KEY is required"@),
            vars.database_url is Some && vars.jwt_secret is Some && vars.storage_access_key is Some
                && vars.storage_secret_key is Some && vars.storage_bucket is None
                ==> fails_with(r, "STORAGE_BUCKET is required"@),
            r is Ok <==> (vars.database_url is Some && vars.jwt_secret is Some && vars.storage_access_key is Some
                && vars.storage_secret_key is Some && vars.storage_bucket is Some),
            r matches Ok(c) ==> {
                &&& c.port == spec_port(vars.port)
                &&& Some(c.database_url) == vars.database_url
                &&& Some(c.jwt_secret) == vars.jwt_secret
                &&& c.ws_allowed_origins@ == or_default(
                    vars.ws_allowed_origins,
                    "http://localhost:3000,http://127.0.0.1:3000"@,
                )
                &&& c.storage_endpoint@ == or_default(vars.storage_endpoint, ""@)
                &&& c.storage_region@ == or_default(vars.storage_region, "us-east-1"@)
                &&& Some(c.storage_access_key) == vars.storage_access_key
                &&& Some(c.storage_secret_key) == vars.storage_secret_key
                &&& Some(c.storage_bucket) == vars.storage_bucket
                &&& c.storage_path_style == spec_path_style(vars.storage_path_style)
            },
    {
        let port = match &vars.port {
            Some(p) => match parse_u16(p.as_str()) {
                Some(n) => n,
                None => DEFAULT_PORT,
            },
            None => DEFAULT_PORT,
        };
        let database_url = required(vars.database_url, "DATABASE_URL is required")?;
        let jwt_secret = required(vars.jwt_secret, "JWT_SECRET is required")?;
        let ws_allowed_origins = value_or(vars.ws_allowed_origins, "http://localhost:3000,http://127.0.0.1:3000");
        let storage_endpoint = value_or(vars.storage_endpoint, "");
        let storage_region = value_or(vars.storage_region, "us-east-1");
        let storage_access_key = required(vars.storage_access_key, "STORAGE_ACCESS_KEY is required")?;
        let storage_secret_key = required(vars.storage_secret_key, "STORAGE_SECRET_KEY is required")?;
        let storage_bucket = required(vars.storage_bucket, "STORAGE_BUCKET is required")?;
        let storage_path_style = match &vars.storage_path_style {
            Some(v) => {
                let t = owned("true");
                let one = owned("1");
                *v == t || *v == one
            },
            None => true,
        };
        Ok(AppConfig {
            port,
            database_url,
            jwt_secret,
            ws_allowed_origins,
            storage_endpoint,
            storage_region,
            storage_access_key,
            storage_secret_key,
            storage_bucket,
            storage_path_style,
        })
    }

    /// The object-store part of the configuration.
    pub fn storage_config(&self) -> (r: StorageConfig)
        ensures
            r.endpoint == self.storage_endpoint,
            r.region == self.storage_region,
            r.access_key == self.storage_access_key,
            r.secret_key == self.storage_secret_key,
            r.bucket == self.storage_bucket,
            r.path_style == self.storage_path_style,
    {
        StorageConfig {
            endpoint: self.storage_endpoint.clone(),
            region: self.storage_region.clone(),
            access_key: self.storage_access_key.clone(),
            secret_key: self.storage_secret_key.clone(),
            bucket: self.storage_bucket.clone(),
            path_style: self.storage_path_style,
        }
    }
}

impl StorageConfig {
    /// The endpoint the S3 client is pointed at, unless the configured one
    /// is blank (then the provider's default applies).
    pub fn endpoint_override(&self) -> (r: Option<String>)
        ensures
            match r {
                Some(e) => e == self.endpoint && spec_trim(self.endpoint@).len() > 0,
                None => spec_trim(self.endpoint@).len() == 0,
            },
    {
        if trim(self.endpoint.as_str()).unicode_len() == 0 {
            None
        } else {
            Some(self.endpoint.clone())
        }
    }
}

/// A byte `HeaderValue` admits: visible ASCII, tab, or any byte of a
/// non-ASCII character.
pub open spec fn is_header_value_byte(b: u8) -> bool {
    (b >= 32 && b != 127) || b == 9
}

/// The text can be a header value.
pub open spec fn is_header_value(s: Seq<char>) -> bool {
    let bytes = encode_utf8(s);
    forall|i: int| 0 <= i < bytes.len() ==> is_header_value_byte(#[trigger] bytes[i])
}

/// `HeaderValue::from_str(s).is_ok()`: every byte of the text is one a
/// header value admits.
#[verifier::external_body]
fn header_value_ok(s: &str) -> (r: bool)
    ensures
        r == is_header_value(s@),
{
    axum::http::HeaderValue::from_str(s).is_ok()
}

/// `str::split(',')`: the pieces between commas, empty ones included.
pub open spec fn split_commas(s: Seq<char>) -> Seq<Seq<char>>
    decreases s.len(),
{
    if s.len() == 0 {
        seq![Seq::<char>::empty()]
    } else {
        let rest = split_commas(s.drop_last());
        if s.last() == ',' {
            rest.push(Seq::<char>::empty())
        } else {
            rest.update(rest.len() - 1, rest.last().push(s.last()))
        }
    }
}

/// The trimmed pieces that can be header values, in order.
pub open spec fn usable_origins(pieces: Seq<Seq<char>>) -> Seq<Seq<char>>
    decreases pieces.len(),
{
    if pieces.len() == 0 {
        seq![]
    } else {
        let rest = usable_origins(pieces.drop_last());
        let t = spec_trim(pieces.last());
        if is_header_value(t) {
            rest.push(t)
        } else {
            rest
        }
    }
}

/// The origins a browser may call the API from.
#[derive(Debug, PartialEq, Eq)]
pub enum AllowedOrigins {
    Any,
    List(Vec<String>),
}

/// The origin policy a configured list describes: `*` admits any origin;
/// otherwise the comma-separated entries, trimmed, that can be header
/// values; and any origin when none can.
pub open spec fn spec_allowed_origins(s: Seq<char>) -> Option<Seq<Seq<char>>> {
    if spec_trim(s) == "*"@ {
        None
    } else {
        let l = usable_origins(split_commas(s));
        if l.len() == 0 {
            None
        } else {
            Some(l)
        }
    }
}

pub open spec fn views(v: Seq<String>) -> Seq<Seq<char>> {
    v.map_values(|p: String| p@)
}

fn split_on_commas(s: &str) -> (r: Vec<String>)
    ensures
        views(r@) == split_commas(s@),
{
    let n = s.unicode_len();
    let mut pieces: Vec<String> = Vec::new();
    let mut start: usize = 0;
    let mut i: usize = 0;
    assert(s@.take(0) =~= Seq::<char>::empty());
    assert(views(pieces@).push(s@.subrange(0, 0)) =~= seq![Seq::<char>::empty()]);
    while i < n
        invariant
            n == s@.len(),
            start <= i <= n,
            views(pieces@).push(s@.subrange(start as int, i as int)) == split_commas(s@.take(i as int)),
        decreases n - i,
    {
        let c = s.get_char(i);
        let ghost before = s@.take(i as int);
        let ghost old_pieces = views(pieces@);
        assert(s@.take(i + 1).drop_last() =~= before);
        assert(s@.take(i + 1).last() == c);
        if c == ',' {
            let ghost old_start = start;
            pieces.push(owned(s.substring_char(start, i)));
            start = i + 1;
            assert(views(pieces@) =~= old_pieces.push(s@.subrange(old_start as int, i as int)));
            assert(s@.subrange(start as int, (i + 1) as int) =~= Seq::<char>::empty());
        } else {
            let ghost rest = split_commas(before);
            assert(rest.last() == s@.subrange(start as int, i as int));
            assert(s@.subrange(start as int, (i + 1) as int) =~= s@.subrange(start as int, i as int).push(c));
            assert(old_pieces.push(s@.subrange(start as int, (i + 1) as int)) =~= rest.update(
                rest.len() - 1,
                rest.last().push(c),
            ));
        }
        i = i + 1;
    }
    pieces.push(owned(s.substring_char(start, n)));
    assert(s@.take(n as int) =~= s@);
    assert(views(pieces@) =~= views(pieces@.drop_last()).push(s@.subrange(start as int, n as int)));
    pieces
}

/// The origins admitted by the configured list (`WS_ALLOWED_ORIGINS`).
pub fn parse_allowed_origins(allowed: &str) -> (r: AllowedOrigins)
    ensures
        match spec_allowed_origins(allowed@) {
            None => r is Any,
            Some(l) => r matches AllowedOrigins::List(v) && views(v@) == l,
        },
{
    let star = owned("*");
    let trimmed = owned(trim(allowed));
    if trimmed == star {
        return AllowedOrigins::Any;
    }
    let pieces = split_on_commas(allowed);
    let ghost pv = views(pieces@);
    let mut origins: Vec<String> = Vec::new();
    for k in 0..pieces.len()
        invariant
            pv == views(pieces@),
            views(origins@) == usable_origins(pv.take(k as int)),
    {
        let t = trim(pieces[k].as_str());
        assert(pv.take(k + 1).drop_last() =~= pv.take(k as int));
        assert(pv.take(k + 1).last() == pieces@[k as int]@);
        if header_value_ok(t) {
            origins.push(owned(t));
            assert(views(origins@) =~= usable_origins(pv.take(k as int)).push(t@));
        }
    }
    assert(pv.take(pieces.len() as int) =~= pv);
    if origins.len() == 0 {
        AllowedOrigins::Any
    } else {
        AllowedOrigins::List(origins)
    }
}

} // verus!
