//! The values given on the command line and in the credentials: numbers,
//! the PIN, the server address and the URLs of the sockets.
use vstd::prelude::*;
use vstd::string::StrSliceExecFns;

use crate::Error;

verus! {

/// A character that `char::is_whitespace` accepts: the Unicode White_Space
/// property.
pub open spec fn is_white_space(c: char) -> bool {
    ||| c == '\t'
    ||| c == '\n'
    ||| c == '\u{0B}'
    ||| c == '\u{0C}'
    ||| c == '\r'
    ||| c == ' '
    ||| c == '\u{85}'
    ||| c == '\u{A0}'
    ||| c == '\u{1680}'
    ||| ('\u{2000}' <= c && c <= '\u{200A}')
    ||| c == '\u{2028}'
    ||| c == '\u{2029}'
    ||| c == '\u{202F}'
    ||| c == '\u{205F}'
    ||| c == '\u{3000}'
}

fn white_space(c: char) -> (r: bool)
    ensures
        r == is_white_space(c),
{
    c == '\t' || c == '\n' || c == '\u{0B}' || c == '\u{0C}' || c == '\r' || c == ' ' || c == '\u{85}'
        || c == '\u{A0}' || c == '\u{1680}' || ('\u{2000}' <= c && c <= '\u{200A}') || c == '\u{2028}'
        || c == '\u{2029}' || c == '\u{202F}' || c == '\u{205F}' || c == '\u{3000}'
}

/// `s` without its leading white space.
pub open spec fn trim_start(s: Seq<char>) -> Seq<char>
    decreases s.len(),
{
    if s.len() > 0 && is_white_space(s[0]) {
        trim_start(s.drop_first())
    } else {
        s
    }
}

/// `s` without its trailing white space.
pub open spec fn trim_end(s: Seq<char>) -> Seq<char>
    decreases s.len(),
{
    if s.len() > 0 && is_white_space(s.last()) {
        trim_end(s.drop_last())
    } else {
        s
    }
}

/// `s` without leading and trailing white space, as `str::trim` gives it.
pub open spec fn trimmed(s: Seq<char>) -> Seq<char> {
    trim_end(trim_start(s))
}

/// The value of a decimal digit.
pub open spec fn digit_value(c: char) -> int {
    c as int - '0' as int
}

/// Every character of `s` is a decimal digit.
pub open spec fn all_digits(s: Seq<char>) -> bool {
    forall|i: int| 0 <= i < s.len() ==> '0' <= #[trigger] s[i] && s[i] <= '9'
}

/// The number that the digits of `s` write.
pub open spec fn digits_value(s: Seq<char>) -> int
    decreases s.len(),
{
    if s.len() == 0 {
        0
    } else {
        digits_value(s.drop_last()) * 10 + digit_value(s.last())
    }
}

/// The `u32` that `s` writes, as `u32::from_str` reads it: an optional `+`,
/// then at least one decimal digit, the value fitting in 32 bits.
pub open spec fn u32_of(s: Seq<char>) -> Option<u32> {
    let d = if s.len() > 0 && s[0] == '+' {
        s.drop_first()
    } else {
        s
    };
    if d.len() > 0 && all_digits(d) && digits_value(d) <= u32::MAX {
        Some(digits_value(d) as u32)
    } else {
        None
    }
}

proof fn lemma_digits_value_prefix(s: Seq<char>, k: int)
    requires
        all_digits(s),
        0 <= k <= s.len(),
    ensures
        0 <= digits_value(s.take(k)) <= digits_value(s),
    decreases s.len(),
{
    if k == s.len() {
        assert(s.take(k) =~= s);
        lemma_digits_value_nonneg(s);
    } else {
        let t = s.drop_last();
        assert(all_digits(t)) by {
            assert forall|i: int| 0 <= i < t.len() implies '0' <= #[trigger] t[i] && t[i] <= '9' by {
                assert(t[i] == s[i]);
            }
        }
        assert(s.take(k) =~= t.take(k));
        lemma_digits_value_prefix(t, k);
        lemma_digits_value_nonneg(t);
        assert('0' <= s[s.len() - 1]);
    }
}

proof fn lemma_digits_value_nonneg(s: Seq<char>)
    requires
        all_digits(s),
    ensures
        digits_value(s) >= 0,
    decreases s.len(),
{
    if s.len() > 0 {
        let t = s.drop_last();
        assert(all_digits(t)) by {
            assert forall|i: int| 0 <= i < t.len() implies '0' <= #[trigger] t[i] && t[i] <= '9' by {
                assert(t[i] == s[i]);
            }
        }
        lemma_digits_value_nonneg(t);
        assert('0' <= s[s.len() - 1]);
    }
}

/// The digits of `s` from `from` to `to`, read as a `u32`.
fn digits_u32(s: &str, from: usize, to: usize) -> (r: Option<u32>)
    requires
        from <= to <= s@.len(),
    ensures
        ({
            let d = s@.subrange(from as int, to as int);
            r == if d.len() > 0 && all_digits(d) && digits_value(d) <= u32::MAX {
                Some(digits_value(d) as u32)
            } else {
                None
            }
        }),
{
    let ghost d = s@.subrange(from as int, to as int);
    if from == to {
        return None;
    }
    let mut i = from;
    while i < to
        invariant
            from <= i <= to <= s@.len(),
            d == s@.subrange(from as int, to as int),
            forall|j: int| from <= j < i ==> '0' <= #[trigger] s@[j] && s@[j] <= '9',
        decreases to - i,
    {
        let c = s.get_char(i);
        if !('0' <= c && c <= '9') {
            assert(d[i - from] == c);
            return None;
        }
        i = i + 1;
    }
    assert(all_digits(d)) by {
        assert forall|k: int| 0 <= k < d.len() implies '0' <= #[trigger] d[k] && d[k] <= '9' by {
            assert(d[k] == s@[from + k]);
        }
    }
    let mut acc: u64 = 0;
    let mut k = from;
    while k < to
        invariant
            from <= k <= to <= s@.len(),
            d == s@.subrange(from as int, to as int),
            all_digits(d),
            acc == digits_value(d.take(k - from)),
            acc <= u32::MAX,
        decreases to - k,
    {
        let c = s.get_char(k);
        assert(c == d[k - from]);
        assert(d.take(k - from + 1).drop_last() =~= d.take(k - from));
        let digit = (c as u32 - '0' as u32) as u64;
        let next = acc * 10 + digit;
        if next > u32::MAX as u64 {
            proof {
                lemma_digits_value_prefix(d, k - from + 1);
            }
            return None;
        }
        acc = next;
        k = k + 1;
    }
    assert(d.take(d.len() as int) =~= d);
    Some(acc as u32)
}

/// Reads `s` as a `u32`, as `u32::from_str` does.
pub fn parse_u32(s: &str) -> (r: Option<u32>)
    ensures
        r == u32_of(s@),
{
    let n = s.unicode_len();
    if n > 0 && s.get_char(0) == '+' {
        assert(s@.drop_first() =~= s@.subrange(1, n as int));
        digits_u32(s, 1, n)
    } else {
        assert(s@ =~= s@.subrange(0, n as int));
        digits_u32(s, 0, n)
    }
}

/// The bounds of `s` without leading and trailing white space.
fn trim_bounds(s: &str) -> (r: (usize, usize))
    ensures
        r.0 <= r.1 <= s@.len(),
        s@.subrange(r.0 as int, r.1 as int) == trimmed(s@),
{
    let n = s.unicode_len();
    assert(s@.subrange(0, n as int) =~= s@);
    let mut start: usize = 0;
    while start < n && white_space(s.get_char(start))
        invariant
            start <= n == s@.len(),
            trim_start(s@) == trim_start(s@.subrange(start as int, n as int)),
        decreases n - start,
    {
        assert(s@.subrange(start as int, n as int).drop_first() =~= s@.subrange(start as int + 1, n as int));
        start = start + 1;
    }
    assert(trim_start(s@.subrange(start as int, n as int)) == s@.subrange(start as int, n as int));
    let mut end: usize = n;
    while end > start && white_space(s.get_char(end - 1))
        invariant
            start <= end <= n == s@.len(),
            trim_start(s@) == s@.subrange(start as int, n as int),
            trimmed(s@) == trim_end(s@.subrange(start as int, end as int)),
        decreases end,
    {
        assert(s@.subrange(start as int, end as int).drop_last() =~= s@.subrange(start as int, end - 1));
        end = end - 1;
    }
    (start, end)
}

/// The PIN that the contents of a credentials file give: a decimal number,
/// white space around it ignored, of at most six digits' value.
pub open spec fn pin_spec(contents: Seq<char>) -> Result<u32, Seq<char>> {
    match u32_of(trimmed(contents)) {
        None => Err("Could not parse PIN"@),
        Some(n) => if n > 999_999 {
            Err("PIN is a number but not of the right size"@)
        } else {
            Ok(n)
        },
    }
}

/// Reads the PIN from the contents of its file.
pub fn pin_from_contents(contents: &str) -> (r: Result<u32, Error>)
    ensures
        match (r, pin_spec(contents@)) {
            (Ok(a), Ok(b)) => a == b,
            (Err(Error::InvalidInput(m)), Err(n)) => m@ == n,
            _ => false,
        },
{
    let (start, end) = trim_bounds(contents);
    let parsed = if start < end && contents.get_char(start) == '+' {
        assert(trimmed(contents@).drop_first() =~= contents@.subrange(start + 1, end as int));
        digits_u32(contents, start + 1, end)
    } else {
        digits_u32(contents, start, end)
    };
    match parsed {
        None => Err(Error::InvalidInput(String::from_str("Could not parse PIN"))),
        Some(n) => if n > 999_999 {
            Err(Error::InvalidInput(String::from_str("PIN is a number but not of the right size")))
        } else {
            Ok(n)
        },
    }
}

/// Reads the Private Enterprise Number.
pub fn parse_pen(value: &str) -> (r: Result<u32, String>)
    ensures
        match u32_of(value@) {
            Some(n) => r == Ok::<u32, String>(n),
            None => r matches Err(m) && m@ == "PEN is not a valid u32"@,
        },
{
    match parse_u32(value) {
        Some(n) => Ok(n),
        None => Err(String::from_str("PEN is not a valid u32")),
    }
}

/// `s` begins with `prefix`.
pub open spec fn starts_with(s: Seq<char>, prefix: Seq<char>) -> bool {
    prefix.len() <= s.len() && s.take(prefix.len() as int) == prefix
}

/// The address of the server, with the `https://` scheme added where it is
/// not given.
pub fn server_url(addr: &str) -> (r: String)
    ensures
        r@ == if starts_with(addr@, "https://"@) {
            addr@
        } else {
            "https://"@ + addr@
        },
{
    let scheme = "https://";
    proof {
        reveal_strlit("https://");
    }
    let n = addr.unicode_len();
    let mut matches = n >= 8;
    let mut i: usize = 0;
    while matches && i < 8
        invariant
            i <= 8,
            scheme@.len() == 8,
            n == addr@.len(),
            matches ==> n >= 8,
            matches ==> forall|j: int| 0 <= j < i ==> addr@[j] == scheme@[j],
            !matches ==> !starts_with(addr@, scheme@),
        decreases 8 - i,
    {
        if addr.get_char(i) != scheme.get_char(i) {
            matches = false;
            assert(addr@.take(8)[i as int] != scheme@[i as int]);
        }
        i = i + 1;
    }
    if matches {
        assert(addr@.take(8) =~= scheme@);
        String::from_str(addr)
    } else {
        let mut s = String::from_str(scheme);
        s.append(addr);
        s
    }
}

/// The parts of a URL that the sockets' settings read.
#[derive(Clone, Debug, PartialEq, Eq)]
pub struct UrlParts {
    pub scheme: String,
    pub username: String,
    pub has_password: bool,
    pub host: Option<String>,
    pub domain: Option<String>,
    pub port: Option<u16>,
    pub path: String,
    pub has_query: bool,
    pub has_fragment: bool,
    /// The path as a file path, in the bytes of the platform's encoding,
    /// where the URL names a local file.
    pub file_path: Option<Vec<u8>>,
}

/// The parts of a URL as values.
pub struct UrlView {
    pub scheme: Seq<char>,
    pub username: Seq<char>,
    pub has_password: bool,
    pub host: Option<Seq<char>>,
    pub domain: Option<Seq<char>>,
    pub port: Option<u16>,
    pub path: Seq<char>,
    pub has_query: bool,
    pub has_fragment: bool,
    pub file_path: Option<Seq<u8>>,
}

pub open spec fn opt_bytes(o: Option<Vec<u8>>) -> Option<Seq<u8>> {
    match o {
        Some(b) => Some(b@),
        None => None,
    }
}

pub open spec fn opt_view(o: Option<String>) -> Option<Seq<char>> {
    match o {
        Some(s) => Some(s@),
        None => None,
    }
}

impl UrlParts {
    pub open spec fn view(&self) -> UrlView {
        UrlView {
            scheme: self.scheme@,
            username: self.username@,
            has_password: self.has_password,
            host: opt_view(self.host),
            domain: opt_view(self.domain),
            port: self.port,
            path: self.path@,
            has_query: self.has_query,
            has_fragment: self.has_fragment,
            file_path: opt_bytes(self.file_path),
        }
    }
}

/// What the `url` crate parses `value` into, if it is a URL.
pub uninterp spec fn parsed_url(value: Seq<char>) -> Option<UrlView>;

/// The parts of the URL `value`.
///
/// Calls `url::Url::parse(value)` and reads its scheme, username, password,
/// host, domain, port, path, query and fragment, and what `to_file_path`
/// makes of it, as the bytes of the path. The result is named, not stated:
/// it is a function of `value` alone.
#[verifier::external_body]
fn parse_url(value: &str) -> (r: Option<UrlParts>)
    ensures
        match r {
            Some(p) => parsed_url(value@) == Some(p.view()),
            None => parsed_url(value@) is None,
        },
{
    let url = url::Url::parse(value).ok()?;
    Some(UrlParts {
        scheme: url.scheme().to_string(),
        username: url.username().to_string(),
        has_password: url.password().is_some(),
        host: url.host_str().map(String::from),
        domain: url.domain().map(String::from),
        port: url.port(),
        path: url.path().to_string(),
        has_query: url.query().is_some(),
        has_fragment: url.fragment().is_some(),
        file_path: url.to_file_path().ok().map(|p| p.into_os_string().into_encoded_bytes()),
    })
}

/// An IP address: four octets, or sixteen.
#[derive(Clone, Copy, Debug, PartialEq, Eq)]
pub enum IpAddress {
    V4 { octets: [u8; 4] },
    V6 { octets: [u8; 16] },
}

/// The IP address that `host` is written as, if it is one.
pub uninterp spec fn ip_of(host: Seq<char>) -> Option<IpAddress>;

/// The IP address written in `host`, if it is one.
///
/// Calls `str::parse::<IpAddr>` on `host` and hands back the octets of the
/// address. The result is named, not stated: it is a function of `host`
/// alone.
#[verifier::external_body]
fn parse_ip(host: &str) -> (r: Option<IpAddress>)
    ensures
        r == ip_of(host@),
{
    match host.parse::<core::net::IpAddr>() {
        Ok(core::net::IpAddr::V4(a)) => Some(IpAddress::V4 { octets: a.octets() }),
        Ok(core::net::IpAddr::V6(a)) => Some(IpAddress::V6 { octets: a.octets() }),
        Err(_) => None,
    }
}

/// Where the device's socket is.
#[derive(Clone, Debug, PartialEq, Eq)]
pub enum SocketChoice {
    /// A Unix socket, at the file path of the URL, in the bytes of the
    /// platform's encoding.
    Unix { path: Vec<u8> },
    /// A TCP socket at an IP address and port.
    Tcp { ip: IpAddress, port: u16 },
}

/// A socket as values.
pub enum SocketView {
    Unix(Seq<u8>),
    Tcp(IpAddress, u16),
}

/// The default Modbus TCP port.
pub const MODBUS_TCP_PORT: u16 = 502;

/// The socket a URL gives for the device, or why it gives none: `unix://`
/// with a path that names a local file and nothing else, or `tcp://` with an
/// IP address, an optional port (502 by default) and nothing else.
pub open spec fn modbus_socket_spec(u: Option<UrlView>) -> Result<SocketView, Seq<char>> {
    match u {
        None => Err("Unable to parse URL."@),
        Some(u) => if u.scheme == "unix"@ {
            if u.username.len() != 0 || u.has_password || u.host is Some || u.port is Some || u.has_query
                || u.has_fragment {
                Err("Unexpected parts of URL present."@)
            } else {
                match u.file_path {
                    Some(p) => Ok(SocketView::Unix(p)),
                    None => Err("Unable to extract file path from URL"@),
                }
            }
        } else if u.scheme == "tcp"@ {
            if u.username.len() != 0 || u.has_password || !(u.path.len() == 0 || u.path == "/"@)
                || u.has_query || u.has_fragment {
                Err("Unexpected parts of URL present."@)
            } else {
                match u.domain {
                    None => Err("Missing host"@),
                    Some(h) => match ip_of(h) {
                        None => Err("Host is not an IP address"@),
                        Some(ip) => Ok(
                            SocketView::Tcp(
                                ip,
                                match u.port {
                                    Some(p) => p,
                                    None => MODBUS_TCP_PORT,
                                },
                            ),
                        ),
                    },
                }
            }
        } else {
            Err("Unknown modbus socket scheme '"@ + u.scheme + "'"@)
        },
    }
}

/// The choice matches its statement.
pub open spec fn socket_matches(r: Result<SocketChoice, String>, s: Result<SocketView, Seq<char>>) -> bool {
    match (r, s) {
        (Ok(SocketChoice::Unix { path }), Ok(SocketView::Unix(p))) => path@ == p,
        (Ok(SocketChoice::Tcp { ip, port }), Ok(SocketView::Tcp(i, p))) => ip == i && port == p,
        (Err(m), Err(n)) => m@ == n,
        _ => false,
    }
}

fn is_empty_text(s: &String) -> (r: bool)
    ensures
        r == (s@.len() == 0),
{
    s.as_str().unicode_len() == 0
}

fn is_text(s: &String, text: &str) -> (r: bool)
    ensures
        r == (s@ == text@),
{
    let t = String::from_str(text);
    s.eq(&t)
}

/// The socket that the parts of a URL give for the device.
pub fn modbus_socket_choice(parts: Option<UrlParts>) -> (r: Result<SocketChoice, String>)
    ensures
        socket_matches(r, modbus_socket_spec(match parts {
            Some(p) => Some(p.view()),
            None => None,
        })),
{
    proof {
        reveal_strlit("unix");
        reveal_strlit("tcp");
        reveal_strlit("/");
    }
    let u = match parts {
        None => {
            return Err(String::from_str("Unable to parse URL."));
        },
        Some(u) => u,
    };
    if is_text(&u.scheme, "unix") {
        if !is_empty_text(&u.username) || u.has_password || u.host.is_some() || u.port.is_some()
            || u.has_query || u.has_fragment {
            Err(String::from_str("Unexpected parts of URL present."))
        } else {
            match u.file_path {
                Some(path) => Ok(SocketChoice::Unix { path }),
                None => Err(String::from_str("Unable to extract file path from URL")),
            }
        }
    } else if is_text(&u.scheme, "tcp") {
        if !is_empty_text(&u.username) || u.has_password || !(is_empty_text(&u.path) || is_text(&u.path, "/")) || u.has_query || u.has_fragment {
            Err(String::from_str("Unexpected parts of URL present."))
        } else {
            match u.domain {
                None => Err(String::from_str("Missing host")),
                Some(host) => match parse_ip(host.as_str()) {
                    None => Err(String::from_str("Host is not an IP address")),
                    Some(ip) => Ok(
                        SocketChoice::Tcp {
                            ip,
                            port: match u.port {
                                Some(p) => p,
                                None => MODBUS_TCP_PORT,
                            },
                        },
                    ),
                },
            }
        }
    } else {
        let mut m = String::from_str("Unknown modbus socket scheme '");
        m.append(u.scheme.as_str());
        m.append("'");
        Err(m)
    }
}

/// The socket of the device, from its URL.
pub fn parse_modbus_socket(value: &str) -> (r: Result<SocketChoice, String>)
    ensures
        socket_matches(r, modbus_socket_spec(parsed_url(value@))),
{
    modbus_socket_choice(parse_url(value))
}

/// The path of the metrics endpoint that a URL gives, or why it gives none:
/// `unix://` with a path that names a local file and nothing else.
pub open spec fn metrics_url_spec(u: Option<UrlView>) -> Result<Seq<u8>, Seq<char>> {
    match u {
        None => Err("Unable to parse URL."@),
        Some(u) => if u.scheme == "unix"@ {
            if u.username.len() != 0 || u.has_password || u.has_fragment || u.host is Some || u.port is Some
                || u.has_query {
                Err("Unexpected parts of URL present."@)
            } else {
                match u.file_path {
                    Some(p) => Ok(p),
                    None => Err("Unable to extract file path from URL"@),
                }
            }
        } else {
            Err("Metrics endpoint scheme "@ + u.scheme + " not supported."@)
        },
    }
}

/// The result matches its statement.
pub open spec fn path_matches(r: Result<Vec<u8>, String>, s: Result<Seq<u8>, Seq<char>>) -> bool {
    match (r, s) {
        (Ok(path), Ok(p)) => path@ == p,
        (Err(m), Err(n)) => m@ == n,
        _ => false,
    }
}

/// The path of the metrics endpoint that the parts of a URL give, or why
/// they give none.
pub fn metrics_url_choice(parts: Option<UrlParts>) -> (r: Result<Vec<u8>, String>)
    ensures
        path_matches(r, metrics_url_spec(match parts {
            Some(p) => Some(p.view()),
            None => None,
        })),
{
    proof {
        reveal_strlit("unix");
    }
    let u = match parts {
        None => {
            return Err(String::from_str("Unable to parse URL."));
        },
        Some(u) => u,
    };
    if is_text(&u.scheme, "unix") {
        if !is_empty_text(&u.username) || u.has_password || u.has_fragment || u.host.is_some()
            || u.port.is_some() || u.has_query {
            Err(String::from_str("Unexpected parts of URL present."))
        } else {
            match u.file_path {
                Some(path) => Ok(path),
                None => Err(String::from_str("Unable to extract file path from URL")),
            }
        }
    } else {
        let mut m = String::from_str("Metrics endpoint scheme ");
        m.append(u.scheme.as_str());
        m.append(" not supported.");
        Err(m)
    }
}

/// The path of the metrics endpoint, from its URL, or why it gives none.
pub fn parse_metrics_url(value: &str) -> (r: Result<Vec<u8>, String>)
    ensures
        path_matches(r, metrics_url_spec(parsed_url(value@))),
{
    metrics_url_choice(parse_url(value))
}

/// Why a path cannot hold the persisted state.
#[derive(Clone, Copy, Debug, PartialEq, Eq)]
pub enum PathProblem {
    /// The path is a directory, where a file is expected.
    IsDirectory,
    /// The path has no parent directory.
    NoParent,
    /// The parent directory does not exist, and none is created.
    ParentMissing,
}

/// Whether the persisted state is kept at `value`: not where `value` is
/// empty; else only at a path that is not a directory and whose parent
/// exists, or is empty (a bare file name, in the current directory).
pub open spec fn persistence_spec(value: Seq<char>, is_dir: bool, parent: Option<(bool, bool)>) -> Result<bool, PathProblem> {
    if value.len() == 0 {
        Ok(false)
    } else if is_dir {
        Err(PathProblem::IsDirectory)
    } else {
        match parent {
            None => Err(PathProblem::NoParent),
            Some((empty, exists)) => if !empty && !exists {
                Err(PathProblem::ParentMissing)
            } else {
                Ok(true)
            },
        }
    }
}

/// Whether the persisted state is kept at the path `value`, given what the
/// file system says of it: whether it is a directory, and of its parent,
/// if it has one, whether it is empty and whether it exists. `Ok(false)`
/// keeps no state; `Ok(true)` keeps it at `value`.
pub fn persistence_path_choice(value: &str, is_dir: bool, parent: Option<(bool, bool)>) -> (r: Result<bool, PathProblem>)
    ensures
        r == persistence_spec(value@, is_dir, parent),
{
    if value.unicode_len() == 0 {
        Ok(false)
    } else if is_dir {
        Err(PathProblem::IsDirectory)
    } else {
        match parent {
            None => Err(PathProblem::NoParent),
            Some((empty, exists)) => if !empty && !exists {
                Err(PathProblem::ParentMissing)
            } else {
                Ok(true)
            },
        }
    }
}

} // verus!
