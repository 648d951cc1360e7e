//! WinRT type projections: `Windows.Foundation` (Uri, DateTime, TimeSpan),
//! `Windows.Storage` (StorageFile, StorageFolder), `Windows.UI` (Color,
//! Colors) and `Windows.Networking` (HostName).

use vstd::prelude::*;

use crate::activation::{self, FactoryRegistry};
use crate::text::{
    chars_of, find_char, find_pattern, first_index, first_match, is_digit, last_index,
    lemma_first_index, lemma_last_index, parse_i32, parse_i32_range, push_char, rfind_char,
    string_of_chars, string_of_range,
};

verus! {

// ---------------------------------------------------------------------------
// Windows.Foundation.Uri
// ---------------------------------------------------------------------------

/// `Windows.Foundation.Uri`.
#[derive(Debug, Clone)]
pub struct Uri {
    /// Object handle in the WinRT runtime.
    pub handle: u64,
    /// The URI string as given.
    pub raw_uri: String,
    /// Parsed scheme (e.g. "https").
    pub scheme: String,
    /// Parsed host.
    pub host: String,
    /// Parsed port (-1 if not specified).
    pub port: i32,
    /// Parsed path.
    pub path: String,
    /// Parsed query string (without leading '?').
    pub query: String,
}

/// The scheme: what precedes the first `://`, or nothing when there is none.
pub open spec fn uri_scheme(s: Seq<char>) -> Seq<char> {
    match first_match(s, "://"@) {
        Some(i) => s.take(i),
        None => Seq::empty(),
    }
}

/// What follows the first `://`, or the whole string when there is none.
pub open spec fn uri_rest(s: Seq<char>) -> Seq<char> {
    match first_match(s, "://"@) {
        Some(i) => s.skip(i + "://"@.len()),
        None => s,
    }
}

/// The authority: the rest up to its first `/`.
pub open spec fn uri_authority(s: Seq<char>) -> Seq<char> {
    let rest = uri_rest(s);
    match first_index(rest, '/') {
        Some(i) => rest.take(i),
        None => rest,
    }
}

/// The path and query: the rest from its first `/`, or `/` when it has none.
pub open spec fn uri_path_and_query(s: Seq<char>) -> Seq<char> {
    let rest = uri_rest(s);
    match first_index(rest, '/') {
        Some(i) => rest.skip(i),
        None => seq!['/'],
    }
}

/// The host: the authority up to its first `:`.
pub open spec fn uri_host(s: Seq<char>) -> Seq<char> {
    let a = uri_authority(s);
    match first_index(a, ':') {
        Some(i) => a.take(i),
        None => a,
    }
}

/// The port: what follows the first `:` of the authority, read as an
/// `i32`; -1 when there is no `:` or that text is no `i32`.
pub open spec fn uri_port(s: Seq<char>) -> i32 {
    let a = uri_authority(s);
    match first_index(a, ':') {
        Some(i) => match parse_i32(a.skip(i + 1)) {
            Some(p) => p,
            None => -1i32,
        },
        None => -1i32,
    }
}

/// The path: the path and query up to its first `?`.
pub open spec fn uri_path(s: Seq<char>) -> Seq<char> {
    let pq = uri_path_and_query(s);
    match first_index(pq, '?') {
        Some(i) => pq.take(i),
        None => pq,
    }
}

/// The query: what follows the first `?` of the path and query, or nothing.
pub open spec fn uri_query(s: Seq<char>) -> Seq<char> {
    let pq = uri_path_and_query(s);
    match first_index(pq, '?') {
        Some(i) => pq.skip(i + 1),
        None => Seq::empty(),
    }
}

/// Whether `u` is `s` split into its parts, with handle `handle`.
pub open spec fn uri_parsed(u: Uri, handle: u64, s: Seq<char>) -> bool {
    &&& u.handle == handle
    &&& u.raw_uri@ == s
    &&& u.scheme@ == uri_scheme(s)
    &&& u.host@ == uri_host(s)
    &&& u.port == uri_port(s)
    &&& u.path@ == uri_path(s)
    &&& u.query@ == uri_query(s)
}

/// The handle an activation answered, or 0 when it failed.
pub open spec fn handle_or_zero(a: Result<u64, i32>) -> u64 {
    match a {
        Ok(h) => h,
        Err(_) => 0,
    }
}

/// The characters `cs[lo..hi]`.
fn sub_chars(cs: &Vec<char>, lo: usize, hi: usize) -> (r: Vec<char>)
    requires
        lo <= hi <= cs@.len(),
    ensures
        r@ == cs@.subrange(lo as int, hi as int),
{
    let mut r: Vec<char> = Vec::new();
    let mut i: usize = lo;
    while i < hi
        invariant
            lo <= i <= hi <= cs@.len(),
            r@ == cs@.subrange(lo as int, i as int),
        decreases hi - i,
    {
        r.push(cs[i]);
        assert(r@ =~= cs@.subrange(lo as int, i + 1));
        i = i + 1;
    }
    r
}

impl Uri {
    /// Splits `uri_string` into scheme, host, port, path and query.
    pub fn parse(handle: u64, uri_string: &str) -> (r: Self)
        ensures
            uri_parsed(r, handle, uri_string@),
    {
        let ghost s = uri_string@;
        let cs = chars_of(uri_string);
        let n: usize = cs.len();
        let sep = chars_of("://");
        // scheme :// rest
        let (scheme, rest) = match find_pattern(&cs, &sep) {
            Some(i) => {
                proof {
                    crate::text::lemma_first_match_bounds(cs@, sep@);
                }
                assert(i + sep@.len() <= n);
                let scheme = string_of_range(&cs, 0, i);
                let rest = sub_chars(&cs, i + sep.len(), n);
                assert(scheme@ =~= s.take(i as int));
                assert(rest@ =~= s.skip(i + "://"@.len()));
                (scheme, rest)
            },
            None => {
                let rest = sub_chars(&cs, 0, cs.len());
                assert(rest@ =~= s);
                (String::new(), rest)
            },
        };
        assert(rest@ == uri_rest(s));
        // authority / path-and-query
        let (authority, path_and_query) = match find_char(&rest, '/') {
            Some(i) => {
                proof {
                    lemma_first_index(rest@, '/');
                }
                let a = sub_chars(&rest, 0, i);
                let pq = sub_chars(&rest, i, rest.len());
                assert(a@ =~= rest@.take(i as int));
                assert(pq@ =~= rest@.skip(i as int));
                (a, pq)
            },
            None => (sub_chars(&rest, 0, rest.len()), vec!['/']),
        };
        assert(authority@ =~= uri_authority(s));
        assert(path_and_query@ =~= uri_path_and_query(s));
        // host : port
        let (host, port) = match find_char(&authority, ':') {
            Some(i) => {
                proof {
                    lemma_first_index(authority@, ':');
                }
                let p: i32 = match parse_i32_range(&authority, i + 1, authority.len()) {
                    Some(p) => p,
                    None => -1,
                };
                assert(authority@.subrange(i + 1, authority@.len() as int) =~= authority@.skip(
                    i + 1,
                ));
                let h = string_of_range(&authority, 0, i);
                assert(h@ =~= authority@.take(i as int));
                (h, p)
            },
            None => {
                let h = string_of_chars(&authority);
                (h, -1)
            },
        };
        // path ? query
        let (path, query) = match find_char(&path_and_query, '?') {
            Some(i) => {
                proof {
                    lemma_first_index(path_and_query@, '?');
                }
                let p = string_of_range(&path_and_query, 0, i);
                let q = string_of_range(&path_and_query, i + 1, path_and_query.len());
                assert(p@ =~= path_and_query@.take(i as int));
                assert(q@ =~= path_and_query@.skip(i + 1));
                (p, q)
            },
            None => (string_of_chars(&path_and_query), String::new()),
        };
        Uri { handle, raw_uri: uri_string.to_owned(), scheme, host, port, path, query }
    }

    /// Creates a `Windows.Foundation.Uri` object through the registry and
    /// splits `uri_string` into its parts; the handle is 0 when the
    /// activation fails.
    pub fn create(registry: &mut FactoryRegistry, next_handle: &mut u64, uri_string: &str) -> (r:
        Result<Self, i32>)
        requires
            old(registry).has_factory("Windows.Foundation.Uri"@) ==> *old(next_handle) < u64::MAX,
        ensures
            r matches Ok(u) && uri_parsed(u, u.handle, uri_string@) && exists|a: Result<u64, i32>|
                activation::activation_done(
                    *old(registry),
                    *final(registry),
                    *old(next_handle),
                    *final(next_handle),
                    "Windows.Foundation.Uri"@,
                    a,
                ) && u.handle == handle_or_zero(a),
    {
        let activated = activation::ro_activate_instance(
            registry,
            next_handle,
            "Windows.Foundation.Uri",
        );
        let handle = match activated {
            Ok(h) => h,
            Err(_) => 0,
        };
        let u = Uri::parse(handle, uri_string);
        assert(handle == handle_or_zero(activated));
        Ok(u)
    }

    /// The absolute URI string.
    pub fn absolute_uri(&self) -> (r: &str)
        ensures
            r@ == self.raw_uri@,
    {
        self.raw_uri.as_str()
    }

    /// `IStringable.ToString()`: the URI string as given.
    pub fn to_string(&self) -> (r: String)
        ensures
            r@ == self.raw_uri@,
    {
        self.raw_uri.clone()
    }
}

// ---------------------------------------------------------------------------
// Windows.Foundation.DateTime and TimeSpan
// ---------------------------------------------------------------------------

/// Seconds from 1601-01-01 (the Windows epoch) to 1970-01-01 (the Unix epoch).
pub const EPOCH_DIFF_SECONDS: i64 = 11_644_473_600;

/// 100-nanosecond ticks in one second.
pub const TICKS_PER_SECOND: i64 = 10_000_000;

/// `a / b` rounded toward zero, as Rust's integer division does.
pub open spec fn div_toward_zero(a: int, b: int) -> int {
    if a >= 0 {
        a / b
    } else {
        -((-a) / b)
    }
}

/// `Windows.Foundation.DateTime`: 100-nanosecond intervals since
/// January 1, 1601.
#[derive(Debug, Clone, Copy)]
pub struct DateTime {
    /// Universal time in 100-nanosecond intervals.
    pub universal_time: i64,
}

impl DateTime {
    /// A DateTime at `ticks` 100-nanosecond intervals after the epoch.
    pub fn from_universal_time(ticks: i64) -> (r: Self)
        ensures
            r.universal_time == ticks,
    {
        DateTime { universal_time: ticks }
    }

    /// "Now"; no clock is read, so this is the epoch itself.
    pub fn now() -> (r: Self)
        ensures
            r.universal_time == 0,
    {
        DateTime { universal_time: 0 }
    }

    /// Seconds since 1970-01-01: whole seconds since the Windows epoch
    /// (rounded toward zero) minus the seconds between the two epochs.
    pub fn to_unix_timestamp(&self) -> (r: i64)
        ensures
            r == div_toward_zero(self.universal_time as int, TICKS_PER_SECOND as int)
                - EPOCH_DIFF_SECONDS,
    {
        (self.universal_time / TICKS_PER_SECOND) - EPOCH_DIFF_SECONDS
    }
}

/// `Windows.Foundation.TimeSpan`: a time interval in 100-nanosecond ticks.
#[derive(Debug, Clone, Copy)]
pub struct TimeSpan {
    /// Duration in 100-nanosecond intervals.
    pub duration: i64,
}

impl TimeSpan {
    /// A TimeSpan of `ticks` 100-nanosecond intervals.
    pub fn from_ticks(ticks: i64) -> (r: Self)
        ensures
            r.duration == ticks,
    {
        TimeSpan { duration: ticks }
    }
}

// ---------------------------------------------------------------------------
// Windows.Storage
// ---------------------------------------------------------------------------

/// Position of the last path separator (`/` or `\`) in `s`.
pub open spec fn last_separator(s: Seq<char>) -> Option<int> {
    match (last_index(s, '/'), last_index(s, '\\')) {
        (Some(a), Some(b)) => Some(if a < b { b } else { a }),
        (Some(a), None) => Some(a),
        (None, Some(b)) => Some(b),
        (None, None) => None,
    }
}

/// The file name of a path: what follows its last `/` or `\`, or the whole
/// path when it has neither.
pub open spec fn file_name(path: Seq<char>) -> Seq<char> {
    match last_separator(path) {
        Some(i) => path.skip(i + 1),
        None => path,
    }
}

/// The file type (extension) of a path: `.` and what follows the last `.`
/// of its file name, or nothing when the name has no `.`.
pub open spec fn file_type(path: Seq<char>) -> Seq<char> {
    let name = file_name(path);
    match last_index(name, '.') {
        Some(i) => seq!['.'] + name.skip(i + 1),
        None => Seq::empty(),
    }
}

/// The characters `cs[lo..]`.
fn suffix_from(cs: &Vec<char>, lo: usize) -> (r: Vec<char>)
    requires
        lo <= cs@.len(),
    ensures
        r@ == cs@.skip(lo as int),
{
    let r = sub_chars(cs, lo, cs.len());
    assert(r@ =~= cs@.skip(lo as int));
    r
}

/// The file name of the path `cs`.
fn file_name_exec(cs: &Vec<char>) -> (r: Vec<char>)
    ensures
        r@ == file_name(cs@),
{
    let slash = rfind_char(cs, '/');
    let back = rfind_char(cs, '\\');
    proof {
        lemma_last_index(cs@, '/');
        lemma_last_index(cs@, '\\');
    }
    let n = cs.len();
    let cut: Option<usize> = match (slash, back) {
        (Some(a), Some(b)) => Some(if a < b { b } else { a }),
        (Some(a), None) => Some(a),
        (None, Some(b)) => Some(b),
        (None, None) => None,
    };
    assert(cut == match last_separator(cs@) {
        Some(i) => Some(i as usize),
        None => None::<usize>,
    });
    match cut {
        Some(i) => {
            assert(i < n);
            suffix_from(cs, i + 1)
        },
        None => {
            let r = sub_chars(cs, 0, n);
            assert(r@ =~= cs@);
            r
        },
    }
}

/// The file type of a file name `name`.
fn file_type_of_name(name: &Vec<char>) -> (r: String)
    ensures
        r@ == (match last_index(name@, '.') {
            Some(i) => seq!['.'] + name@.skip(i + 1),
            None => Seq::<char>::empty(),
        }),
{
    match rfind_char(name, '.') {
        Some(i) => {
            proof {
                lemma_last_index(name@, '.');
            }
            assert(i < name.len());
            let ext = suffix_from(name, i + 1);
            let mut ft = String::new();
            push_char(&mut ft, '.');
            let mut k: usize = 0;
            while k < ext.len()
                invariant
                    k <= ext@.len(),
                    ft@ == seq!['.'] + ext@.take(k as int),
                decreases ext@.len() - k,
            {
                push_char(&mut ft, ext[k]);
                assert(ext@.take(k + 1) =~= ext@.take(k as int).push(ext@[k as int]));
                k = k + 1;
            }
            assert(ext@.take(ext@.len() as int) =~= ext@);
            ft
        },
        None => {
            let ft = String::new();
            assert(ft@ =~= Seq::<char>::empty());
            ft
        },
    }
}

/// `Windows.Storage.StorageFile`.
#[derive(Debug, Clone)]
pub struct StorageFile {
    /// Object handle.
    pub handle: u64,
    /// File name.
    pub name: String,
    /// Full file path.
    pub path: String,
    /// File extension (e.g. ".txt").
    pub file_type: String,
    /// File content.
    pub content: Vec<u8>,
}

impl StorageFile {
    /// A StorageFile for `path`, with no content.
    pub fn from_path(path: &str) -> (r: Self)
        ensures
            r.handle == 0,
            r.name@ == file_name(path@),
            r.path@ == path@,
            r.file_type@ == file_type(path@),
            r.content@.len() == 0,
    {
        let cs = chars_of(path);
        let name = file_name_exec(&cs);
        let ft = file_type_of_name(&name);
        StorageFile {
            handle: 0,
            name: string_of_chars(&name),
            path: path.to_owned(),
            file_type: ft,
            content: Vec::new(),
        }
    }
}

/// `Windows.Storage.StorageFolder`.
#[derive(Debug, Clone)]
pub struct StorageFolder {
    /// Object handle.
    pub handle: u64,
    /// Folder name.
    pub name: String,
    /// Full folder path.
    pub path: String,
}

impl StorageFolder {
    /// A StorageFolder for `path`.
    pub fn from_path(path: &str) -> (r: Self)
        ensures
            r.handle == 0,
            r.name@ == file_name(path@),
            r.path@ == path@,
    {
        let cs = chars_of(path);
        let name = file_name_exec(&cs);
        StorageFolder { handle: 0, name: string_of_chars(&name), path: path.to_owned() }
    }
}

// ---------------------------------------------------------------------------
// Windows.UI
// ---------------------------------------------------------------------------

/// A `Windows.UI` color: alpha, red, green, blue.
#[derive(Debug, Clone, Copy, PartialEq, Eq, Structural)]
pub struct Color {
    pub a: u8,
    pub r: u8,
    pub g: u8,
    pub b: u8,
}

/// The 32-bit ARGB value of a color: alpha in the top byte, blue in the bottom one.
pub open spec fn argb_value(c: Color) -> int {
    c.a * 0x1000000 + c.r * 0x10000 + c.g * 0x100 + c.b
}

impl Color {
    /// A color from its components.
    pub fn from_argb(a: u8, r: u8, g: u8, b: u8) -> (c: Self)
        ensures
            c == (Color { a, r, g, b }),
    {
        Color { a, r, g, b }
    }

    /// The 32-bit ARGB value.
    pub fn to_argb(&self) -> (v: u32)
        ensures
            v == argb_value(*self),
    {
        let a = self.a;
        let r = self.r;
        let g = self.g;
        let b = self.b;
        let v = (a as u32) << 24 | (r as u32) << 16 | (g as u32) << 8 | b as u32;
        assert(((a as u32) << 24 | (r as u32) << 16 | (g as u32) << 8 | b as u32) == a * 0x1000000
            + r * 0x10000 + g * 0x100 + b) by (bit_vector);
        v
    }
}

/// `Windows.UI.Colors`: named colors.
pub struct Colors;

impl Colors {
    /// Black, #FF000000.
    pub fn black() -> (c: Color)
        ensures
            c == (Color { a: 255, r: 0, g: 0, b: 0 }),
    {
        Color::from_argb(255, 0, 0, 0)
    }

    /// White, #FFFFFFFF.
    pub fn white() -> (c: Color)
        ensures
            c == (Color { a: 255, r: 255, g: 255, b: 255 }),
    {
        Color::from_argb(255, 255, 255, 255)
    }

    /// Red, #FFFF0000.
    pub fn red() -> (c: Color)
        ensures
            c == (Color { a: 255, r: 255, g: 0, b: 0 }),
    {
        Color::from_argb(255, 255, 0, 0)
    }

    /// Green, #FF008000.
    pub fn green() -> (c: Color)
        ensures
            c == (Color { a: 255, r: 0, g: 128, b: 0 }),
    {
        Color::from_argb(255, 0, 128, 0)
    }

    /// Blue, #FF0000FF.
    pub fn blue() -> (c: Color)
        ensures
            c == (Color { a: 255, r: 0, g: 0, b: 255 }),
    {
        Color::from_argb(255, 0, 0, 255)
    }

    /// Yellow, #FFFFFF00.
    pub fn yellow() -> (c: Color)
        ensures
            c == (Color { a: 255, r: 255, g: 255, b: 0 }),
    {
        Color::from_argb(255, 255, 255, 0)
    }

    /// Cyan, #FF00FFFF.
    pub fn cyan() -> (c: Color)
        ensures
            c == (Color { a: 255, r: 0, g: 255, b: 255 }),
    {
        Color::from_argb(255, 0, 255, 255)
    }

    /// Magenta, #FFFF00FF.
    pub fn magenta() -> (c: Color)
        ensures
            c == (Color { a: 255, r: 255, g: 0, b: 255 }),
    {
        Color::from_argb(255, 255, 0, 255)
    }

    /// Gray, #FF808080.
    pub fn gray() -> (c: Color)
        ensures
            c == (Color { a: 255, r: 128, g: 128, b: 128 }),
    {
        Color::from_argb(255, 128, 128, 128)
    }

    /// Transparent white, #00FFFFFF.
    pub fn transparent() -> (c: Color)
        ensures
            c == (Color { a: 0, r: 255, g: 255, b: 255 }),
    {
        Color::from_argb(0, 255, 255, 255)
    }

    /// Cornflower blue, #FF6495ED.
    pub fn cornflower_blue() -> (c: Color)
        ensures
            c == (Color { a: 255, r: 100, g: 149, b: 237 }),
    {
        Color::from_argb(255, 100, 149, 237)
    }

    /// Orange, #FFFFA500.
    pub fn orange() -> (c: Color)
        ensures
            c == (Color { a: 255, r: 255, g: 165, b: 0 }),
    {
        Color::from_argb(255, 255, 165, 0)
    }

    /// Purple, #FF800080.
    pub fn purple() -> (c: Color)
        ensures
            c == (Color { a: 255, r: 128, g: 0, b: 128 }),
    {
        Color::from_argb(255, 128, 0, 128)
    }
}

// ---------------------------------------------------------------------------
// Windows.Networking.HostName
// ---------------------------------------------------------------------------

/// `Windows.Networking.HostNameType`.
#[derive(Debug, Clone, Copy, PartialEq, Eq, Structural)]
pub enum HostNameType {
    DomainName,
    Ipv4,
    Ipv6,
    Bluetooth,
}

/// `Windows.Networking.HostName`.
#[derive(Debug, Clone)]
pub struct HostName {
    /// Object handle.
    pub handle: u64,
    /// Display name.
    pub display_name: String,
    /// Raw name.
    pub raw_name: String,
    /// Host name type.
    pub host_type: HostNameType,
}

/// The kind of a host name: IPv6 when it holds a `:`, otherwise IPv4 when
/// it holds only decimal digits and dots (the empty name included),
/// otherwise a domain name.
pub open spec fn host_name_kind(s: Seq<char>) -> HostNameType {
    if s.contains(':') {
        HostNameType::Ipv6
    } else if forall|i: int| 0 <= i < s.len() ==> is_digit(#[trigger] s[i]) || s[i] == '.' {
        HostNameType::Ipv4
    } else {
        HostNameType::DomainName
    }
}

impl HostName {
    /// A HostName for `name`, classified by [`host_name_kind`].
    pub fn create(name: &str) -> (r: Self)
        ensures
            r.handle == 0,
            r.display_name@ == name@,
            r.raw_name@ == name@,
            r.host_type == host_name_kind(name@),
    {
        let cs = chars_of(name);
        let host_type = match find_char(&cs, ':') {
            Some(i) => {
                proof {
                    lemma_first_index(cs@, ':');
                }
                HostNameType::Ipv6
            },
            None => {
                proof {
                    lemma_first_index(cs@, ':');
                }
                let mut all = true;
                let mut i: usize = 0;
                while i < cs.len()
                    invariant
                        i <= cs@.len(),
                        all == forall|k: int|
                            0 <= k < i ==> is_digit(#[trigger] cs@[k]) || cs@[k] == '.',
                    decreases cs@.len() - i,
                {
                    let c = cs[i];
                    proof {
                        vstd::utf8::char_is_scalar(c);
                    }
                    let v: u32 = c as u32;
                    if !((48 <= v && v <= 57) || c == '.') {
                        all = false;
                    }
                    i = i + 1;
                }
                if all {
                    HostNameType::Ipv4
                } else {
                    HostNameType::DomainName
                }
            },
        };
        HostName {
            handle: 0,
            display_name: name.to_owned(),
            raw_name: name.to_owned(),
            host_type,
        }
    }

    /// `IStringable.ToString()`: the display name.
    pub fn to_string(&self) -> (r: String)
        ensures
            r@ == self.display_name@,
    {
        self.display_name.clone()
    }
}

// ---------------------------------------------------------------------------
// Laws
// ---------------------------------------------------------------------------

/// The parts of a URI put back together give the string: scheme, `://`
/// and the rest; authority and path-and-query; path, `?` and query. The
/// host holds no `:`, the authority no `/` and the path no `?`.
#[verifier::rlimit(30)]
pub proof fn lemma_uri_recompose(s: Seq<char>)
    ensures
        first_match(s, "://"@) is Some ==> uri_scheme(s) + "://"@ + uri_rest(s) == s,
        first_match(s, "://"@) is None ==> uri_scheme(s).len() == 0 && uri_rest(s) == s,
        first_index(uri_rest(s), '/') is Some ==> uri_authority(s) + uri_path_and_query(s)
            == uri_rest(s),
        first_index(uri_rest(s), '/') is None ==> uri_authority(s) == uri_rest(s)
            && uri_path_and_query(s) == seq!['/'],
        first_index(uri_path_and_query(s), '?') is Some ==> uri_path(s) + seq!['?'] + uri_query(s)
            == uri_path_and_query(s),
        first_index(uri_path_and_query(s), '?') is None ==> uri_path(s) == uri_path_and_query(s)
            && uri_query(s).len() == 0,
        first_index(uri_authority(s), ':') is None ==> uri_host(s) == uri_authority(s) && uri_port(
            s,
        ) == -1,
        !uri_host(s).contains(':'),
        !uri_authority(s).contains('/'),
        !uri_path(s).contains('?'),
{
    crate::text::lemma_first_match_bounds(s, "://"@);
    match first_match(s, "://"@) {
        Some(i) => {
            assert(s.take(i) + "://"@ + s.skip(i + "://"@.len()) =~= s);
        },
        None => {},
    }
    let rest = uri_rest(s);
    lemma_first_index(rest, '/');
    match first_index(rest, '/') {
        Some(i) => {
            assert(rest.take(i) + rest.skip(i) =~= rest);
        },
        None => {},
    }
    let a = uri_authority(s);
    assert(!a.contains('/'));
    lemma_first_index(a, ':');
    assert(!uri_host(s).contains(':'));
    let pq = uri_path_and_query(s);
    lemma_first_index(pq, '?');
    match first_index(pq, '?') {
        Some(i) => {
            assert(pq.take(i) + seq!['?'] + pq.skip(i + 1) =~= pq);
        },
        None => {},
    }
    assert(!uri_path(s).contains('?'));
}

/// How a host name is classified: any name holding a `:` is IPv6; a name
/// without `:` is IPv4 exactly when each of its characters is an ASCII
/// digit `0`-`9` or a `.`; so a name without `:` holding any other
/// character, such as a letter anywhere in it, is a domain name.
pub proof fn lemma_host_name_classes(s: Seq<char>)
    ensures
        s.contains(':') ==> host_name_kind(s) == HostNameType::Ipv6,
        !s.contains(':') ==> ((host_name_kind(s) == HostNameType::Ipv4) <==> (forall|i: int|
            0 <= i < s.len() ==> (48 <= (#[trigger] s[i] as u32) <= 57 || s[i] == '.'))),
        !s.contains(':') && (exists|i: int|
            0 <= i < s.len() && !(48 <= (#[trigger] s[i] as u32) <= 57) && s[i] != '.')
            ==> host_name_kind(s) == HostNameType::DomainName,
        host_name_kind(s) != HostNameType::Bluetooth,
{
}

/// Different colors have different ARGB values.
pub proof fn lemma_argb_injective(c1: Color, c2: Color)
    ensures
        argb_value(c1) == argb_value(c2) ==> c1 == c2,
{
    let (a1, r1, g1, b1) = (c1.a as int, c1.r as int, c1.g as int, c1.b as int);
    let (a2, r2, g2, b2) = (c2.a as int, c2.r as int, c2.g as int, c2.b as int);
    if argb_value(c1) == argb_value(c2) {
        assert(a1 == a2 && r1 == r2 && g1 == g2 && b1 == b2) by (nonlinear_arith)
            requires
                0 <= a1 < 256,
                0 <= r1 < 256,
                0 <= g1 < 256,
                0 <= b1 < 256,
                0 <= a2 < 256,
                0 <= r2 < 256,
                0 <= g2 < 256,
                0 <= b2 < 256,
                a1 * 0x1000000 + r1 * 0x10000 + g1 * 0x100 + b1 == a2 * 0x1000000 + r2 * 0x10000
                    + g2 * 0x100 + b2,
        ;
    }
}

/// The name of a file or folder holds no `/` and no `\`, and is the end
/// of its path; a file type is empty exactly when the name holds no `.`, and
/// otherwise a `.` followed by text that holds no `.`.
pub proof fn lemma_file_name_parts(path: Seq<char>)
    ensures
        !file_name(path).contains('/'),
        !file_name(path).contains('\\'),
        path.skip(path.len() - file_name(path).len()) == file_name(path),
        (file_type(path).len() == 0) <==> !file_name(path).contains('.'),
        file_type(path).len() > 0 ==> file_type(path)[0] == '.' && !file_type(path).skip(
            1,
        ).contains('.'),
{
    lemma_last_index(path, '/');
    lemma_last_index(path, '\\');
    let name = file_name(path);
    lemma_last_index(name, '.');
    if let Some(i) = last_separator(path) {
        assert(path.skip(path.len() - name.len()) =~= name);
    } else {
        assert(path.skip(0) =~= path);
    }
    if let Some(i) = last_index(name, '.') {
        assert(file_type(path).skip(1) =~= name.skip(i + 1));
        assert(name[i] == '.');
    }
}

/// Later moments give later (or equal) Unix timestamps.
pub proof fn lemma_unix_timestamp_monotone(t1: i64, t2: i64)
    requires
        t1 <= t2,
    ensures
        div_toward_zero(t1 as int, TICKS_PER_SECOND as int) <= div_toward_zero(
            t2 as int,
            TICKS_PER_SECOND as int,
        ),
{
    let (a, b) = (t1 as int, t2 as int);
    if a >= 0 {
        assert(a / 10_000_000 <= b / 10_000_000) by (nonlinear_arith)
            requires
                0 <= a <= b,
        ;
    } else if b >= 0 {
        assert(0 <= b / 10_000_000) by (nonlinear_arith)
            requires
                0 <= b,
        ;
        assert(0 <= (-a) / 10_000_000) by (nonlinear_arith)
            requires
                0 <= -a,
        ;
    } else {
        assert((-b) / 10_000_000 <= (-a) / 10_000_000) by (nonlinear_arith)
            requires
                0 <= -b <= -a,
        ;
    }
}

} // verus!
