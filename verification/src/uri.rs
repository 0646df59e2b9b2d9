//! URLs and request targets.

use vstd::prelude::*;

use url::Host as ParsedHost;

verus! {

/// Why a string is not a URL, or why a URL names nothing to connect to.
#[derive(Clone, Copy, Debug, PartialEq, Eq, Structural)]
pub enum UrlError {
    EmptyHost,
    InvalidScheme,
    InvalidPort,
    InvalidIpv4Address,
    InvalidIpv6Address,
    InvalidDomainCharacter,
    InvalidCharacter,
    InvalidBackslash,
    InvalidPercentEncoded,
    InvalidAtSymbolInUser,
    ExpectedTwoSlashes,
    ExpectedInitialSlash,
    NonUrlCodePoint,
    RelativeUrlWithScheme,
    RelativeUrlWithoutBase,
    RelativeUrlWithNonRelativeBase,
    NonAsciiDomainsNotSupportedYet,
    CannotSetJavascriptFragment,
    CannotSetPortWithFileLikeScheme,
    CannotSetUsernameWithNonRelativeScheme,
    CannotSetPasswordWithNonRelativeScheme,
    CannotSetHostPortWithNonRelativeScheme,
    CannotSetHostWithNonRelativeScheme,
    CannotSetPortWithNonRelativeScheme,
    CannotSetPathWithNonRelativeScheme,
}

/// The error that stands at position `code` in the list of parse errors,
/// counted from zero.
pub open spec fn url_error(code: u8) -> Option<UrlError> {
    let all = seq![
        UrlError::EmptyHost,
        UrlError::InvalidScheme,
        UrlError::InvalidPort,
        UrlError::InvalidIpv4Address,
        UrlError::InvalidIpv6Address,
        UrlError::InvalidDomainCharacter,
        UrlError::InvalidCharacter,
        UrlError::InvalidBackslash,
        UrlError::InvalidPercentEncoded,
        UrlError::InvalidAtSymbolInUser,
        UrlError::ExpectedTwoSlashes,
        UrlError::ExpectedInitialSlash,
        UrlError::NonUrlCodePoint,
        UrlError::RelativeUrlWithScheme,
        UrlError::RelativeUrlWithoutBase,
        UrlError::RelativeUrlWithNonRelativeBase,
        UrlError::NonAsciiDomainsNotSupportedYet,
        UrlError::CannotSetJavascriptFragment,
        UrlError::CannotSetPortWithFileLikeScheme,
        UrlError::CannotSetUsernameWithNonRelativeScheme,
        UrlError::CannotSetPasswordWithNonRelativeScheme,
        UrlError::CannotSetHostPortWithNonRelativeScheme,
        UrlError::CannotSetHostWithNonRelativeScheme,
        UrlError::CannotSetPortWithNonRelativeScheme,
        UrlError::CannotSetPathWithNonRelativeScheme,
    ];
    if code < all.len() {
        Some(all[code as int])
    } else {
        None
    }
}

impl UrlError {
    /// The parse error with the given position, if there is one.
    pub fn from_code(code: u8) -> (error: Option<UrlError>)
        ensures
            error == url_error(code),
    {
        match code {
            0 => Some(UrlError::EmptyHost),
            1 => Some(UrlError::InvalidScheme),
            2 => Some(UrlError::InvalidPort),
            3 => Some(UrlError::InvalidIpv4Address),
            4 => Some(UrlError::InvalidIpv6Address),
            5 => Some(UrlError::InvalidDomainCharacter),
            6 => Some(UrlError::InvalidCharacter),
            7 => Some(UrlError::InvalidBackslash),
            8 => Some(UrlError::InvalidPercentEncoded),
            9 => Some(UrlError::InvalidAtSymbolInUser),
            10 => Some(UrlError::ExpectedTwoSlashes),
            11 => Some(UrlError::ExpectedInitialSlash),
            12 => Some(UrlError::NonUrlCodePoint),
            13 => Some(UrlError::RelativeUrlWithScheme),
            14 => Some(UrlError::RelativeUrlWithoutBase),
            15 => Some(UrlError::RelativeUrlWithNonRelativeBase),
            16 => Some(UrlError::NonAsciiDomainsNotSupportedYet),
            17 => Some(UrlError::CannotSetJavascriptFragment),
            18 => Some(UrlError::CannotSetPortWithFileLikeScheme),
            19 => Some(UrlError::CannotSetUsernameWithNonRelativeScheme),
            20 => Some(UrlError::CannotSetPasswordWithNonRelativeScheme),
            21 => Some(UrlError::CannotSetHostPortWithNonRelativeScheme),
            22 => Some(UrlError::CannotSetHostWithNonRelativeScheme),
            23 => Some(UrlError::CannotSetPortWithNonRelativeScheme),
            24 => Some(UrlError::CannotSetPathWithNonRelativeScheme),
            _ => None,
        }
    }
}

/// The host of a URL.
#[derive(Clone, Debug, PartialEq, Eq)]
pub enum Host {
    /// A domain name.
    Domain(String),
    /// An IPv4 address, as the number that its four octets spell in network
    /// order.
    Ipv4(u32),
    /// An IPv6 address, as the number that its eight segments spell in
    /// network order.
    Ipv6(u128),
}

/// A URL taken apart.
#[derive(Clone, Debug, PartialEq, Eq)]
pub struct Url {
    /// The scheme, in lower case.
    pub scheme: String,
    /// What follows the scheme.
    pub scheme_data: SchemeData,
    /// What follows `?`, if there is a `?`.
    pub query: Option<String>,
    /// What follows `#`, if there is a `#`.
    pub fragment: Option<String>,
}

/// The part of a URL whose shape depends on the scheme.
#[derive(Clone, Debug, PartialEq, Eq)]
pub enum SchemeData {
    /// For schemes such as `http`, which name a host and a path on it.
    Relative(RelativeSchemeData),
    /// For schemes such as `mailto`, where nothing more is known.
    NonRelative(String),
}

/// The part of a URL that names a host and a path on it.
///
/// Two such parts are equal where they name the same thing: a port that is the
/// default one may be given or left out.
#[derive(Clone, Debug)]
pub struct RelativeSchemeData {
    pub username: String,
    pub password: Option<String>,
    pub host: Host,
    /// The port, where it is not the default one.
    pub port: Option<u16>,
    /// The port that the scheme implies, if it implies one.
    pub default_port: Option<u16>,
    /// The components of the path.
    pub path: Vec<String>,
}

pub enum HostView {
    Domain(Seq<char>),
    Ipv4(u32),
    Ipv6(u128),
}

pub struct UrlView {
    pub scheme: Seq<char>,
    pub scheme_data: SchemeDataView,
    pub query: Option<Seq<char>>,
    pub fragment: Option<Seq<char>>,
}

pub enum SchemeDataView {
    Relative(RelativeSchemeDataView),
    NonRelative(Seq<char>),
}

pub struct RelativeSchemeDataView {
    pub username: Seq<char>,
    pub password: Option<Seq<char>>,
    pub host: HostView,
    pub port: Option<u16>,
    pub default_port: Option<u16>,
    pub path: Seq<Seq<char>>,
}

/// The text that may be there, as characters.
pub open spec fn text(s: Option<String>) -> Option<Seq<char>> {
    match s {
        Some(s) => Some(s@),
        None => None,
    }
}

impl View for Host {
    type V = HostView;

    open spec fn view(&self) -> HostView {
        match self {
            Host::Domain(d) => HostView::Domain(d@),
            Host::Ipv4(a) => HostView::Ipv4(*a),
            Host::Ipv6(a) => HostView::Ipv6(*a),
        }
    }
}

impl View for RelativeSchemeData {
    type V = RelativeSchemeDataView;

    open spec fn view(&self) -> RelativeSchemeDataView {
        RelativeSchemeDataView {
            username: self.username@,
            password: text(self.password),
            host: self.host@,
            port: self.port,
            default_port: self.default_port,
            path: self.path@.map_values(|s: String| s@),
        }
    }
}

impl View for SchemeData {
    type V = SchemeDataView;

    open spec fn view(&self) -> SchemeDataView {
        match self {
            SchemeData::Relative(d) => SchemeDataView::Relative(d@),
            SchemeData::NonRelative(s) => SchemeDataView::NonRelative(s@),
        }
    }
}

impl View for Url {
    type V = UrlView;

    open spec fn view(&self) -> UrlView {
        UrlView {
            scheme: self.scheme@,
            scheme_data: self.scheme_data@,
            query: text(self.query),
            fragment: text(self.fragment),
        }
    }
}

/// What `url::Url::parse` makes of a string: the parts of the URL, or the
/// position of the error in the list of parse errors.
pub uninterp spec fn url_parsed(input: Seq<char>) -> Result<UrlView, u8>;

/// What `url::Host::serialize` writes between the brackets for an IPv6 address.
pub uninterp spec fn ipv6_text(address: u128) -> Seq<char>;

/// The decimal digits of a number.
pub open spec fn decimal(n: nat) -> Seq<char>
    decreases n,
{
    let digit = (48 + n % 10) as char;
    if n < 10 {
        seq![digit]
    } else {
        decimal(n / 10).push(digit)
    }
}

/// An IPv4 address as its four octets in decimal, with dots between them.
pub open spec fn dotted(address: u32) -> Seq<char> {
    let a = address as nat;
    decimal(a / 0x100_0000).push('.') + decimal(a / 0x1_0000 % 0x100).push('.') + decimal(
        a / 0x100 % 0x100,
    ).push('.') + decimal(a % 0x100)
}

/// An IPv6 address between square brackets.
pub open spec fn bracketed(address: u128) -> Seq<char> {
    seq!['['] + ipv6_text(address) + seq![']']
}

/// The parsed value, as its parts.
pub open spec fn parts_of<E>(r: Result<Url, E>) -> Result<UrlView, E> {
    match r {
        Ok(u) => Ok(u@),
        Err(e) => Err(e),
    }
}

/// Calls `url::Url::parse` and moves the parts of its result over.
///
/// Trusted: what comes back depends on the string alone, which gives it the
/// name `url_parsed`, and an error is one of the twenty-five that the `url`
/// crate lists.
#[verifier::external_body]
fn parse_parts(input: &str) -> (r: Result<Url, u8>)
    ensures
        parts_of(r) == url_parsed(input@),
        r matches Err(code) ==> code < 25,
{
    let u = match url::Url::parse(input) { Ok(u) => u, Err(e) => return Err(e as u8) };
    let scheme_data = match u.scheme_data {
        url::SchemeData::Relative(d) => {
            let host = match d.host {
                ParsedHost::Domain(s) => Host::Domain(s),
                ParsedHost::Ipv4(a) => Host::Ipv4(a.into()),
                ParsedHost::Ipv6(a) => Host::Ipv6(a.into()),
            };
            SchemeData::Relative(RelativeSchemeData { username: d.username, password: d.password,
                host, port: d.port, default_port: d.default_port, path: d.path })
        }
        url::SchemeData::NonRelative(s) => SchemeData::NonRelative(s),
    };
    Ok(Url { scheme: u.scheme, scheme_data, query: u.query, fragment: u.fragment })
}

/// Calls `url::Host::serialize`.
///
/// Trusted: a domain is written as it stands, an IPv4 address in dotted decimal,
/// and an IPv6 address between square brackets. What stands between the brackets
/// depends on the address alone, which gives it the name `ipv6_text`; how it
/// shortens runs of zeros is left unsaid.
#[verifier::external_body]
fn serialize(host: &Host) -> (r: String)
    ensures
        host@ matches HostView::Domain(d) ==> r@ == d,
        host@ matches HostView::Ipv4(a) ==> r@ == dotted(a),
        host@ matches HostView::Ipv6(a) ==> r@ == seq!['['] + ipv6_text(a) + seq![']'],
{
    match host {
        Host::Domain(s) => ParsedHost::Domain(s.clone()).serialize(),
        Host::Ipv4(a) => ParsedHost::Ipv4((*a).into()).serialize(),
        Host::Ipv6(a) => ParsedHost::Ipv6((*a).into()).serialize(),
    }
}

/// What a string means as a URL.
pub open spec fn url_meaning(input: Seq<char>) -> Result<UrlView, UrlError> {
    match url_parsed(input) {
        Ok(u) => Ok(u),
        Err(code) => Err(url_error(code)->0),
    }
}

/// How a host is written.
pub open spec fn written(host: HostView) -> Seq<char> {
    match host {
        HostView::Domain(d) => d,
        HostView::Ipv4(a) => dotted(a),
        HostView::Ipv6(a) => bracketed(a),
    }
}

/// The components of a path, each behind a slash.
pub open spec fn slashed(path: Seq<Seq<char>>) -> Seq<char>
    decreases path.len(),
{
    if path.len() == 0 {
        seq![]
    } else {
        slashed(path.drop_last()).push('/') + path.last()
    }
}

/// The text of a path: a slash alone where it has no components.
pub open spec fn path_text(path: Seq<Seq<char>>) -> Seq<char> {
    if path.len() == 0 {
        seq!['/']
    } else {
        slashed(path)
    }
}

impl UrlView {
    /// The text of the host, where the scheme is one that has hosts.
    pub open spec fn host(self) -> Option<Seq<char>> {
        match self.scheme_data {
            SchemeDataView::Relative(d) => Some(written(d.host)),
            SchemeDataView::NonRelative(_) => None,
        }
    }

    /// The port to use: the one that is given, or else the one that the scheme
    /// implies.
    pub open spec fn port_or_default(self) -> Option<u16> {
        match self.scheme_data {
            SchemeDataView::Relative(d) => if d.port is Some {
                d.port
            } else {
                d.default_port
            },
            SchemeDataView::NonRelative(_) => None,
        }
    }

    /// The text of the path, where the scheme is one that has paths.
    pub open spec fn path(self) -> Option<Seq<char>> {
        match self.scheme_data {
            SchemeDataView::Relative(d) => Some(path_text(d.path)),
            SchemeDataView::NonRelative(_) => None,
        }
    }
}

impl Url {
    /// Parses a string as a URL.
    pub fn parse(input: &str) -> (r: Result<Url, UrlError>)
        ensures
            parts_of(r) == url_meaning(input@),
            r matches Err(e) ==> (url_parsed(input@) matches Err(code) && url_error(code) == Some(
                e,
            )),
    {
        match parse_parts(input) {
            Ok(u) => Ok(u),
            Err(code) => match UrlError::from_code(code) {
                Some(e) => Err(e),
                None => vstd::pervasive::unreached(),
            },
        }
    }

    /// The text of the host.
    pub fn serialize_host(&self) -> (r: Option<String>)
        ensures
            text(r) == self@.host(),
    {
        match &self.scheme_data {
            SchemeData::Relative(d) => Some(serialize(&d.host)),
            SchemeData::NonRelative(_) => None,
        }
    }

    /// The port to connect to.
    pub fn port_or_default(&self) -> (r: Option<u16>)
        ensures
            r == self@.port_or_default(),
    {
        match &self.scheme_data {
            SchemeData::Relative(d) => d.port_or_default(),
            SchemeData::NonRelative(_) => None,
        }
    }

    /// The text of the path.
    pub fn serialize_path(&self) -> (r: Option<String>)
        ensures
            text(r) == self@.path(),
    {
        match &self.scheme_data {
            SchemeData::Relative(d) => Some(serialize_components(&d.path)),
            SchemeData::NonRelative(_) => None,
        }
    }
}

/// The text of a path with the given components.
pub fn serialize_components(path: &Vec<String>) -> (r: String)
    ensures
        r@ == path_text(path@.map_values(|s: String| s@)),
{
    let ghost parts = path@.map_values(|s: String| s@);
    let mut r = String::new();
    proof {
        reveal_strlit("/");
    }
    if path.len() == 0 {
        r.append("/");
        assert(r@ =~= seq!['/']);
        return r;
    }
    let mut i: usize = 0;
    assert(parts.take(0) =~= seq![]);
    while i < path.len()
        invariant
            i <= path.len(),
            parts == path@.map_values(|s: String| s@),
            r@ == slashed(parts.take(i as int)),
            "/"@ =~= seq!['/'],
        decreases path.len() - i,
    {
        r.append("/");
        r.append(path[i].as_str());
        proof {
            let next = parts.take(i + 1);
            assert(next.drop_last() =~= parts.take(i as int));
            assert(next.last() == path@[i as int]@);
            assert(r@ =~= slashed(next));
        }
        i = i + 1;
    }
    assert(parts.take(i as int) =~= parts);
    r
}

impl RelativeSchemeDataView {
    /// The same part with its port spelled out.
    pub open spec fn spelled_out(self) -> RelativeSchemeDataView {
        RelativeSchemeDataView {
            port: if self.port is Some {
                self.port
            } else {
                self.default_port
            },
            ..self
        }
    }
}

/// Whether two optional texts are the same.
fn same_text(a: &Option<String>, b: &Option<String>) -> (r: bool)
    ensures
        r == (text(*a) == text(*b)),
{
    match (a, b) {
        (Some(a), Some(b)) => *a == *b,
        (None, None) => true,
        _ => false,
    }
}

/// Whether two hosts are the same.
fn same_host(a: &Host, b: &Host) -> (r: bool)
    ensures
        r == (a@ == b@),
{
    match (a, b) {
        (Host::Domain(a), Host::Domain(b)) => *a == *b,
        (Host::Ipv4(a), Host::Ipv4(b)) => *a == *b,
        (Host::Ipv6(a), Host::Ipv6(b)) => *a == *b,
        _ => false,
    }
}

/// Whether two paths have the same components.
fn same_path(a: &Vec<String>, b: &Vec<String>) -> (r: bool)
    ensures
        r == (a@.map_values(|s: String| s@) == b@.map_values(|s: String| s@)),
{
    let ghost va = a@.map_values(|s: String| s@);
    let ghost vb = b@.map_values(|s: String| s@);
    if a.len() != b.len() {
        assert(va.len() != vb.len());
        return false;
    }
    let mut i: usize = 0;
    while i < a.len()
        invariant
            i <= a.len(),
            a.len() == b.len(),
            va == a@.map_values(|s: String| s@),
            vb == b@.map_values(|s: String| s@),
            forall|j: int| 0 <= j < i ==> va[j] == vb[j],
        decreases a.len() - i,
    {
        if a[i] != b[i] {
            assert(va[i as int] != vb[i as int]);
            return false;
        }
        i = i + 1;
    }
    assert(va =~= vb);
    true
}

/// Whether two optional ports are the same.
fn same_port(a: Option<u16>, b: Option<u16>) -> (r: bool)
    ensures
        r == (a == b),
{
    match (a, b) {
        (Some(a), Some(b)) => a == b,
        (None, None) => true,
        _ => false,
    }
}

impl RelativeSchemeData {
    /// The port, or else the default one.
    fn port_or_default(&self) -> (r: Option<u16>)
        ensures
            r == self@.spelled_out().port,
    {
        match self.port {
            Some(p) => Some(p),
            None => self.default_port,
        }
    }
}

impl PartialEq for RelativeSchemeData {
    fn eq(&self, other: &RelativeSchemeData) -> (r: bool) {
        self.username == other.username && same_text(&self.password, &other.password)
            && same_host(&self.host, &other.host) && same_port(
            self.port_or_default(),
            other.port_or_default(),
        ) && same_port(self.default_port, other.default_port) && same_path(
            &self.path,
            &other.path,
        )
    }
}

impl vstd::std_specs::cmp::PartialEqSpecImpl for RelativeSchemeData {
    open spec fn obeys_eq_spec() -> bool {
        true
    }

    open spec fn eq_spec(&self, other: &RelativeSchemeData) -> bool {
        self@.spelled_out() == other@.spelled_out()
    }
}

impl Eq for RelativeSchemeData {

}

/// The text of every path begins with a slash.
pub proof fn law_path_begins_with_slash(path: Seq<Seq<char>>)
    ensures
        path_text(path).len() > 0,
        path_text(path)[0] == '/',
    decreases path.len(),
{
    if path.len() > 1 {
        law_path_begins_with_slash(path.drop_last());
    } else if path.len() == 1 {
        assert(slashed(path.drop_last()) == Seq::<char>::empty());
    }
}

/// The position of an error in the list of parse errors, counted from zero.
pub open spec fn position(error: UrlError) -> u8 {
    match error {
        UrlError::EmptyHost => 0,
        UrlError::InvalidScheme => 1,
        UrlError::InvalidPort => 2,
        UrlError::InvalidIpv4Address => 3,
        UrlError::InvalidIpv6Address => 4,
        UrlError::InvalidDomainCharacter => 5,
        UrlError::InvalidCharacter => 6,
        UrlError::InvalidBackslash => 7,
        UrlError::InvalidPercentEncoded => 8,
        UrlError::InvalidAtSymbolInUser => 9,
        UrlError::ExpectedTwoSlashes => 10,
        UrlError::ExpectedInitialSlash => 11,
        UrlError::NonUrlCodePoint => 12,
        UrlError::RelativeUrlWithScheme => 13,
        UrlError::RelativeUrlWithoutBase => 14,
        UrlError::RelativeUrlWithNonRelativeBase => 15,
        UrlError::NonAsciiDomainsNotSupportedYet => 16,
        UrlError::CannotSetJavascriptFragment => 17,
        UrlError::CannotSetPortWithFileLikeScheme => 18,
        UrlError::CannotSetUsernameWithNonRelativeScheme => 19,
        UrlError::CannotSetPasswordWithNonRelativeScheme => 20,
        UrlError::CannotSetHostPortWithNonRelativeScheme => 21,
        UrlError::CannotSetHostWithNonRelativeScheme => 22,
        UrlError::CannotSetPortWithNonRelativeScheme => 23,
        UrlError::CannotSetPathWithNonRelativeScheme => 24,
    }
}

/// Different positions stand for different errors.
pub proof fn law_codes_tell_errors_apart(a: u8, b: u8)
    requires
        url_error(a) is Some,
        url_error(a) == url_error(b),
    ensures
        a == b,
{
}

/// Looking up the position of an error gives the error back, and what is found
/// at a position has that position: nothing is found elsewhere.
pub proof fn law_errors_stand_at_their_positions(
    error: UrlError,
    code: u8,
    found: Option<UrlError>,
    at: Option<UrlError>,
)
    requires
        call_ensures(UrlError::from_code, (code,), found),
        call_ensures(UrlError::from_code, (position(error),), at),
    ensures
        at == Some(error),
        found matches Some(e) ==> position(e) == code,
        found is None <==> code >= 25,
{
}

/// Whether `view` holds what stands in the fields of `url`.
pub open spec fn shows(view: UrlView, url: Url) -> bool {
    &&& view.scheme == url.scheme@
    &&& (view.query is Some) == (url.query is Some)
    &&& url.query matches Some(q) ==> view.query->0 == q@
    &&& (view.fragment is Some) == (url.fragment is Some)
    &&& url.fragment matches Some(f) ==> view.fragment->0 == f@
    &&& match url.scheme_data {
        SchemeData::NonRelative(rest) => view.scheme_data == SchemeDataView::NonRelative(rest@),
        SchemeData::Relative(d) => {
            &&& view.scheme_data matches SchemeDataView::Relative(v)
            &&& v.username == d.username@
            &&& (v.password is Some) == (d.password is Some)
            &&& d.password matches Some(p) ==> v.password->0 == p@
            &&& match d.host {
                Host::Domain(name) => v.host == HostView::Domain(name@),
                Host::Ipv4(a) => v.host == HostView::Ipv4(a),
                Host::Ipv6(a) => v.host == HostView::Ipv6(a),
            }
            &&& v.port == d.port
            &&& v.default_port == d.default_port
            &&& v.path.len() == d.path@.len()
            &&& forall|i: int| 0 <= i < d.path@.len() ==> #[trigger] v.path[i] == d.path@[i]@
        },
    }
}

/// Parsing succeeds exactly where `url::Url::parse` does, and then every field
/// holds what it gave; where it fails, the error is the one at the position that
/// it gave.
pub proof fn law_parsing_keeps_every_part(input: &str, r: Result<Url, UrlError>)
    requires
        call_ensures(Url::parse, (input,), r),
    ensures
        match (r, url_parsed(input@)) {
            (Ok(url), Ok(parsed)) => shows(parsed, url),
            (Err(e), Err(code)) => position(e) == code,
            _ => false,
        },
{
}

/// Whether `name` is how a host is written: a domain as it stands, the four
/// octets of an IPv4 address in decimal between dots, an IPv6 address between
/// brackets.
pub open spec fn names(name: Seq<char>, host: Host) -> bool {
    match host {
        Host::Domain(domain) => name == domain@,
        Host::Ipv4(address) => {
            let octets = split(name, '.');
            &&& octets.len() == 4
            &&& forall|i: int| 0 <= i < 4 ==> is_decimal(#[trigger] octets[i])
            &&& address == ((number(octets[0]) * 256 + number(octets[1])) * 256 + number(octets[2]))
                * 256 + number(octets[3])
            &&& number(octets[1]) < 256 && number(octets[2]) < 256 && number(octets[3]) < 256
        },
        Host::Ipv6(address) => {
            &&& name.len() == ipv6_text(address).len() + 2
            &&& name.first() == '['
            &&& name.last() == ']'
            &&& name.subrange(1, name.len() - 1) == ipv6_text(address)
        },
    }
}

/// The fields between the separators of a text.
pub open spec fn split(s: Seq<char>, separator: char) -> Seq<Seq<char>>
    decreases s.len(),
{
    if s.len() == 0 {
        seq![seq![]]
    } else {
        let front = split(s.drop_last(), separator);
        if s.last() == separator {
            front.push(seq![])
        } else {
            front.drop_last().push(front.last().push(s.last()))
        }
    }
}

/// The number that decimal digits spell.
pub open spec fn number(digits: Seq<char>) -> int
    decreases digits.len(),
{
    if digits.len() == 0 {
        0
    } else {
        number(digits.drop_last()) * 10 + (digits.last() as int - '0' as int)
    }
}

/// Whether a text is a number in decimal, without needless zeros.
pub open spec fn is_decimal(s: Seq<char>) -> bool {
    &&& s.len() > 0
    &&& forall|i: int| 0 <= i < s.len() ==> '0' <= #[trigger] s[i] <= '9'
    &&& s.len() > 1 ==> s[0] != '0'
}

/// The decimal digits of a number spell it.
pub proof fn law_digits_spell_their_number(n: nat)
    ensures
        is_decimal(decimal(n)),
        number(decimal(n)) == n,
        n > 0 ==> decimal(n)[0] != '0',
    decreases n,
{
    let digit = (48 + n % 10) as char;
    assert(digit as int == 48 + n % 10);
    if n < 10 {
        assert(decimal(n) =~= seq![digit]);
        assert(decimal(n).drop_last() =~= seq![]);
        assert(number(seq![]) == 0);
    } else {
        law_digits_spell_their_number(n / 10);
        let front = decimal(n / 10);
        assert(decimal(n) =~= front.push(digit));
        assert(decimal(n).drop_last() =~= front);
        assert forall|i: int| 0 <= i < decimal(n).len() implies '0' <= #[trigger] decimal(n)[i]
            <= '9' by {
            if i < front.len() {
                assert(decimal(n)[i] == front[i]);
            }
        }
    }
}

/// Text without separators stays in the field that it is added to.
proof fn lemma_split_add(s: Seq<char>, t: Seq<char>, separator: char)
    requires
        forall|i: int| 0 <= i < t.len() ==> #[trigger] t[i] != separator,
    ensures
        split(s, separator).len() > 0,
        split(s + t, separator) == split(s, separator).drop_last().push(
            split(s, separator).last() + t,
        ),
    decreases s.len(), t.len(),
{
    let fields = split(s, separator);
    if s.len() > 0 {
        lemma_split_add(s.drop_last(), seq![], separator);
    }
    if t.len() == 0 {
        assert(s + t =~= s);
        assert(fields.last() + t =~= fields.last());
        assert(fields.drop_last().push(fields.last()) =~= fields);
    } else {
        let front = t.drop_last();
        assert forall|i: int| 0 <= i < front.len() implies #[trigger] front[i] != separator by {
            assert(front[i] == t[i]);
        }
        lemma_split_add(s, front, separator);
        assert((s + t).drop_last() =~= s + front);
        assert((s + t).last() == t.last());
        assert(t[t.len() - 1] != separator);
        let before = split(s + front, separator);
        assert(before.drop_last() =~= fields.drop_last());
        assert(before.last() =~= fields.last() + front);
        assert(before.last().push(t.last()) =~= fields.last() + t);
    }
}

/// A separator begins a new field, and text without separators fills it.
proof fn lemma_split_push(s: Seq<char>, separator: char, t: Seq<char>)
    requires
        forall|i: int| 0 <= i < t.len() ==> #[trigger] t[i] != separator,
    ensures
        split(s.push(separator) + t, separator) == split(s, separator).push(t),
{
    let begun = s.push(separator);
    assert(begun.drop_last() =~= s);
    lemma_split_add(begun, t, separator);
    assert(split(begun, separator).drop_last() =~= split(s, separator));
    assert(Seq::<char>::empty() + t =~= t);
}

/// The text of an IPv4 address has its four octets between the dots.
proof fn lemma_split_dotted(address: u32)
    ensures
        split(dotted(address), '.') == seq![
            decimal(address as nat / 0x100_0000),
            decimal(address as nat / 0x1_0000 % 0x100),
            decimal(address as nat / 0x100 % 0x100),
            decimal(address as nat % 0x100),
        ],
{
    let a = address as nat;
    let o0 = decimal(a / 0x100_0000);
    let o1 = decimal(a / 0x1_0000 % 0x100);
    let o2 = decimal(a / 0x100 % 0x100);
    let o3 = decimal(a % 0x100);
    law_digits_spell_their_number(a / 0x100_0000);
    law_digits_spell_their_number(a / 0x1_0000 % 0x100);
    law_digits_spell_their_number(a / 0x100 % 0x100);
    law_digits_spell_their_number(a % 0x100);
    lemma_split_add(seq![], o0, '.');
    assert(Seq::<char>::empty() + o0 =~= o0);
    assert(split(o0, '.') =~= seq![o0]);
    let t1 = o0.push('.') + o1;
    let t2 = t1.push('.') + o2;
    let t3 = t2.push('.') + o3;
    lemma_split_push(o0, '.', o1);
    lemma_split_push(t1, '.', o2);
    lemma_split_push(t2, '.', o3);
    assert(dotted(address) =~= t3);
    assert(split(t3, '.') =~= seq![o0, o1, o2, o3]);
}

/// An IPv4 address can be read back from its text.
pub proof fn law_dotted_addresses_read_back(address: u32)
    ensures
        names(dotted(address), Host::Ipv4(address)),
{
    let a = address as nat;
    let b0 = a / 0x100_0000;
    let b1 = a / 0x1_0000 % 0x100;
    let b2 = a / 0x100 % 0x100;
    let b3 = a % 0x100;
    lemma_split_dotted(address);
    law_digits_spell_their_number(b0);
    law_digits_spell_their_number(b1);
    law_digits_spell_their_number(b2);
    law_digits_spell_their_number(b3);
    assert(a == ((b0 * 256 + b1) * 256 + b2) * 256 + b3);
    let octets = split(dotted(address), '.');
    assert(octets[0] == decimal(b0) && octets[1] == decimal(b1) && octets[2] == decimal(b2)
        && octets[3] == decimal(b3));
    assert forall|i: int| 0 <= i < 4 implies is_decimal(#[trigger] octets[i]) by {
        assert(i == 0 || i == 1 || i == 2 || i == 3);
    }
}

/// The text of a host names it.
proof fn lemma_hosts_are_named(host: Host)
    ensures
        names(written(host@), host),
{
    match host {
        Host::Ipv4(a) => law_dotted_addresses_read_back(a),
        Host::Ipv6(a) => {
            let name = bracketed(a);
            assert(name.subrange(1, name.len() - 1) =~= ipv6_text(a));
        },
        Host::Domain(_) => {},
    }
}

/// The text of a host names it, and there is one exactly where the scheme is one
/// that has hosts.
pub proof fn law_hosts_are_named(url: &Url, r: Option<String>)
    requires
        call_ensures(Url::serialize_host, (url,), r),
    ensures
        match url.scheme_data {
            SchemeData::Relative(d) => r matches Some(name) && names(name@, d.host),
            SchemeData::NonRelative(_) => r is None,
        },
{
    if let SchemeData::Relative(d) = url.scheme_data {
        lemma_hosts_are_named(d.host);
    }
}

/// A port that is given is the port to use, whatever the host; otherwise it is
/// the one that the scheme implies, if it implies one.
pub proof fn law_given_ports_come_first(url: &Url, r: Option<u16>)
    requires
        call_ensures(Url::port_or_default, (url,), r),
    ensures
        match url.scheme_data {
            SchemeData::Relative(d) => match d.port {
                Some(port) => r == Some(port),
                None => r == d.default_port,
            },
            SchemeData::NonRelative(_) => r is None,
        },
{
}

/// Where the slash of the component `i` stands in the text of a path, when each
/// component stands behind a slash.
pub open spec fn slash_of(path: Seq<String>, i: int) -> int
    decreases i,
{
    if i <= 0 {
        0
    } else {
        slash_of(path, i - 1) + 1 + path[i - 1]@.len()
    }
}

/// Whether a text spells a path: each component stands in its place behind a
/// slash, and nothing else is there. A path without components is a slash.
pub open spec fn spells(text: Seq<char>, path: Seq<String>) -> bool {
    if path.len() == 0 {
        text.len() == 1 && text[0] == '/'
    } else {
        &&& text.len() == slash_of(path, path.len() as int)
        &&& forall|i: int|
            0 <= i < path.len() ==> text[#[trigger] slash_of(path, i)] == '/' && text.subrange(
                slash_of(path, i) + 1,
                slash_of(path, i) + 1 + path[i]@.len(),
            ) == path[i]@
    }
}

/// The places of components do not depend on those that follow.
proof fn lemma_slash_of_take(path: Seq<String>, i: int)
    requires
        0 <= i < path.len(),
    ensures
        slash_of(path.drop_last(), i) == slash_of(path, i),
        slash_of(path, i) >= 0,
    decreases i,
{
    if i > 0 {
        lemma_slash_of_take(path, i - 1);
    }
}

/// A component ends before the next one begins.
proof fn lemma_slash_of_grows(path: Seq<String>, i: int, j: int)
    requires
        0 <= i < j <= path.len(),
    ensures
        slash_of(path, i) + 1 + path[i]@.len() <= slash_of(path, j),
    decreases j,
{
    if i < j - 1 {
        lemma_slash_of_grows(path, i, j - 1);
    }
}

/// The components behind their slashes stand in their places.
proof fn lemma_slashed_spells(path: Seq<String>)
    requires
        path.len() > 0,
    ensures
        spells(slashed(path.map_values(|s: String| s@)), path),
    decreases path.len(),
{
    let parts = path.map_values(|s: String| s@);
    let front = path.drop_last();
    let n = path.len() - 1;
    assert(parts.drop_last() =~= front.map_values(|s: String| s@));
    let before = slashed(parts.drop_last());
    let text = slashed(parts);
    assert(parts.last() == path[n]@);
    if n > 0 {
        lemma_slashed_spells(front);
    }
    lemma_slash_of_take(path, n);
    assert(before.len() == slash_of(path, n));
    assert forall|i: int| 0 <= i < path.len() implies text[#[trigger] slash_of(path, i)] == '/'
        && text.subrange(slash_of(path, i) + 1, slash_of(path, i) + 1 + path[i]@.len())
        == path[i]@ by {
        lemma_slash_of_take(path, i);
        let at = slash_of(path, i);
        if i < n {
            assert(slash_of(front, i) == at);
            lemma_slash_of_grows(path, i, n);
            assert(before.subrange(at + 1, at + 1 + path[i]@.len()) == front[i]@);
            assert(text.subrange(at + 1, at + 1 + path[i]@.len()) =~= before.subrange(
                at + 1,
                at + 1 + path[i]@.len(),
            ));
            assert(text[at] == before[at]);
        } else {
            assert(text.subrange(at + 1, at + 1 + path[i]@.len()) =~= path[i]@);
        }
    }
}

/// The text of a path spells it: every component is there, in order and whole,
/// and nothing else.
pub proof fn law_paths_are_spelled_out(path: &Vec<String>, r: String)
    requires
        call_ensures(serialize_components, (path,), r),
    ensures
        spells(r@, path@),
{
    if path@.len() > 0 {
        lemma_slashed_spells(path@);
    }
}

/// The host and the path of a URL are written as its fields say.
pub(crate) proof fn lemma_url_is_written(url: &Url)
    ensures
        url.scheme_data matches SchemeData::Relative(d) ==> names(written(d.host@), d.host)
            && spells(path_text(d@.path), d.path@),
{
    if let SchemeData::Relative(d) = url.scheme_data {
        lemma_hosts_are_named(d.host);
        if d.path@.len() > 0 {
            lemma_slashed_spells(d.path@);
        }
    }
}

/// The path of a URL is spelled out, and there is one exactly where the scheme
/// is one that has paths.
pub proof fn law_urls_are_asked_for_their_whole_path(url: &Url, r: Option<String>)
    requires
        call_ensures(Url::serialize_path, (url,), r),
    ensures
        match url.scheme_data {
            SchemeData::Relative(d) => r matches Some(path) && spells(path@, d.path@),
            SchemeData::NonRelative(_) => r is None,
        },
{
    lemma_url_is_written(url);
}

/// The components of a path, where none of them holds a slash, can be read back
/// from its text: they are what stands between the slashes, behind the first.
pub proof fn law_paths_read_back(path: Seq<Seq<char>>)
    requires
        path.len() > 0,
        forall|i: int, j: int|
            0 <= i < path.len() && 0 <= j < path[i].len() ==> #[trigger] path[i][j] != '/',
    ensures
        split(path_text(path), '/') == seq![Seq::<char>::empty()] + path,
    decreases path.len(),
{
    let front = path.drop_last();
    let last = path.last();
    assert forall|j: int| 0 <= j < last.len() implies #[trigger] last[j] != '/' by {
        assert(path[path.len() - 1][j] != '/');
    }
    if path.len() > 1 {
        assert forall|i: int, j: int|
            0 <= i < front.len() && 0 <= j < front[i].len() implies #[trigger] front[i][j]
            != '/' by {
            assert(path[i][j] != '/');
        }
        law_paths_read_back(front);
    } else {
        assert(slashed(front) =~= seq![]);
        assert(split(slashed(front), '/') =~= seq![Seq::<char>::empty()] + front);
    }
    lemma_split_push(slashed(front), '/', last);
    assert((seq![Seq::<char>::empty()] + front).push(last) =~= seq![Seq::<char>::empty()] + path);
}

/// Two parts of URLs are equal exactly where their fields are, but for a port
/// that is the default one, which may be given or left out.
pub proof fn law_equal_parts_name_the_same(
    a: &RelativeSchemeData,
    b: &RelativeSchemeData,
    r: bool,
)
    requires
        call_ensures(<RelativeSchemeData as PartialEq>::eq, (a, b), r),
    ensures
        r <==> {
            &&& a.username@ == b.username@
            &&& (a.password is Some) == (b.password is Some)
            &&& a.password is Some ==> a.password->0@ == b.password->0@
            &&& match (a.host, b.host) {
                (Host::Domain(x), Host::Domain(y)) => x@ == y@,
                (Host::Ipv4(x), Host::Ipv4(y)) => x == y,
                (Host::Ipv6(x), Host::Ipv6(y)) => x == y,
                _ => false,
            }
            &&& a.default_port == b.default_port
            &&& a.port == b.port || (a.port is None && b.port == a.default_port) || (b.port is None
                && a.port == b.default_port)
            &&& a.path@.len() == b.path@.len()
            &&& forall|i: int| 0 <= i < a.path@.len() ==> #[trigger] a.path@[i]@ == b.path@[i]@
        },
{
    let va = a@.spelled_out();
    let vb = b@.spelled_out();
    let same_paths = a.path@.len() == b.path@.len() && forall|i: int|
        0 <= i < a.path@.len() ==> #[trigger] a.path@[i]@ == b.path@[i]@;
    assert(va.path.len() == a.path@.len() && vb.path.len() == b.path@.len());
    assert forall|i: int| 0 <= i < a.path@.len() implies #[trigger] a.path@[i]@ == va.path[i] by {}
    assert forall|i: int| 0 <= i < b.path@.len() implies #[trigger] b.path@[i]@ == vb.path[i] by {}
    if va.path == vb.path {
        assert(same_paths);
    }
    if same_paths {
        assert forall|i: int| 0 <= i < va.path.len() implies va.path[i] == vb.path[i] by {
            assert(a.path@[i]@ == b.path@[i]@);
        }
        assert(va.path =~= vb.path);
    }
    assert(same_paths <==> va.path == vb.path);
    assert(va.host == vb.host <==> match (a.host, b.host) {
        (Host::Domain(x), Host::Domain(y)) => x@ == y@,
        (Host::Ipv4(x), Host::Ipv4(y)) => x == y,
        (Host::Ipv6(x), Host::Ipv6(y)) => x == y,
        _ => false,
    });
    assert(va == vb <==> va.username == vb.username && va.password == vb.password && va.host
        == vb.host && va.port == vb.port && va.default_port == vb.default_port && va.path
        == vb.path);
}

} // verus!
