//! How tor is to be run: through which proxy, over which bridges, and through
//! which firewall ports.
use vstd::prelude::*;

use crate::text::{has_char, law_crlf_trims_away, lemma_split_nonempty, split_on, split_spec, trim, trimmed};

verus! {

//
// Proxies
//

/// The kinds of proxy tor can connect through.
#[derive(Debug, Clone, Copy, PartialEq, Eq, Structural)]
pub enum ProxyType {
    Socks4,
    Socks5,
    Https,
}

/// Why a proxy setting was refused.
#[derive(Debug, Clone, Copy, PartialEq, Eq, Structural)]
pub enum ProxyError {
    /// the host and port do not form an address
    InvalidAddress,
    /// a proxy may not be an onion service
    OnionAddress,
    /// a proxy's port may not be 0
    ZeroPort,
    /// a SOCKS5 user name is limited to 255 bytes
    UsernameTooLong,
    /// a SOCKS5 password is limited to 255 bytes
    PasswordTooLong,
    /// an HTTPS proxy's user name may not contain ':'
    UsernameHasColon,
    /// a SOCKS4 proxy takes no credentials
    NoCredentials,
}

/// What `tor_interface` makes of a host and port as a target address: whether
/// it is an onion service, and the address's host and port; `None` where the
/// text `host:port` is no address.
pub uninterp spec fn target_of(host: Seq<char>, port: u16) -> Option<(bool, Seq<char>, u16)>;

/// Trusted: calls `tor_interface::tor_provider::TargetAddr::try_from((host, port))`,
/// which parses `host:port` as a socket address, an onion address or a domain
/// name, and reads the result's kind, `host()` and `port()`; its result is
/// named `target_of`, a function of the host and port alone.
#[verifier::external_body]
fn parse_target(host: &str, port: u16) -> (r: Option<(bool, String, u16)>)
    ensures
        match r {
            Some((onion, h, p)) => target_of(host@, port) == Some((onion, h@, p)),
            None => target_of(host@, port) is None,
        },
{
    match tor_interface::tor_provider::TargetAddr::try_from((host.to_string(), port)) {
        Ok(a) => Some((matches!(a, tor_interface::tor_provider::TargetAddr::OnionService(_)), a.host(), a.port())),
        Err(_) => None,
    }
}

/// The number of bytes a character takes in UTF-8.
pub open spec fn char_utf8_len(c: char) -> nat {
    if (c as u32) < 0x80 {
        1
    } else if (c as u32) < 0x800 {
        2
    } else if (c as u32) < 0x10000 {
        3
    } else {
        4
    }
}

/// The number of bytes of a text in UTF-8.
pub open spec fn byte_len(s: Seq<char>) -> nat
    decreases s.len(),
{
    if s.len() == 0 {
        0
    } else {
        byte_len(s.drop_last()) + char_utf8_len(s.last())
    }
}

/// Whether a text takes more than `limit` bytes in UTF-8.
pub fn longer_than(s: &str, limit: usize) -> (r: bool)
    requires
        limit <= 255,
    ensures
        r == (byte_len(s@) > limit),
{
    let n = s.unicode_len();
    let mut total: usize = 0;
    let mut i: usize = 0;
    while i < n
        invariant
            n == s@.len(),
            i <= n,
            limit <= 255,
            total == byte_len(s@.take(i as int)),
            total <= limit,
        decreases n - i,
    {
        let c = s.get_char(i);
        let w: usize = if (c as u32) < 0x80 {
            1
        } else if (c as u32) < 0x800 {
            2
        } else if (c as u32) < 0x10000 {
            3
        } else {
            4
        };
        proof {
            assert(s@.take(i + 1).drop_last() =~= s@.take(i as int));
            assert(s@.take(i + 1).last() == c);
        }
        total = total + w;
        i += 1;
        if total > limit {
            proof {
                lemma_byte_len_prefix(s@, i as int);
            }
            return true;
        }
    }
    proof {
        assert(s@.take(n as int) =~= s@);
    }
    false
}

/// A text takes at least as many bytes as any of its prefixes.
pub proof fn lemma_byte_len_prefix(s: Seq<char>, i: int)
    requires
        0 <= i <= s.len(),
    ensures
        byte_len(s.take(i)) <= byte_len(s),
    decreases s.len() - i,
{
    if i < s.len() {
        lemma_byte_len_prefix(s, i + 1);
        assert(s.take(i + 1).drop_last() =~= s.take(i));
    } else {
        assert(s.take(i) =~= s);
    }
}

/// Whether an optional credential is at most 255 bytes long.
pub open spec fn fits_socks5(c: Option<String>) -> bool {
    match c {
        Some(s) => byte_len(s@) <= 255,
        None => true,
    }
}

/// Whether an optional user name is free of ':'.
pub open spec fn colon_free(c: Option<String>) -> bool {
    match c {
        Some(s) => !s@.contains(':'),
        None => true,
    }
}

/// A proxy for tor: its kind, address and credentials, and the host text and
/// port the address was read from, from which tor reads the same address again.
#[derive(Debug, Clone)]
pub struct ProxySettings {
    kind: ProxyType,
    host: String,
    port: u16,
    target_host: String,
    target_port: u16,
    username: Option<String>,
    password: Option<String>,
}

/// A target address with its host as characters.
pub open spec fn target_view(target: Option<(bool, String, u16)>) -> Option<(bool, Seq<char>, u16)> {
    match target {
        Some((onion, h, p)) => Some((onion, h@, p)),
        None => None,
    }
}

/// What a proxy of a kind comes to, given the host text and port it is
/// configured with and the address read from them (whether it is an onion
/// service, its host and its port): refused when there is no address, when it
/// is an onion service or its port is 0, when a SOCKS5 credential is over 255
/// bytes, or when an HTTPS user name holds ':'; else the settings with that
/// address, and with the credentials unless the proxy is SOCKS4.
pub open spec fn proxy_outcome(
    kind: ProxyType,
    target_host: Seq<char>,
    target_port: u16,
    target: Option<(bool, Seq<char>, u16)>,
    username: Option<String>,
    password: Option<String>,
    r: Result<ProxySettings, ProxyError>,
) -> bool {
    match target {
        None => r == Err::<ProxySettings, ProxyError>(ProxyError::InvalidAddress),
        Some((onion, h, p)) => {
            if onion {
                r == Err::<ProxySettings, ProxyError>(ProxyError::OnionAddress)
            } else if p == 0 {
                r == Err::<ProxySettings, ProxyError>(ProxyError::ZeroPort)
            } else if kind == ProxyType::Socks5 && !fits_socks5(username) {
                r == Err::<ProxySettings, ProxyError>(ProxyError::UsernameTooLong)
            } else if kind == ProxyType::Socks5 && !fits_socks5(password) {
                r == Err::<ProxySettings, ProxyError>(ProxyError::PasswordTooLong)
            } else if kind == ProxyType::Https && !colon_free(username) {
                r == Err::<ProxySettings, ProxyError>(ProxyError::UsernameHasColon)
            } else {
                r matches Ok(s) && {
                    &&& s.kind() == kind
                    &&& s.host() == h
                    &&& s.port() == p
                    &&& s.target_host() == target_host
                    &&& s.target_port() == target_port
                    &&& s.username() == if kind == ProxyType::Socks4 { None } else { username }
                    &&& s.password() == if kind == ProxyType::Socks4 { None } else { password }
                }
            }
        },
    }
}

/// Law: an HTTPS proxy at an address that is no onion service and has a
/// port is refused for its user name exactly when that name holds ':'; any
/// other user name (an e-mail address, say), and any password, is accepted
/// and kept as given.
pub proof fn law_https_user_name_refused_only_for_colon(
    target_host: Seq<char>,
    target_port: u16,
    target: Option<(bool, Seq<char>, u16)>,
    username: Option<String>,
    password: Option<String>,
    r: Result<ProxySettings, ProxyError>,
)
    requires
        proxy_outcome(ProxyType::Https, target_host, target_port, target, username, password, r),
        target matches Some((onion, h, p)) && !onion && p != 0,
    ensures
        (r == Err::<ProxySettings, ProxyError>(ProxyError::UsernameHasColon)) <==> (username matches Some(u)
            && u@.contains(':')),
        !(username matches Some(u) && u@.contains(':')) ==> (r matches Ok(s) && s.username() == username
            && s.password() == password),
{
}

/// Law: whatever the kind of proxy, a user name is refused for holding ':'
/// only by an HTTPS proxy, and the credentials of a SOCKS5 or HTTPS proxy
/// that is accepted are those given.
pub proof fn law_colon_refused_only_for_https(
    kind: ProxyType,
    target_host: Seq<char>,
    target_port: u16,
    target: Option<(bool, Seq<char>, u16)>,
    username: Option<String>,
    password: Option<String>,
    r: Result<ProxySettings, ProxyError>,
)
    requires
        proxy_outcome(kind, target_host, target_port, target, username, password, r),
    ensures
        r == Err::<ProxySettings, ProxyError>(ProxyError::UsernameHasColon) ==> (kind == ProxyType::Https
            && (username matches Some(u) && u@.contains(':'))),
        kind != ProxyType::Socks4 ==> (r matches Ok(s) ==> s.username() == username && s.password() == password),
{
}

impl ProxySettings {
    pub closed spec fn kind(&self) -> ProxyType {
        self.kind
    }

    pub closed spec fn host(&self) -> Seq<char> {
        self.host@
    }

    pub closed spec fn port(&self) -> u16 {
        self.port
    }

    pub closed spec fn username(&self) -> Option<String> {
        self.username
    }

    /// The host text the address was read from.
    pub closed spec fn target_host(&self) -> Seq<char> {
        self.target_host@
    }

    /// The port the address was read with.
    pub closed spec fn target_port(&self) -> u16 {
        self.target_port
    }

    pub closed spec fn password(&self) -> Option<String> {
        self.password
    }

    /// The settings for a proxy of a kind at the target address read from
    /// `target_host` and `target_port`: refused when there is no address, when
    /// it is an onion service or its port is 0, when a SOCKS5 credential is over
    /// 255 bytes, or when an HTTPS user name holds ':'. A SOCKS4 proxy keeps no
    /// credentials.
    pub fn from_target(
        kind: ProxyType,
        target_host: &str,
        target_port: u16,
        target: Option<(bool, String, u16)>,
        username: Option<String>,
        password: Option<String>,
    ) -> (r: Result<ProxySettings, ProxyError>)
        ensures
            proxy_outcome(kind, target_host@, target_port, target_view(target), username, password, r),
    {
        let (onion, host, port) = match target {
            Some(t) => t,
            None => return Err(ProxyError::InvalidAddress),
        };
        if onion {
            return Err(ProxyError::OnionAddress);
        }
        if port == 0 {
            return Err(ProxyError::ZeroPort);
        }
        match kind {
            ProxyType::Socks4 => {
                return Ok(ProxySettings {
                    kind,
                    host,
                    port,
                    target_host: String::from_str(target_host),
                    target_port,
                    username: None,
                    password: None,
                });
            },
            ProxyType::Socks5 => {
                if let Some(u) = &username {
                    if longer_than(u.as_str(), 255) {
                        return Err(ProxyError::UsernameTooLong);
                    }
                }
                if let Some(p) = &password {
                    if longer_than(p.as_str(), 255) {
                        return Err(ProxyError::PasswordTooLong);
                    }
                }
            },
            ProxyType::Https => {
                if let Some(u) = &username {
                    if has_char(u.as_str(), ':') {
                        return Err(ProxyError::UsernameHasColon);
                    }
                }
            },
        }
        Ok(ProxySettings {
            kind,
            host,
            port,
            target_host: String::from_str(target_host),
            target_port,
            username,
            password,
        })
    }

    /// A proxy of a kind at `host:port`, with optional credentials (which a
    /// SOCKS4 proxy does not keep); refused as `from_target` says of what
    /// `tor_interface` makes of the address.
    pub fn new(
        kind: ProxyType,
        host: &str,
        port: u16,
        username: Option<String>,
        password: Option<String>,
    ) -> (r: Result<ProxySettings, ProxyError>)
        ensures
            proxy_outcome(kind, host@, port, target_of(host@, port), username, password, r),
            r matches Ok(s) ==> target_of(s.target_host(), s.target_port()) == Some((false, s.host(), s.port())),
    {
        let target = parse_target(host, port);
        Self::from_target(kind, host, port, target, username, password)
    }

    pub fn proxy_type(&self) -> (t: ProxyType)
        ensures
            t == self.kind(),
    {
        self.kind
    }

    /// The proxy's host and port.
    pub fn address(&self) -> (a: (String, u16))
        ensures
            a.0@ == self.host(),
            a.1 == self.port(),
    {
        (self.host.clone(), self.port)
    }

    /// The host text and port the proxy's address was read from; tor reads the
    /// same address from them again.
    pub fn address_text(&self) -> (a: (String, u16))
        ensures
            a.0@ == self.target_host(),
            a.1 == self.target_port(),
    {
        (self.target_host.clone(), self.target_port)
    }

    /// The proxy's user name and password; a SOCKS4 proxy has none to give.
    pub fn credentials(&self) -> (r: Result<(Option<String>, Option<String>), ProxyError>)
        ensures
            self.kind() == ProxyType::Socks4 ==> r == Err::<(Option<String>, Option<String>), ProxyError>(
                ProxyError::NoCredentials,
            ),
            self.kind() != ProxyType::Socks4 ==> (r matches Ok((u, p)) && same_text(u, self.username())
                && same_text(p, self.password())),
    {
        match self.kind {
            ProxyType::Socks4 => Err(ProxyError::NoCredentials),
            _ => Ok((copy_text(&self.username), copy_text(&self.password))),
        }
    }
}

/// Whether two optional texts are both absent or hold the same characters.
pub open spec fn same_text(a: Option<String>, b: Option<String>) -> bool {
    match (a, b) {
        (Some(x), Some(y)) => x@ == y@,
        (None, None) => true,
        _ => false,
    }
}

fn copy_text(t: &Option<String>) -> (r: Option<String>)
    ensures
        same_text(r, *t),
{
    match t {
        Some(s) => Some(s.clone()),
        None => None,
    }
}

//
// Bridges
//

/// The bridge sets tor ships with.
#[derive(Debug, Clone, Copy, PartialEq, Eq, Structural)]
pub enum BuiltInBridge {
    Obfs4,
    Meek,
    Snowflake,
}

/// The kinds of bridge configuration.
#[derive(Debug, Clone, Copy, PartialEq, Eq, Structural)]
pub enum BridgeConfigType {
    BuiltIn,
    Custom,
}

/// Why a bridge configuration was refused.
#[derive(Debug, Clone, Copy, PartialEq, Eq, Structural)]
pub enum BridgeConfigError {
    /// the non-empty line at this position (counting non-empty lines from 0)
    /// is not a bridge line
    InvalidBridgeLine { index: usize },
    /// there is no bridge line at all
    NoBridgeLines,
    /// the configuration is not of the kind asked about
    WrongType,
}

/// The bridges tor is to use: a shipped set, or at least one bridge line of
/// the user's own (kept as `tor_interface` writes them back).
#[derive(Debug, Clone)]
pub enum BridgeConfig {
    BuiltIn { bridge: BuiltInBridge },
    Custom { first: String, rest: Vec<String> },
}

/// How `tor_interface` writes back a bridge line it accepts; `None` for text
/// that is not a bridge line.
pub uninterp spec fn bridge_line_text(line: Seq<char>) -> Option<Seq<char>>;

/// Trusted: calls `tor_interface::censorship_circumvention::BridgeLine::from_str`
/// and, on success, its `to_string`; the result is named `bridge_line_text`, a
/// function of the line alone.
#[verifier::external_body]
fn parse_bridge_line(line: &str) -> (r: Option<String>)
    ensures
        match r {
            Some(t) => bridge_line_text(line@) == Some(t@),
            None => bridge_line_text(line@) is None,
        },
{
    match <tor_interface::censorship_circumvention::BridgeLine as std::str::FromStr>::from_str(line) {
        Ok(b) => Some(b.to_string()),
        Err(_) => None,
    }
}

/// The lines of a text, split at '\n' and trimmed, that are not empty.
pub open spec fn bridge_line_candidates(text: Seq<char>) -> Seq<Seq<char>> {
    split_spec(text, '\n').map_values(|l: Seq<char>| trimmed(l)).filter(|l: Seq<char>| l.len() > 0)
}

/// Law: a pasted text of bridge lines that ends in CR LF gives the same
/// bridge lines as the text without them; the carriage return of a Windows
/// line end stays in no line.
pub proof fn law_crlf_end_gives_same_bridge_lines(text: Seq<char>)
    ensures
        bridge_line_candidates(text.push('\r').push('\n')) == bridge_line_candidates(text),
{
    let f = |l: Seq<char>| trimmed(l);
    let keep = |l: Seq<char>| l.len() > 0;
    let t1 = text.push('\r');
    let t2 = t1.push('\n');
    let rest = split_spec(text, '\n');
    lemma_split_nonempty(text, '\n');
    assert(t2.drop_last() =~= t1);
    assert(t1.drop_last() =~= text);
    assert(split_spec(t2, '\n') == split_spec(t1, '\n').push(Seq::<char>::empty()));
    let last = rest.len() - 1;
    assert(split_spec(t1, '\n') == rest.update(last, rest.last().push('\r')));
    law_crlf_trims_away(rest.last());
    assert(split_spec(t1, '\n').map_values(f) =~= rest.map_values(f));
    assert(split_spec(t2, '\n').map_values(f) =~= rest.map_values(f).push(trimmed(Seq::<char>::empty())));
    assert(trimmed(Seq::<char>::empty()) == Seq::<char>::empty());
    rest.map_values(f).lemma_filter_push(Seq::<char>::empty(), keep);
}

impl BridgeConfig {
    pub fn new_builtin(bridge: BuiltInBridge) -> (c: BridgeConfig)
        ensures
            c == (BridgeConfig::BuiltIn { bridge }),
    {
        BridgeConfig::BuiltIn { bridge }
    }

    pub fn config_type(&self) -> (t: BridgeConfigType)
        ensures
            t == (if self is BuiltIn { BridgeConfigType::BuiltIn } else { BridgeConfigType::Custom }),
    {
        match self {
            BridgeConfig::BuiltIn { .. } => BridgeConfigType::BuiltIn,
            BridgeConfig::Custom { .. } => BridgeConfigType::Custom,
        }
    }

    /// The shipped bridge set; fails for custom bridges.
    pub fn builtin(&self) -> (r: Result<BuiltInBridge, BridgeConfigError>)
        ensures
            match *self {
                BridgeConfig::BuiltIn { bridge } => r == Ok::<BuiltInBridge, BridgeConfigError>(bridge),
                _ => r == Err::<BuiltInBridge, BridgeConfigError>(BridgeConfigError::WrongType),
            },
    {
        match self {
            BridgeConfig::BuiltIn { bridge } => Ok(*bridge),
            _ => Err(BridgeConfigError::WrongType),
        }
    }

    /// Custom bridges from the texts `tor_interface` made of the candidate
    /// lines, in order: refused at the first line it did not accept, or when
    /// there is no line.
    pub fn from_parsed_lines(parsed: Vec<Option<String>>) -> (r: Result<BridgeConfig, BridgeConfigError>)
        ensures
            (exists|i: int| 0 <= i < parsed@.len() && parsed@[i] is None) ==> (
                r matches Err(BridgeConfigError::InvalidBridgeLine { index }) && index < parsed@.len()
                && parsed@[index as int] is None
                && forall|j: int| 0 <= j < index ==> parsed@[j] is Some),
            parsed@.len() == 0 ==> r == Err::<BridgeConfig, BridgeConfigError>(BridgeConfigError::NoBridgeLines),
            (parsed@.len() > 0 && forall|i: int| 0 <= i < parsed@.len() ==> parsed@[i] is Some) ==> (
                r matches Ok(BridgeConfig::Custom { first, rest })
                && (seq![first].add(rest@)).map_values(|t: String| t@)
                == parsed@.map_values(|p: Option<String>| p.unwrap()@)),
    {
        let n = parsed.len();
        let mut lines: Vec<String> = Vec::new();
        let mut i: usize = 0;
        while i < n
            invariant
                n == parsed@.len(),
                i <= n,
                lines@.len() == i,
                forall|j: int| #![trigger parsed@[j]] 0 <= j < i ==> (parsed@[j] matches Some(t) && lines@[j]@ == t@),
            decreases n - i,
        {
            match &parsed[i] {
                Some(t) => {
                    lines.push(t.clone());
                    proof {
                        assert(lines@[i as int]@ == t@);
                    }
                },
                None => {
                    return Err(BridgeConfigError::InvalidBridgeLine { index: i });
                },
            }
            i += 1;
        }
        if n == 0 {
            return Err(BridgeConfigError::NoBridgeLines);
        }
        let first = lines.remove(0);
        proof {
            let want = parsed@.map_values(|p: Option<String>| p.unwrap()@);
            let got = (seq![first].add(lines@)).map_values(|t: String| t@);
            assert(got.len() == want.len());
            assert forall|j: int| 0 <= j < want.len() implies got[j] == want[j] by {
                assert(parsed@[j] is Some);
                if j > 0 {
                    assert(got[j] == lines@[j - 1]@);
                }
            }
            assert(got =~= want);
        }
        Ok(BridgeConfig::Custom { first, rest: lines })
    }

    /// Custom bridges from a text of bridge lines, one per line: lines are
    /// trimmed and empty ones skipped; refused at the first line that is not a
    /// bridge line, or when there is none.
    pub fn new_custom(text: &str) -> (r: Result<BridgeConfig, BridgeConfigError>)
        ensures
            ({
                let parsed = bridge_line_candidates(text@).map_values(|l: Seq<char>| bridge_line_text(l));
                &&& (exists|i: int| 0 <= i < parsed.len() && parsed[i] is None) ==> (
                    r matches Err(BridgeConfigError::InvalidBridgeLine { index }) && index < parsed.len()
                    && parsed[index as int] is None
                    && forall|j: int| 0 <= j < index ==> parsed[j] is Some)
                &&& parsed.len() == 0 ==> r == Err::<BridgeConfig, BridgeConfigError>(BridgeConfigError::NoBridgeLines)
                &&& (parsed.len() > 0 && forall|i: int| 0 <= i < parsed.len() ==> parsed[i] is Some) ==> (
                    r matches Ok(BridgeConfig::Custom { first, rest })
                    && (seq![first].add(rest@)).map_values(|t: String| t@)
                    == parsed.map_values(|p: Option<Seq<char>>| p.unwrap()))
            }),
    {
        let pieces = split_on(text, '\n');
        let ghost cands = bridge_line_candidates(text@);
        let n = pieces.len();
        let mut parsed: Vec<Option<String>> = Vec::new();
        let ghost mut seen: Seq<Seq<char>> = Seq::empty();
        let mut i: usize = 0;
        while i < n
            invariant
                n == pieces@.len(),
                i <= n,
                pieces@.map_values(|p: &str| p@) == split_spec(text@, '\n'),
                seen == pieces@.take(i as int).map_values(|p: &str| trimmed(p@)).filter(|l: Seq<char>| l.len() > 0),
                parsed@.len() == seen.len(),
                forall|k: int| 0 <= k < seen.len() ==> match #[trigger] parsed@[k] {
                    Some(t) => bridge_line_text(seen[k]) == Some(t@),
                    None => bridge_line_text(seen[k]) is None,
                },
            decreases n - i,
        {
            let line = trim(pieces[i]);
            proof {
                assert(pieces@.take(i + 1) =~= pieces@.take(i as int).push(pieces@[i as int]));
                assert(pieces@.take(i + 1).map_values(|p: &str| trimmed(p@))
                    =~= pieces@.take(i as int).map_values(|p: &str| trimmed(p@)).push(trimmed(pieces@[i as int]@)));
                pieces@.take(i as int).map_values(|p: &str| trimmed(p@)).lemma_filter_push(
                    trimmed(pieces@[i as int]@),
                    |l: Seq<char>| l.len() > 0,
                );
            }
            if line.unicode_len() > 0 {
                let p = parse_bridge_line(line);
                parsed.push(p);
                proof {
                    seen = seen.push(line@);
                }
            }
            i += 1;
        }
        proof {
            assert(pieces@.take(n as int) =~= pieces@);
            assert(pieces@.map_values(|p: &str| trimmed(p@)) =~= split_spec(text@, '\n').map_values(|l: Seq<char>| trimmed(l)));
            assert(seen =~= cands);
        }
        let ghost pv = parsed@;
        let r = Self::from_parsed_lines(parsed);
        proof {
            let spec_parsed = cands.map_values(|l: Seq<char>| bridge_line_text(l));
            assert(spec_parsed.len() == pv.len());
            assert forall|k: int| #![trigger pv[k]] #![trigger spec_parsed[k]]
                0 <= k < pv.len() implies (pv[k] is None) == (spec_parsed[k] is None) by {}
            if pv.len() > 0 && forall|k: int| 0 <= k < pv.len() ==> spec_parsed[k] is Some {
                assert(forall|k: int| 0 <= k < pv.len() ==> pv[k] is Some);
                assert(pv.map_values(|p: Option<String>| p.unwrap()@) =~= spec_parsed.map_values(|p: Option<Seq<char>>| p.unwrap()));
            }
            if exists|k: int| 0 <= k < spec_parsed.len() && spec_parsed[k] is None {
                let k = choose|k: int| 0 <= k < spec_parsed.len() && spec_parsed[k] is None;
                assert(pv[k] is None);
            }
        }
        r
    }

    /// The custom bridge lines, joined by '\n'; fails for shipped bridges.
    pub fn bridge_lines(&self) -> (r: Result<String, BridgeConfigError>)
        ensures
            match *self {
                BridgeConfig::Custom { first, rest } => r matches Ok(s)
                    && s@ == joined(seq![first@].add(rest@.map_values(|t: String| t@)), '\n'),
                _ => r == Err::<String, BridgeConfigError>(BridgeConfigError::WrongType),
            },
    {
        match self {
            BridgeConfig::Custom { first, rest } => {
                let mut s = first.clone();
                let n = rest.len();
                let mut i: usize = 0;
                let ghost lines = seq![first@].add(rest@.map_values(|t: String| t@));
                while i < n
                    invariant
                        n == rest@.len(),
                        i <= n,
                        lines == seq![first@].add(rest@.map_values(|t: String| t@)),
                        s@ == joined(lines.take(i + 1), '\n'),
                    decreases n - i,
                {
                    proof {
                        reveal_strlit("\n");
                        assert(lines.take(i + 2).drop_last() =~= lines.take(i + 1));
                        assert(lines.take(i + 2).last() == rest@[i as int]@);
                    }
                    s.append("\n");
                    s.append(rest[i].as_str());
                    i += 1;
                    proof {
                        assert(s@ =~= joined(lines.take(i + 1), '\n'));
                    }
                }
                proof {
                    assert(lines.take(n + 1) =~= lines);
                }
                Ok(s)
            },
            _ => Err(BridgeConfigError::WrongType),
        }
    }
}

/// Texts joined by a separator.
pub open spec fn joined(parts: Seq<Seq<char>>, sep: char) -> Seq<char>
    decreases parts.len(),
{
    if parts.len() == 0 {
        Seq::empty()
    } else if parts.len() == 1 {
        parts[0]
    } else {
        joined(parts.drop_last(), sep) + seq![sep] + parts.last()
    }
}

//
// Firewalls
//

/// The decimal digit of a number below ten.
pub open spec fn digit_char(d: nat) -> char {
    ((48 + d) as u32) as char
}

/// A number written in decimal, without leading zeros.
pub open spec fn decimal(n: nat) -> Seq<char>
    decreases n,
{
    if n < 10 {
        seq![digit_char(n)]
    } else {
        decimal(n / 10).push(digit_char(n % 10))
    }
}

fn digit_text(d: u16) -> (s: &'static str)
    requires
        d < 10,
    ensures
        s@ == seq![digit_char(d as nat)],
{
    proof {
        reveal_strlit("0");
        reveal_strlit("1");
        reveal_strlit("2");
        reveal_strlit("3");
        reveal_strlit("4");
        reveal_strlit("5");
        reveal_strlit("6");
        reveal_strlit("7");
        reveal_strlit("8");
        reveal_strlit("9");
    }
    let s = if d == 0 {
        "0"
    } else if d == 1 {
        "1"
    } else if d == 2 {
        "2"
    } else if d == 3 {
        "3"
    } else if d == 4 {
        "4"
    } else if d == 5 {
        "5"
    } else if d == 6 {
        "6"
    } else if d == 7 {
        "7"
    } else if d == 8 {
        "8"
    } else {
        "9"
    };
    proof {
        assert(s@ =~= seq![digit_char(d as nat)]);
    }
    s
}

/// Writes a number in decimal at the end of a text.
fn push_decimal(s: &mut String, n: u16)
    ensures
        final(s)@ == old(s)@ + decimal(n as nat),
    decreases n,
{
    if n >= 10 {
        push_decimal(s, n / 10);
    }
    s.append(digit_text(n % 10));
    proof {
        if n >= 10 {
            assert(decimal(n as nat) == decimal((n / 10) as nat).push(digit_char((n % 10) as nat)));
        }
        assert(final(s)@ =~= old(s)@ + decimal(n as nat));
    }
}

/// The ports tor may use to get through a firewall.
#[derive(Debug, Clone)]
pub struct FirewallConfig {
    allowed_ports: Vec<u16>,
}

impl FirewallConfig {
    pub closed spec fn ports(&self) -> Seq<u16> {
        self.allowed_ports@
    }

    pub fn new(allowed_ports: Vec<u16>) -> (c: FirewallConfig)
        ensures
            c.ports() == allowed_ports@,
    {
        FirewallConfig { allowed_ports }
    }

    pub fn allowed_ports(&self) -> (p: &Vec<u16>)
        ensures
            p@ == self.ports(),
    {
        &self.allowed_ports
    }

    /// The allowed ports in decimal, separated by commas.
    pub fn allowed_ports_string(&self) -> (r: String)
        ensures
            r@ == joined(self.ports().map_values(|p: u16| decimal(p as nat)), ','),
    {
        let ghost parts = self.ports().map_values(|p: u16| decimal(p as nat));
        let n = self.allowed_ports.len();
        let mut s = String::new();
        let mut i: usize = 0;
        while i < n
            invariant
                n == self.allowed_ports@.len(),
                i <= n,
                parts == self.allowed_ports@.map_values(|p: u16| decimal(p as nat)),
                s@ == joined(parts.take(i as int), ','),
            decreases n - i,
        {
            proof {
                reveal_strlit(",");
                assert(parts.take(i + 1).drop_last() =~= parts.take(i as int));
                assert(parts.take(i + 1).last() == decimal(self.allowed_ports@[i as int] as nat));
            }
            if i > 0 {
                s.append(",");
            }
            push_decimal(&mut s, self.allowed_ports[i]);
            proof {
                if i == 0 {
                    assert(s@ =~= joined(parts.take(1), ','));
                } else {
                    assert(s@ =~= joined(parts.take(i + 1), ','));
                }
            }
            i += 1;
        }
        proof {
            assert(parts.take(n as int) =~= parts);
        }
        s
    }
}

//
// Tor configuration
//

/// How tor is run: the bundled tor daemon, with optional bridges, proxy and firewall.
#[derive(Debug)]
pub struct TorConfig {
    pub bridge_config: Option<BridgeConfig>,
    pub proxy_config: Option<ProxySettings>,
    pub firewall_config: Option<FirewallConfig>,
}

impl TorConfig {
    pub fn new_bundled_tor(
        bridge_config: Option<BridgeConfig>,
        proxy_config: Option<ProxySettings>,
        firewall_config: Option<FirewallConfig>,
    ) -> (c: TorConfig)
        ensures
            c.bridge_config == bridge_config,
            c.proxy_config == proxy_config,
            c.firewall_config == firewall_config,
    {
        TorConfig { bridge_config, proxy_config, firewall_config }
    }

    /// The kind of tor this configuration runs.
    pub fn config_type(&self) -> (t: crate::callbacks::TorConfigType)
        ensures
            t == crate::callbacks::TorConfigType::BundledTor,
    {
        crate::callbacks::TorConfigType::BundledTor
    }
}

} // verus!
