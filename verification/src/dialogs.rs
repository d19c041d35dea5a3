//! What the dialog windows decide and show: the IP address fields, the
//! settings form's checks, the connection test's report, the status
//! dashboard's lines and the dialog locks. Drawing the windows is the
//! caller's part.

use vstd::prelude::*;
use vstd::string::StringExecFns;
use crate::api::Location;
use crate::config::AppConfig;
use crate::locale::{arg_views, fill, lookup, t, t_fmt, Translations};
use crate::system::{views, Platform};
use crate::text::{
    chars_equal, chars_of, contains, contains_seq, decimal, decimal_string, has_prefix, is_ascii_digit,
    is_digit, parse_unsigned, parse_unsigned_at_most, push_char, slice_chars, split_char,
    split_on_char, starts_with, string_of, to_lowercase, trim, trim_chars, trim_end_char,
    trim_end_char_len, unicode_lowercase,
};

verus! {

// ---------------------------------------------------------------------------
// IP address fields
// ---------------------------------------------------------------------------

/// `s` split at `c` into at most four pieces, the last holding the rest
/// (`str::splitn(4, c)`).
pub open spec fn splitn4(s: Seq<char>, c: char) -> Seq<Seq<char>> {
    let p = split_char(s, c);
    if p.len() <= 4 {
        p
    } else {
        p.take(3).push(join_with(p.skip(3), c))
    }
}

/// The pieces joined with `c` between them.
pub open spec fn join_with(ps: Seq<Seq<char>>, c: char) -> Seq<char>
    decreases ps.len(),
{
    if ps.len() == 0 {
        Seq::empty()
    } else if ps.len() == 1 {
        ps[0]
    } else {
        join_with(ps.drop_last(), c).push(c) + ps.last()
    }
}

fn join_chars(ps: &Vec<Vec<char>>, from: usize, c: char) -> (r: Vec<char>)
    requires
        from <= ps@.len(),
    ensures
        r@ == join_with(ps@.skip(from as int).map_values(|p: Vec<char>| p@), c),
{
    let ghost all = ps@.skip(from as int).map_values(|p: Vec<char>| p@);
    let mut r: Vec<char> = Vec::new();
    let mut k = from;
    while k < ps.len()
        invariant
            from <= k <= ps@.len(),
            all == ps@.skip(from as int).map_values(|p: Vec<char>| p@),
            r@ == join_with(all.take(k - from), c),
        decreases ps@.len() - k,
    {
        let ghost before = r@;
        assert(all.take(k - from + 1).drop_last() == all.take(k - from));
        assert(all.take(k - from + 1).last() == ps@[k as int]@);
        if k > from {
            r.push(c);
        }
        let p = &ps[k];
        let mut i: usize = 0;
        let ghost mid = r@;
        while i < p.len()
            invariant
                i <= p@.len(),
                r@ == mid + p@.take(i as int),
            decreases p@.len() - i,
        {
            r.push(p[i]);
            assert(p@.take(i + 1) == p@.take(i as int).push(p@[i as int]));
            i += 1;
        }
        assert(p@.take(p@.len() as int) == p@);
        k += 1;
    }
    assert(all.take(ps@.len() - from) == all);
    r
}

/// The four octet fields of an IP address entry.
pub struct IpInput {
    pub octets: [String; 4],
}

pub open spec fn octet_text(pieces: Seq<Seq<char>>, i: int) -> Seq<char> {
    if i < pieces.len() {
        pieces[i]
    } else {
        Seq::empty()
    }
}

/// A field's text is a valid octet: what `str::parse::<u8>` accepts.
pub open spec fn octet_valid(o: Seq<char>) -> bool {
    parse_unsigned(o, 255) is Some
}

impl IpInput {
    pub open spec fn octet_views(&self) -> Seq<Seq<char>> {
        self.octets@.map_values(|o: String| o@)
    }

    /// The fields for an address: its first three dot-separated parts and
    /// the rest; missing parts are empty.
    pub fn from_str(ip: &str) -> (r: IpInput)
        ensures
            forall|i: int| 0 <= i < 4 ==> #[trigger] r.octet_views()[i] == octet_text(splitn4(ip@, '.'), i),
    {
        let parts = split_on_char(&chars_of(ip), '.');
        let ghost sp = split_char(ip@, '.');
        let ghost pieces = splitn4(ip@, '.');
        let o0 = if parts.len() > 0 { string_of(&parts[0]) } else { String::new() };
        let o1 = if parts.len() > 1 { string_of(&parts[1]) } else { String::new() };
        let o2 = if parts.len() > 2 { string_of(&parts[2]) } else { String::new() };
        let o3 = if parts.len() > 4 {
            let rest = join_chars(&parts, 3, '.');
            assert(parts@.skip(3).map_values(|p: Vec<char>| p@) =~= sp.skip(3));
            string_of(&rest)
        } else if parts.len() > 3 {
            string_of(&parts[3])
        } else {
            String::new()
        };
        let r = IpInput { octets: [o0, o1, o2, o3] };
        assert forall|i: int| 0 <= i < 4 implies #[trigger] r.octet_views()[i] == octet_text(pieces, i) by {
            assert(r.octet_views()[i] == r.octets@[i]@);
        }
        r
    }

    /// The address as typed: the four fields joined with dots.
    pub fn to_ip_string(&self) -> (s: String)
        ensures
            s@ == self.octet_views()[0] + "."@ + self.octet_views()[1] + "."@ + self.octet_views()[2]
                + "."@ + self.octet_views()[3],
    {
        let mut s = String::from_str(self.octets[0].as_str());
        s.append(".");
        s.append(self.octets[1].as_str());
        s.append(".");
        s.append(self.octets[2].as_str());
        s.append(".");
        s.append(self.octets[3].as_str());
        s
    }

    /// Every field holds a value from 0 to 255.
    pub fn is_valid(&self) -> (r: bool)
        ensures
            r == forall|i: int| 0 <= i < 4 ==> octet_valid(#[trigger] self.octet_views()[i]),
    {
        let mut k: usize = 0;
        while k < 4
            invariant
                k <= 4,
                forall|i: int| 0 <= i < k ==> octet_valid(#[trigger] self.octet_views()[i]),
            decreases 4 - k,
        {
            let o = chars_of(self.octets[k].as_str());
            assert(o@ == self.octet_views()[k as int]);
            if o.len() == 0 || parse_unsigned_at_most(&o, 255).is_none() {
                return false;
            }
            k += 1;
        }
        true
    }
}

/// The ASCII digits of `s`, in order.
pub open spec fn digits_only(s: Seq<char>) -> Seq<char>
    decreases s.len(),
{
    if s.len() == 0 {
        s
    } else if is_digit(s.last()) {
        digits_only(s.drop_last()).push(s.last())
    } else {
        digits_only(s.drop_last())
    }
}

/// What an octet field keeps of what was typed into it: its digits, at
/// most three.
pub open spec fn sanitized_octet(s: Seq<char>) -> Seq<char> {
    let d = digits_only(s);
    if d.len() > 3 {
        d.take(3)
    } else {
        d
    }
}

/// Keep the digits of an octet field's text, at most three of them.
pub fn sanitize_octet(text: &str) -> (r: String)
    ensures
        r@ == sanitized_octet(text@),
{
    let v = chars_of(text);
    let mut d: Vec<char> = Vec::new();
    let mut i: usize = 0;
    while i < v.len()
        invariant
            v@ == text@,
            i <= v@.len(),
            d@ == digits_only(v@.take(i as int)),
        decreases v@.len() - i,
    {
        assert(v@.take(i + 1).drop_last() == v@.take(i as int));
        if is_ascii_digit(v[i]) {
            d.push(v[i]);
        }
        i += 1;
    }
    assert(v@.take(v@.len() as int) == v@);
    if d.len() > 3 {
        string_of(&slice_chars(&d, 0, 3))
    } else {
        string_of(&d)
    }
}

/// After an edit of field `field` (0 to 3) whose text was `prev_len`
/// characters long and now reads `typed` (before it is sanitized), does the
/// focus move on to the next field? It does when the field has just been
/// filled with three digits, or when a dot was typed into the focused
/// field; never from the last field.
pub fn moves_focus(field: usize, prev_len: usize, typed: &str, had_focus: bool) -> (r: bool)
    ensures
        r == (field < 3 && ((sanitized_octet(typed@).len() == 3 && prev_len < 3) || (had_focus
            && contains_seq(typed@, seq!['.'])))),
{
    let kept = sanitize_octet(typed);
    let mut dot: Vec<char> = Vec::new();
    dot.push('.');
    let has_dot = had_focus && contains(&chars_of(typed), &dot);
    let just_filled = chars_of(kept.as_str()).len() == 3 && prev_len < 3;
    field < 3 && (just_filled || has_dot)
}

// ---------------------------------------------------------------------------
// Network errors
// ---------------------------------------------------------------------------

pub open spec fn simplified_error_spec(lower: Seq<char>) -> Seq<char> {
    if contains_seq(lower, "timed out"@) || contains_seq(lower, "10060"@) || contains_seq(
        lower,
        "timeout"@,
    ) {
        "connection timed out"@
    } else if contains_seq(lower, "refused"@) || contains_seq(lower, "10061"@) {
        "connection refused"@
    } else if contains_seq(lower, "dns"@) || contains_seq(lower, "resolve"@) || contains_seq(
        lower,
        "no such host"@,
    ) {
        "hostname could not be resolved"@
    } else if contains_seq(lower, "certificate"@) || contains_seq(lower, "ssl"@) || contains_seq(
        lower,
        "tls"@,
    ) {
        "SSL/TLS certificate error"@
    } else if contains_seq(lower, "network"@) || contains_seq(lower, "unreachable"@) {
        "network unreachable"@
    } else {
        "could not connect"@
    }
}

/// A short, readable cause for a network error message.
pub fn simplify_network_error(e: &str) -> (r: String)
    ensures
        r@ == simplified_error_spec(unicode_lowercase(e@)),
{
    let l = chars_of(to_lowercase(e).as_str());
    if contains(&l, &chars_of("timed out")) || contains(&l, &chars_of("10060")) || contains(
        &l,
        &chars_of("timeout"),
    ) {
        String::from_str("connection timed out")
    } else if contains(&l, &chars_of("refused")) || contains(&l, &chars_of("10061")) {
        String::from_str("connection refused")
    } else if contains(&l, &chars_of("dns")) || contains(&l, &chars_of("resolve")) || contains(
        &l,
        &chars_of("no such host"),
    ) {
        String::from_str("hostname could not be resolved")
    } else if contains(&l, &chars_of("certificate")) || contains(&l, &chars_of("ssl")) || contains(
        &l,
        &chars_of("tls"),
    ) {
        String::from_str("SSL/TLS certificate error")
    } else if contains(&l, &chars_of("network")) || contains(&l, &chars_of("unreachable")) {
        String::from_str("network unreachable")
    } else {
        String::from_str("could not connect")
    }
}

// ---------------------------------------------------------------------------
// Settings form
// ---------------------------------------------------------------------------

/// The switcher URL as saved: trimmed, without trailing slashes.
pub open spec fn normalized_url_spec(url: Seq<char>) -> Seq<char> {
    trim_end_char(trim(url), '/')
}

pub fn normalized_url(url: &str) -> (r: String)
    ensures
        r@ == normalized_url_spec(url@),
{
    let t = trim_chars(&chars_of(url));
    let hi = trim_end_char_len(&t, '/');
    string_of(&slice_chars(&t, 0, hi))
}

/// A switcher URL starts with http:// or https://.
pub open spec fn web_url(url: Seq<char>) -> bool {
    starts_with(url, "http://"@) || starts_with(url, "https://"@)
}

pub fn is_web_url(url: &str) -> (r: bool)
    ensures
        r == web_url(url@),
{
    let u = chars_of(url);
    has_prefix(&u, &chars_of("http://")) || has_prefix(&u, &chars_of("https://"))
}

/// Did the chosen language change from the saved one?
pub fn language_changed(saved: &Option<String>, chosen: &str) -> (r: bool)
    ensures
        r == match saved {
            Some(l) => l@ != chosen@,
            None => true,
        },
{
    match saved {
        Some(l) => !chars_equal(&chars_of(l.as_str()), &chars_of(chosen)),
        None => true,
    }
}

/// What pressing Save does.
#[derive(Clone, Copy, Debug)]
pub enum SaveDecision {
    /// The network fields are incomplete but the language changed: save
    /// only the language and restart (setup is not marked complete).
    LanguageOnly,
    /// Refuse, showing the message with this key.
    Refuse(&'static str),
    /// Save everything; restart when the language changed, otherwise ask
    /// the daemon to reload its configuration.
    Save { restart: bool },
}

pub open spec fn save_spec(url: Seq<char>, ips_valid: bool, language_changed: bool) -> SaveDecision {
    let url_ok = url.len() > 0 && web_url(url);
    if !ips_valid || !url_ok {
        if language_changed {
            SaveDecision::LanguageOnly
        } else if !ips_valid {
            SaveDecision::Refuse("settings.msg_invalid_ip")
        } else {
            SaveDecision::Refuse("settings.msg_invalid_url")
        }
    } else {
        SaveDecision::Save { restart: language_changed }
    }
}

/// Decide what Save does, from the normalized URL, whether both IP
/// addresses are valid and whether the language changed.
pub fn save_decision(url: &str, ips_valid: bool, language_changed: bool) -> (d: SaveDecision)
    ensures
        d == save_spec(url@, ips_valid, language_changed),
{
    let url_ok = !url.is_empty() && is_web_url(url);
    if !ips_valid || !url_ok {
        if language_changed {
            SaveDecision::LanguageOnly
        } else if !ips_valid {
            SaveDecision::Refuse("settings.msg_invalid_ip")
        } else {
            SaveDecision::Refuse("settings.msg_invalid_url")
        }
    } else {
        SaveDecision::Save { restart: language_changed }
    }
}

/// Store a complete settings form: the DNS server is always the VPN
/// server's address, and setup is then complete.
pub fn apply_settings(
    cfg: &mut AppConfig,
    vpn_gateway: &str,
    isp_gateway: &str,
    url: &str,
    auto_connect: bool,
    auto_reconnect: bool,
    language: &str,
)
    ensures
        final(cfg).vpn_gateway matches Some(g) && g@ == vpn_gateway@,
        final(cfg).dns_server matches Some(d) && d@ == vpn_gateway@,
        final(cfg).isp_gateway matches Some(g) && g@ == isp_gateway@,
        final(cfg).switcher_url matches Some(u) && u@ == url@,
        final(cfg).setup_complete,
        final(cfg).auto_connect == auto_connect,
        final(cfg).auto_reconnect == auto_reconnect,
        final(cfg).language matches Some(l) && l@ == language@,
        final(cfg).favorites == old(cfg).favorites,
        final(cfg).last_location == old(cfg).last_location,
{
    cfg.vpn_gateway = Some(String::from_str(vpn_gateway));
    cfg.isp_gateway = Some(String::from_str(isp_gateway));
    cfg.dns_server = Some(String::from_str(vpn_gateway));
    cfg.switcher_url = Some(String::from_str(url));
    cfg.setup_complete = true;
    cfg.auto_connect = auto_connect;
    cfg.auto_reconnect = auto_reconnect;
    cfg.language = Some(String::from_str(language));
}

/// The host named by a web URL (the part between the scheme and the first
/// `/`, without a port); `None` for a URL of another scheme.
pub open spec fn host_spec(url: Seq<char>) -> Option<Seq<char>> {
    let rest = if starts_with(url, "https://"@) {
        Some(url.skip(8))
    } else if starts_with(url, "http://"@) {
        Some(url.skip(7))
    } else {
        None
    };
    match rest {
        Some(r) => Some(split_char(split_char(r, '/')[0], ':')[0]),
        None => None,
    }
}

pub fn host_of_url(url: &str) -> (h: Option<String>)
    ensures
        match h {
            Some(s) => host_spec(url@) == Some(s@),
            None => host_spec(url@) is None,
        },
{
    let u = chars_of(url);
    proof {
        reveal_strlit("https://");
        reveal_strlit("http://");
    }
    let rest = if has_prefix(&u, &chars_of("https://")) {
        slice_chars(&u, 8, u.len())
    } else if has_prefix(&u, &chars_of("http://")) {
        slice_chars(&u, 7, u.len())
    } else {
        return None;
    };
    let by_slash = split_on_char(&rest, '/');
    proof {
        crate::text::lemma_split_char_nonempty(rest@, '/');
    }
    let by_colon = split_on_char(&by_slash[0], ':');
    proof {
        crate::text::lemma_split_char_nonempty(by_slash@[0]@, ':');
    }
    Some(string_of(&by_colon[0]))
}

// ---------------------------------------------------------------------------
// Connection test
// ---------------------------------------------------------------------------

pub open spec fn message(table: Seq<(Seq<char>, Seq<char>)>, key: Seq<char>) -> Seq<char> {
    match lookup(table, key) {
        Some(v) => v,
        None => key,
    }
}

/// The report line for the switcher URL check: `fetched` is the number of
/// locations the page listed, or the error fetching it; `None` when the URL
/// is not a web URL and was not fetched.
pub open spec fn url_line_spec(table: Seq<(Seq<char>, Seq<char>)>, fetched: Option<Result<usize, Seq<char>>>) -> (
    Seq<char>,
    bool,
) {
    match fetched {
        None => (message(table, "test.url_not_set"@), false),
        Some(Ok(n)) => if n > 0 {
            (fill(message(table, "test.url_ok"@), seq![("count"@, decimal(n as nat))]), true)
        } else {
            (message(table, "test.url_wrong_page"@), false)
        },
        Some(Err(e)) => (
            fill(
                message(table, "test.url_error"@),
                seq![("msg"@, simplified_error_spec(unicode_lowercase(e)))],
            ),
            false,
        ),
    }
}

pub fn url_check_line(table: &Translations, fetched: &Option<Result<usize, String>>) -> (r: (String, bool))
    ensures
        r.0@ == url_line_spec(
            table@,
            match fetched {
                None => None,
                Some(Ok(n)) => Some(Ok(*n)),
                Some(Err(e)) => Some(Err(e@)),
            },
        ).0,
        r.1 == url_line_spec(
            table@,
            match fetched {
                None => None,
                Some(Ok(n)) => Some(Ok(*n)),
                Some(Err(e)) => Some(Err(e@)),
            },
        ).1,
{
    match fetched {
        None => (t(table, "test.url_not_set"), false),
        Some(Ok(n)) => {
            if *n > 0 {
                let count = decimal_string(*n as u64);
                let args = [("count", count.as_str())];
                assert(arg_views(args@) =~= seq![("count"@, decimal(*n as nat))]);
                (t_fmt(table, "test.url_ok", &args), true)
            } else {
                (t(table, "test.url_wrong_page"), false)
            }
        },
        Some(Err(e)) => {
            let msg = simplify_network_error(e.as_str());
            let args = [("msg", msg.as_str())];
            assert(arg_views(args@) =~= seq![("msg"@, msg@)]);
            (t_fmt(table, "test.url_error", &args), false)
        },
    }
}

/// The settings window looks the VPN server's address up from the switcher
/// URL when the URL is a web URL that differs from the one last looked up
/// and no lookup is running.
pub fn should_resolve_host(url: &str, last_resolved: &str, resolving: bool) -> (r: bool)
    ensures
        r == (web_url(url@) && url@ != last_resolved@ && !resolving),
{
    is_web_url(url) && !chars_equal(&chars_of(url), &chars_of(last_resolved)) && !resolving
}

/// An address field worth pinging: four dot-separated parts, not starting
/// with a dot.
pub open spec fn pingable_spec(ip: Seq<char>) -> bool {
    split_char(ip, '.').len() == 4 && !(ip.len() > 0 && ip[0] == '.')
}

pub fn pingable(ip: &str) -> (r: bool)
    ensures
        r == pingable_spec(ip@),
{
    let v = chars_of(ip);
    let parts = split_on_char(&v, '.');
    parts.len() == 4 && !(v.len() > 0 && v[0] == '.')
}

/// Which address a ping line is about.
#[derive(Clone, Copy, PartialEq, Eq, Debug, Structural)]
pub enum PingTarget {
    VpnServer,
    Router,
}

pub open spec fn ping_line_spec(
    table: Seq<(Seq<char>, Seq<char>)>,
    target: PingTarget,
    ip: Seq<char>,
    answered: Option<bool>,
) -> (Seq<char>, bool) {
    let (key, unset) = match target {
        PingTarget::VpnServer => ("test.vpn_server"@, "test.vpn_server_not_set"@),
        PingTarget::Router => ("test.router"@, "test.router_not_set"@),
    };
    match answered {
        None => (message(table, unset), false),
        Some(ok) => (
            fill(
                message(table, key),
                seq![
                    ("ip"@, ip),
                    ("status"@, message(table, if ok { "test.reachable"@ } else { "test.unreachable"@ })),
                ],
            ),
            ok,
        ),
    }
}

/// The report line for a ping check: `answered` is whether the address
/// answered, `None` when it was not pingable and was not tried.
pub fn ping_check_line(table: &Translations, target: PingTarget, ip: &str, answered: Option<bool>) -> (r: (
    String,
    bool,
))
    ensures
        r.0@ == ping_line_spec(table@, target, ip@, answered).0,
        r.1 == ping_line_spec(table@, target, ip@, answered).1,
{
    let (key, unset) = match target {
        PingTarget::VpnServer => ("test.vpn_server", "test.vpn_server_not_set"),
        PingTarget::Router => ("test.router", "test.router_not_set"),
    };
    match answered {
        None => (t(table, unset), false),
        Some(ok) => {
            let status = if ok {
                t(table, "test.reachable")
            } else {
                t(table, "test.unreachable")
            };
            let args = [("ip", ip), ("status", status.as_str())];
            assert(arg_views(args@) =~= seq![("ip"@, ip@), ("status"@, status@)]);
            (t_fmt(table, key, &args), ok)
        },
    }
}

/// The connection test's report: the switcher URL line, then the VPN
/// server's ping line, then the router's.
pub fn connection_report(
    table: &Translations,
    fetched: &Option<Result<usize, String>>,
    vpn_ip: &str,
    vpn_answered: Option<bool>,
    router_ip: &str,
    router_answered: Option<bool>,
) -> (r: Vec<(String, bool)>)
    ensures
        r@.len() == 3,
        r@[0].0@ == url_line_spec(
            table@,
            match fetched {
                None => None,
                Some(Ok(n)) => Some(Ok(*n)),
                Some(Err(e)) => Some(Err(e@)),
            },
        ).0,
        r@[0].1 == url_line_spec(
            table@,
            match fetched {
                None => None,
                Some(Ok(n)) => Some(Ok(*n)),
                Some(Err(e)) => Some(Err(e@)),
            },
        ).1,
        r@[1].0@ == ping_line_spec(table@, PingTarget::VpnServer, vpn_ip@, vpn_answered).0,
        r@[1].1 == ping_line_spec(table@, PingTarget::VpnServer, vpn_ip@, vpn_answered).1,
        r@[2].0@ == ping_line_spec(table@, PingTarget::Router, router_ip@, router_answered).0,
        r@[2].1 == ping_line_spec(table@, PingTarget::Router, router_ip@, router_answered).1,
{
    let mut r: Vec<(String, bool)> = Vec::new();
    r.push(url_check_line(table, fetched));
    r.push(ping_check_line(table, PingTarget::VpnServer, vpn_ip, vpn_answered));
    r.push(ping_check_line(table, PingTarget::Router, router_ip, router_answered));
    r
}

// ---------------------------------------------------------------------------
// Status dashboard
// ---------------------------------------------------------------------------

/// The message key describing a published state.
pub open spec fn state_key_spec(state: Seq<char>) -> Seq<char> {
    if state == "Connected"@ {
        "status_win.state_connected"@
    } else if state == "Enabling"@ {
        "status_win.state_connecting"@
    } else if state == "Dropped"@ {
        "status_win.state_dropped"@
    } else if state == "ServerUnreachable"@ {
        "status_win.state_unreachable"@
    } else if state == "SetupIncomplete"@ {
        "status_win.state_setup_incomplete"@
    } else {
        "status_win.state_disabled"@
    }
}

pub fn state_message_key(state: &str) -> (k: &'static str)
    ensures
        k@ == state_key_spec(state@),
{
    let s = chars_of(state);
    if chars_equal(&s, &chars_of("Connected")) {
        "status_win.state_connected"
    } else if chars_equal(&s, &chars_of("Enabling")) {
        "status_win.state_connecting"
    } else if chars_equal(&s, &chars_of("Dropped")) {
        "status_win.state_dropped"
    } else if chars_equal(&s, &chars_of("ServerUnreachable")) {
        "status_win.state_unreachable"
    } else if chars_equal(&s, &chars_of("SetupIncomplete")) {
        "status_win.state_setup_incomplete"
    } else {
        "status_win.state_disabled"
    }
}

/// At least two digits (`{:02}`).
pub open spec fn two_digits(n: nat) -> Seq<char> {
    if n < 10 {
        seq!['0'] + decimal(n)
    } else {
        decimal(n)
    }
}

fn push_two_digits(s: &mut String, n: u64)
    ensures
        final(s)@ == old(s)@ + two_digits(n as nat),
{
    if n < 10 {
        push_char(s, '0');
    }
    let d = decimal_string(n);
    s.append(d.as_str());
}

/// How long the connection has lasted, as HH:MM:SS (hours may take more
/// digits), or "--:--:--" when there is no connection. A start in the
/// future counts as no time elapsed.
pub open spec fn duration_spec(since: Option<u64>, now: u64) -> Seq<char> {
    match since {
        Some(s) => {
            let e: nat = if now >= s { (now - s) as nat } else { 0 };
            two_digits(e / 3600) + ":"@ + two_digits((e % 3600) / 60) + ":"@ + two_digits(e % 60)
        },
        None => "--:--:--"@,
    }
}

pub fn format_duration(since: Option<u64>, now: u64) -> (r: String)
    ensures
        r@ == duration_spec(since, now),
{
    match since {
        Some(s) => {
            let e = now.saturating_sub(s);
            let mut r = String::new();
            push_two_digits(&mut r, e / 3600);
            r.append(":");
            push_two_digits(&mut r, (e % 3600) / 60);
            r.append(":");
            push_two_digits(&mut r, e % 60);
            r
        },
        None => String::from_str("--:--:--"),
    }
}

// ---------------------------------------------------------------------------
// Dialog locks and fonts
// ---------------------------------------------------------------------------

/// The process that holds a dialog's lock file, read from its contents;
/// `None` when they are not a process ID (the lock is then stale).
pub fn lock_owner(contents: &str) -> (pid: Option<u32>)
    ensures
        match pid {
            Some(p) => parse_unsigned(trim(contents@), u32::MAX as nat) == Some(p as nat),
            None => parse_unsigned(trim(contents@), u32::MAX as nat) is None,
        },
{
    let t = trim_chars(&chars_of(contents));
    parse_unsigned_at_most(&t, u32::MAX)
}

// ---------------------------------------------------------------------------
// Dialog form states
// ---------------------------------------------------------------------------

/// The fields of the first-run setup form.
pub struct SetupDialogState {
    pub vpn_gateway: String,
    pub isp_gateway: String,
    pub dns_server: String,
    pub switcher_url: String,
    pub error_msg: Option<String>,
    pub submitted: bool,
    pub cancelled: bool,
}

impl Default for SetupDialogState {
    /// An empty form, neither submitted nor cancelled.
    fn default() -> (s: Self)
        ensures
            s.vpn_gateway@.len() == 0,
            s.isp_gateway@.len() == 0,
            s.dns_server@.len() == 0,
            s.switcher_url@.len() == 0,
            s.error_msg is None,
            !s.submitted,
            !s.cancelled,
    {
        SetupDialogState {
            vpn_gateway: String::new(),
            isp_gateway: String::new(),
            dns_server: String::new(),
            switcher_url: String::new(),
            error_msg: None,
            submitted: false,
            cancelled: false,
        }
    }
}

/// The state of the location chooser form.
pub struct LocationDialogState {
    pub search_text: String,
    pub locations: Vec<Location>,
    pub selected_value: Option<String>,
    pub selected_label: Option<String>,
    pub is_loading: bool,
    pub is_switching: bool,
    pub switch_error: Option<String>,
    pub accepted: Option<String>,
    pub cancelled: bool,
}

impl Default for LocationDialogState {
    /// No locations, nothing selected, nothing under way.
    fn default() -> (s: Self)
        ensures
            s.search_text@.len() == 0,
            s.locations@.len() == 0,
            s.selected_value is None,
            s.selected_label is None,
            !s.is_loading,
            !s.is_switching,
            s.switch_error is None,
            s.accepted is None,
            !s.cancelled,
    {
        LocationDialogState {
            search_text: String::new(),
            locations: Vec::new(),
            selected_value: None,
            selected_label: None,
            is_loading: false,
            is_switching: false,
            switch_error: None,
            accepted: None,
            cancelled: false,
        }
    }
}

/// Font files that may hold CJK glyphs on Unix, whatever the language.
pub open spec fn noto_cjk_common() -> Seq<Seq<char>> {
    seq![
        "/usr/share/fonts/noto-cjk/NotoSansCJK-Regular.ttc"@,
        "/usr/share/fonts/noto/NotoSansCJK-Regular.ttc"@,
        "/usr/share/fonts/opentype/noto/NotoSansCJK-Regular.ttc"@,
    ]
}

/// Fonts to try, in order, for a language.
pub open spec fn cjk_fonts_spec(lang: Seq<char>, platform: Platform) -> Seq<Seq<char>> {
    match platform {
        Platform::Windows => if lang == "zh_CN"@ {
            seq!["msyh.ttc"@, "msyhbd.ttc"@, "simhei.ttf"@, "simsun.ttc"@]
        } else if lang == "ja"@ {
            seq!["meiryo.ttc"@, "YuGothR.ttc"@, "msgothic.ttc"@]
        } else if lang == "ko"@ {
            seq!["malgun.ttf"@, "gulim.ttc"@]
        } else {
            Seq::empty()
        },
        Platform::Unix => if lang == "zh_CN"@ {
            noto_cjk_common() + seq![
                "/usr/share/fonts/truetype/noto/NotoSansCJKsc-Regular.otf"@,
                "/usr/share/fonts/google-noto-cjk/NotoSansCJK-Regular.ttc"@,
            ]
        } else if lang == "ja"@ {
            noto_cjk_common() + seq!["/usr/share/fonts/truetype/noto/NotoSansCJKjp-Regular.otf"@]
        } else if lang == "ko"@ {
            noto_cjk_common() + seq!["/usr/share/fonts/truetype/noto/NotoSansCJKkr-Regular.otf"@]
        } else {
            Seq::empty()
        },
    }
}

/// Fonts to try, in order, for a CJK language: file names in the Windows
/// fonts folder, or absolute paths elsewhere; none for other languages.
pub fn cjk_font_candidates(lang: &str, platform: Platform) -> (r: Vec<&'static str>)
    ensures
        r@.map_values(|f: &'static str| f@) == cjk_fonts_spec(lang@, platform),
{
    let l = chars_of(lang);
    let mut r: Vec<&'static str> = Vec::new();
    let zh = chars_equal(&l, &chars_of("zh_CN"));
    let ja = chars_equal(&l, &chars_of("ja"));
    let ko = chars_equal(&l, &chars_of("ko"));
    match platform {
        Platform::Windows => {
            if zh {
                r.push("msyh.ttc");
                r.push("msyhbd.ttc");
                r.push("simhei.ttf");
                r.push("simsun.ttc");
            } else if ja {
                r.push("meiryo.ttc");
                r.push("YuGothR.ttc");
                r.push("msgothic.ttc");
            } else if ko {
                r.push("malgun.ttf");
                r.push("gulim.ttc");
            }
        },
        Platform::Unix => {
            if zh || ja || ko {
                r.push("/usr/share/fonts/noto-cjk/NotoSansCJK-Regular.ttc");
                r.push("/usr/share/fonts/noto/NotoSansCJK-Regular.ttc");
                r.push("/usr/share/fonts/opentype/noto/NotoSansCJK-Regular.ttc");
            }
            if zh {
                r.push("/usr/share/fonts/truetype/noto/NotoSansCJKsc-Regular.otf");
                r.push("/usr/share/fonts/google-noto-cjk/NotoSansCJK-Regular.ttc");
            } else if ja {
                r.push("/usr/share/fonts/truetype/noto/NotoSansCJKjp-Regular.otf");
            } else if ko {
                r.push("/usr/share/fonts/truetype/noto/NotoSansCJKkr-Regular.otf");
            }
        },
    }
    assert(r@.map_values(|f: &'static str| f@) =~= cjk_fonts_spec(lang@, platform));
    r
}

} // verus!
