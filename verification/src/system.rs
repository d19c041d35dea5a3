//! Operating-system layer: validation of the values that reach shell
//! commands, the exact commands for routing and DNS changes, and the
//! interpretation of what those commands print.
//!
//! Running a command is the caller's part: every function here either
//! builds command lines from validated values or reads a command's output.

use vstd::prelude::*;
use vstd::string::StringExecFns;
use vstd::string::StrSliceExecFns;
use crate::text::{
    chars_equal, chars_of, contains, contains_seq, find_from, is_ascii_alnum, is_ascii_alphanumeric,
    is_ascii_digit, is_digit, is_first_occurrence_from, lines, lines_of, occurs_at, slice_chars,
    split_char, split_on_char, string_of, to_lowercase, trim, trim_chars, unicode_lowercase, words,
    words_of,
};

verus! {

// ---------------------------------------------------------------------------
// IPv4 addresses
// ---------------------------------------------------------------------------

/// The value of a string of decimal digits.
pub open spec fn decimal_value(p: Seq<char>) -> nat
    decreases p.len(),
{
    if p.len() == 0 {
        0
    } else {
        decimal_value(p.drop_last()) * 10 + ((p.last() as u32) - ('0' as u32)) as nat
    }
}

/// One to three ASCII digits whose value fits in a byte.
pub open spec fn is_octet(p: Seq<char>) -> bool {
    &&& 1 <= p.len() <= 3
    &&& forall|i: int| 0 <= i < p.len() ==> is_digit(#[trigger] p[i])
    &&& decimal_value(p) <= 255
}

/// Four octets separated by dots.
pub open spec fn valid_ipv4(s: Seq<char>) -> bool {
    let parts = split_char(s, '.');
    &&& parts.len() == 4
    &&& forall|k: int| 0 <= k < 4 ==> is_octet(#[trigger] parts[k])
}

fn octet_ok(p: &Vec<char>) -> (r: bool)
    ensures
        r == is_octet(p@),
{
    if p.len() < 1 || p.len() > 3 {
        return false;
    }
    let mut value: u32 = 0;
    let mut i: usize = 0;
    while i < p.len()
        invariant
            1 <= p@.len() <= 3,
            i <= p@.len(),
            forall|j: int| 0 <= j < i ==> is_digit(#[trigger] p@[j]),
            value == decimal_value(p@.take(i as int)),
            value < 1000,
        decreases p@.len() - i,
    {
        if !is_ascii_digit(p[i]) {
            return false;
        }
        assert(p@.take(i + 1).drop_last() == p@.take(i as int));
        proof {
            if i >= 1 {
                assert(value < 100) by {
                    lemma_decimal_bound(p@.take(i as int));
                }
            }
        }
        value = value * 10 + (p[i] as u32 - '0' as u32);
        i += 1;
    }
    assert(p@.take(p@.len() as int) == p@);
    value <= 255
}

proof fn lemma_decimal_bound(p: Seq<char>)
    requires
        forall|i: int| 0 <= i < p.len() ==> is_digit(#[trigger] p[i]),
        p.len() <= 2,
    ensures
        decimal_value(p) < if p.len() == 0 { 1int } else if p.len() == 1 { 10int } else { 100int },
    decreases p.len(),
{
    if p.len() > 0 {
        assert(is_digit(p[p.len() - 1]));
        lemma_decimal_bound(p.drop_last());
    }
}

/// Is `s` a dotted-quad IPv4 address (four parts of one to three digits,
/// each at most 255)?
pub fn is_valid_ipv4(s: &str) -> (r: bool)
    ensures
        r == valid_ipv4(s@),
{
    let v = chars_of(s);
    valid_ipv4_chars(&v)
}

pub fn valid_ipv4_chars(v: &Vec<char>) -> (r: bool)
    ensures
        r == valid_ipv4(v@),
{
    let parts = split_on_char(v, '.');
    if parts.len() != 4 {
        return false;
    }
    let mut k: usize = 0;
    while k < 4
        invariant
            parts@.len() == 4 == split_char(v@, '.').len(),
            forall|j: int| 0 <= j < parts@.len() ==> #[trigger] parts@[j]@ == split_char(v@, '.')[j],
            k <= 4,
            forall|j: int| 0 <= j < k ==> is_octet(#[trigger] split_char(v@, '.')[j]),
        decreases 4 - k,
    {
        if !octet_ok(&parts[k]) {
            assert(parts@[k as int]@ == split_char(v@, '.')[k as int]);
            return false;
        }
        k += 1;
    }
    true
}

// ---------------------------------------------------------------------------
// Extracting addresses from command output
// ---------------------------------------------------------------------------

pub open spec fn is_ip_char(c: char) -> bool {
    is_digit(c) || c == '.'
}

/// The candidate run ends; keep it if it is an address.
pub open spec fn flush(cur: Option<Seq<char>>) -> Seq<Seq<char>> {
    match cur {
        Some(t) => if valid_ipv4(t) {
            seq![t]
        } else {
            Seq::empty()
        },
        None => Seq::empty(),
    }
}

/// The addresses found in `s` from position `i` on, where `cur` is the run
/// of digits and dots that is being read (a run starts at a digit and goes
/// on through digits and dots).
pub open spec fn ips_from(s: Seq<char>, i: int, cur: Option<Seq<char>>) -> Seq<Seq<char>>
    decreases s.len() - i,
{
    if i < 0 || i >= s.len() {
        flush(cur)
    } else {
        let c = s[i];
        match cur {
            None => if is_digit(c) {
                ips_from(s, i + 1, Some(seq![c]))
            } else {
                ips_from(s, i + 1, None)
            },
            Some(t) => if is_ip_char(c) {
                ips_from(s, i + 1, Some(t.push(c)))
            } else {
                flush(cur) + ips_from(s, i + 1, None)
            },
        }
    }
}

/// All IPv4 addresses that appear in `s`, in order of appearance.
pub open spec fn ips_in(s: Seq<char>) -> Seq<Seq<char>> {
    ips_from(s, 0, None)
}

pub open spec fn views(v: Seq<String>) -> Seq<Seq<char>> {
    v.map_values(|x: String| x@)
}

/// Extract all IPv4 addresses from a string: every maximal run of digits
/// and dots that starts with a digit and is a valid address, in order.
pub fn extract_ips(text: &str) -> (ips: Vec<String>)
    ensures
        views(ips@) == ips_in(text@),
{
    let v = chars_of(text);
    let mut ips: Vec<String> = Vec::new();
    let mut cur: Vec<char> = Vec::new();
    let mut in_run = false;
    let mut i: usize = 0;
    while i < v.len()
        invariant
            i <= v@.len(),
            v@ == text@,
            views(ips@) + ips_from(v@, i as int, if in_run { Some(cur@) } else { None }) == ips_in(v@),
        decreases v@.len() - i,
    {
        let c = v[i];
        let ghost before = ips_from(v@, i as int, if in_run { Some(cur@) } else { None });
        if in_run {
            if is_ascii_digit(c) || c == '.' {
                cur.push(c);
            } else {
                let ghost old_ips = ips@;
                if valid_ipv4_chars(&cur) {
                    let s = string_of(&cur);
                    ips.push(s);
                    assert(views(ips@) == views(old_ips).push(cur@));
                } else {
                    assert(views(ips@) == views(old_ips));
                }
                assert(views(ips@) == views(old_ips) + flush(Some(cur@)));
                assert(views(old_ips) + before == views(old_ips) + flush(Some(cur@)) + ips_from(v@, i + 1, None));
                in_run = false;
                cur = Vec::new();
            }
        } else if is_ascii_digit(c) {
            cur = Vec::new();
            cur.push(c);
            assert(cur@ == seq![c]);
            in_run = true;
        }
        i += 1;
    }
    if in_run {
        let ghost old_ips = ips@;
        if valid_ipv4_chars(&cur) {
            let s = string_of(&cur);
            ips.push(s);
            assert(views(ips@) == views(old_ips).push(cur@));
        }
    }
    assert(views(ips@) == ips_in(text@));
    ips
}

// ---------------------------------------------------------------------------
// Names that may reach a shell command
// ---------------------------------------------------------------------------

/// The one pattern the name checker knows.
pub open spec fn adapter_pattern() -> Seq<char> {
    "^[a-zA-Z0-9._:-]+$"@
}

/// Non-empty, and only ASCII letters, digits, `.`, `_`, `:` and `-`.
pub open spec fn is_safe_name(s: Seq<char>) -> bool {
    &&& s.len() > 0
    &&& forall|i: int|
        0 <= i < s.len() ==> {
            let c = #[trigger] s[i];
            is_ascii_alnum(c) || c == '.' || c == '_' || c == ':' || c == '-'
        }
}

/// A whole-string matcher for the `^[chars]+$` character-class pattern
/// used for adapter names and host names.
pub struct SimpleRegex {
    pattern: &'static str,
}

impl SimpleRegex {
    pub closed spec fn pattern_spec(&self) -> Seq<char> {
        self.pattern@
    }

    /// With the known pattern, whether `s` is a safe name; any other
    /// pattern matches everything.
    pub fn is_match(&self, s: &str) -> (r: bool)
        ensures
            r == (self.pattern_spec() == adapter_pattern() ==> is_safe_name(s@)),
    {
        let pat = chars_of(self.pattern);
        let known = chars_of("^[a-zA-Z0-9._:-]+$");
        if chars_equal(&pat, &known) {
            safe_name_chars(&chars_of(s))
        } else {
            true
        }
    }
}

pub fn regex_lite(pattern: &'static str) -> (r: SimpleRegex)
    ensures
        r.pattern_spec() == pattern@,
{
    SimpleRegex { pattern }
}

pub fn safe_name_chars(v: &Vec<char>) -> (r: bool)
    ensures
        r == is_safe_name(v@),
{
    if v.len() == 0 {
        return false;
    }
    let mut i: usize = 0;
    while i < v.len()
        invariant
            i <= v@.len(),
            forall|j: int|
                0 <= j < i ==> {
                    let c = #[trigger] v@[j];
                    is_ascii_alnum(c) || c == '.' || c == '_' || c == ':' || c == '-'
                },
        decreases v@.len() - i,
    {
        let c = v[i];
        if !(is_ascii_alphanumeric(c) || c == '.' || c == '_' || c == ':' || c == '-') {
            return false;
        }
        i += 1;
    }
    true
}

// ---------------------------------------------------------------------------
// Commands and their output
// ---------------------------------------------------------------------------

/// The family of operating system the commands are meant for.
#[derive(Clone, Copy, PartialEq, Eq, Debug, Structural)]
pub enum Platform {
    Windows,
    Unix,
}

/// What a finished shell command left behind: its standard output and
/// standard error with surrounding white space trimmed, and its exit code
/// (-1 when the command could not be run or was killed by a signal).
pub struct CommandOutput {
    pub stdout: String,
    pub stderr: String,
    pub code: i32,
}

/// Commands to run in order; the run as a whole succeeded when the command
/// at `decisive` (if there is one) exited with code 0.
pub struct CommandPlan {
    pub commands: Vec<String>,
    pub decisive: Option<usize>,
}

impl CommandPlan {
    pub open spec fn command_views(&self) -> Seq<Seq<char>> {
        views(self.commands@)
    }

    pub open spec fn succeeded_with(&self, codes: Seq<i32>) -> bool {
        match self.decisive {
            Some(i) => 0 <= i < codes.len() && codes[i as int] == 0,
            None => false,
        }
    }

    /// Whether the run succeeded, given the exit codes of the commands.
    pub fn succeeded(&self, codes: &Vec<i32>) -> (r: bool)
        ensures
            r == self.succeeded_with(codes@),
    {
        match self.decisive {
            Some(i) => i < codes.len() && codes[i] == 0,
            None => false,
        }
    }
}

/// The two strings joined.
pub(crate) fn cat2(a: &str, b: &str) -> (r: String)
    ensures
        r@ == a@ + b@,
{
    let mut r = String::from_str(a);
    r.append(b);
    r
}

/// The three strings joined.
pub(crate) fn cat3(a: &str, b: &str, c: &str) -> (r: String)
    ensures
        r@ == a@ + b@ + c@,
{
    let mut r = String::from_str(a);
    r.append(b);
    r.append(c);
    r
}

/// The four strings joined.
pub(crate) fn cat4(a: &str, b: &str, c: &str, d: &str) -> (r: String)
    ensures
        r@ == a@ + b@ + c@ + d@,
{
    let mut r = String::from_str(a);
    r.append(b);
    r.append(c);
    r.append(d);
    r
}

/// The commands that flush the DNS cache.
pub open spec fn flush_dns_spec(platform: Platform) -> Seq<Seq<char>> {
    match platform {
        Platform::Windows => seq!["ipconfig /flushdns"@],
        Platform::Unix => seq![
            "sudo systemd-resolve --flush-caches"@,
            "sudo resolvectl flush-caches"@,
        ],
    }
}

/// The commands that send all traffic through `gw` on `adapter` and set the
/// DNS server to `dns`, and the index of the command that decides success.
pub open spec fn enable_routing_spec(adapter: Seq<char>, gw: Seq<char>, dns: Seq<char>, platform: Platform) -> (
    Seq<Seq<char>>,
    int,
) {
    match platform {
        Platform::Windows => (
            seq![
                "route delete 0.0.0.0 mask 0.0.0.0"@,
                "route add 0.0.0.0 mask 0.0.0.0 "@ + gw + " metric 1"@,
                "netsh interface ipv4 set dns name=\""@ + adapter + "\" static "@ + dns,
            ],
            1,
        ),
        Platform::Unix => (
            seq![
                "sudo sysctl -w net.ipv6.conf."@ + adapter + ".disable_ipv6=1"@,
                "sudo resolvectl dns "@ + adapter + " "@ + dns,
                "sudo ip route del default dev "@ + adapter,
                "sudo ip route add default via "@ + gw + " dev "@ + adapter + " metric 50"@,
            ],
            3,
        ),
    }
}

/// The commands that remove the route through `gw` and give DNS back to
/// the adapter's own configuration.
pub open spec fn disable_routing_spec(adapter: Seq<char>, gw: Seq<char>, platform: Platform) -> Seq<
    Seq<char>,
> {
    match platform {
        Platform::Windows => seq![
            "route delete 0.0.0.0 mask 0.0.0.0 "@ + gw,
            "netsh interface ipv4 set dns name=\""@ + adapter + "\" source=dhcp"@,
        ],
        Platform::Unix => seq![
            "sudo ip route del default via "@ + gw + " dev "@ + adapter,
            "sudo sysctl -w net.ipv6.conf."@ + adapter + ".disable_ipv6=0"@,
            "sudo resolvectl revert "@ + adapter,
        ],
    }
}

pub open spec fn kill_switch_spec(gw: Seq<char>, adapter: Seq<char>, platform: Platform) -> Seq<char> {
    match platform {
        Platform::Windows => "route delete 0.0.0.0 mask 0.0.0.0 "@ + gw,
        Platform::Unix => "sudo ip route del default via "@ + gw + " dev "@ + adapter,
    }
}

pub open spec fn route_query_spec(gw: Seq<char>, adapter: Seq<char>, platform: Platform) -> Seq<char> {
    match platform {
        Platform::Windows => "route print"@,
        Platform::Unix => "ip route show default via "@ + gw + " dev "@ + adapter,
    }
}

pub open spec fn route_listed_spec(gw: Seq<char>, platform: Platform, stdout: Seq<char>, code: i32) -> bool {
    match platform {
        Platform::Windows => code == 0 && contains_seq(stdout, gw),
        Platform::Unix => code == 0 && trim(stdout).len() > 0,
    }
}

pub open spec fn trace_spec(platform: Platform) -> Seq<char> {
    match platform {
        Platform::Windows => "tracert -d -h 1 8.8.8.8"@,
        Platform::Unix => "traceroute -n -m 1 -w 1 8.8.8.8"@,
    }
}

/// The first hop of the trace is an address other than the ISP gateway.
pub open spec fn first_hop_not_isp_spec(isp_gw: Seq<char>, stdout: Seq<char>, code: i32) -> bool {
    &&& code == 0
    &&& stdout.len() > 0
    &&& ips_in(stdout).len() > 0
    &&& ips_in(stdout)[0] != isp_gw
}

pub open spec fn ping_spec(host: Seq<char>, platform: Platform) -> Seq<char> {
    match platform {
        Platform::Windows => "ping -n 1 -w 1000 "@ + host,
        Platform::Unix => "ping -c 1 -W 1 "@ + host,
    }
}

/// The first word after the first "dev " of `ip route show default`, when it
/// is a safe name.
pub open spec fn ip_route_adapter(stdout: Seq<char>, code: i32) -> Option<Seq<char>> {
    if code == 0 && stdout.len() > 0 && contains_seq(stdout, "dev "@) {
        let pos = choose|i: int| is_first_occurrence_from(stdout, "dev "@, 0, i);
        let rest = stdout.subrange(pos + 4, stdout.len() as int);
        let cand = if words(rest).len() > 0 { words(rest)[0] } else { Seq::empty() };
        if is_safe_name(cand) { Some(cand) } else { None }
    } else {
        None
    }
}

/// A line of `netsh interface ipv4 show interfaces` that names a connected
/// interface other than the loopback one.
pub open spec fn netsh_line_candidate(lower: Seq<char>, line: Seq<char>) -> Option<Seq<char>> {
    if contains_seq(lower, "connected"@) && !contains_seq(lower, "loopback"@) && words(line).len() > 0
        && is_safe_name(words(line).last()) {
        Some(words(line).last())
    } else {
        None
    }
}

pub open spec fn first_netsh_candidate(ls: Seq<Seq<char>>) -> Option<Seq<char>>
    decreases ls.len(),
{
    if ls.len() == 0 {
        None
    } else {
        match netsh_line_candidate(unicode_lowercase(ls[0]), ls[0]) {
            Some(c) => Some(c),
            None => first_netsh_candidate(ls.drop_first()),
        }
    }
}

/// The adapter that `netsh interface ipv4 show interfaces` names first as
/// connected (and not loopback), or "Ethernet".
pub open spec fn netsh_adapter(stdout: Seq<char>, code: i32) -> Seq<char> {
    if code == 0 {
        match first_netsh_candidate(lines(stdout)) {
            Some(c) => c,
            None => "Ethernet"@,
        }
    } else {
        "Ethernet"@
    }
}

/// Is `stderr` the complaint of `resolvectl` that systemd-resolved is not
/// running (rather than a real failure)?
pub open spec fn resolved_missing_spec(stderr: Seq<char>) -> bool {
    ||| contains_seq(stderr, "org.freedesktop.resolve1"@)
    ||| contains_seq(stderr, "systemd-resolved"@)
    ||| contains_seq(stderr, "activation request failed"@)
}

pub fn resolved_missing(stderr: &str) -> (r: bool)
    ensures
        r == resolved_missing_spec(stderr@),
{
    let e = chars_of(stderr);
    contains(&e, &chars_of("org.freedesktop.resolve1")) || contains(&e, &chars_of("systemd-resolved"))
        || contains(&e, &chars_of("activation request failed"))
}

fn push_str(v: &mut Vec<String>, s: String)
    ensures
        views(final(v)@) == views(old(v)@).push(s@),
{
    let ghost old_v = v@;
    v.push(s);
    assert(views(v@) =~= views(old_v).push(s@));
}

pub struct SystemHandler;

impl SystemHandler {
    fn is_safe_adapter(adapter: &str) -> (r: bool)
        ensures
            r == is_safe_name(adapter@),
    {
        let re = regex_lite("^[a-zA-Z0-9._:-]+$");
        re.is_match(adapter)
    }

    fn is_safe_host(host: &str) -> (r: bool)
        ensures
            r == is_safe_name(host@),
    {
        let re = regex_lite("^[a-zA-Z0-9._:-]+$");
        re.is_match(host)
    }

    /// The active adapter named in the output of
    /// `netsh interface ipv4 show interfaces`, or "Ethernet".
    pub fn adapter_from_netsh(stdout: &str, code: i32) -> (name: String)
        ensures
            name@ == netsh_adapter(stdout@, code),
    {
        if code == 0 {
            let text = chars_of(stdout);
            let ls = lines_of(&text);
            let connected = chars_of("connected");
            let loopback = chars_of("loopback");
            let ghost all = lines(stdout@);
            let mut k: usize = 0;
            assert(all.skip(0) == all);
            while k < ls.len()
                invariant
                    code == 0,
                    text@ == stdout@,
                    all == lines(stdout@),
                    ls@.len() == all.len(),
                    forall|j: int| 0 <= j < ls@.len() ==> #[trigger] ls@[j]@ == all[j],
                    connected@ == "connected"@,
                    loopback@ == "loopback"@,
                    k <= ls@.len(),
                    first_netsh_candidate(all) == first_netsh_candidate(all.skip(k as int)),
                decreases ls@.len() - k,
            {
                let line = &ls[k];
                let line_str = string_of(line);
                let lower = chars_of(to_lowercase(line_str.as_str()).as_str());
                assert(line@ == all[k as int]);
                assert(all.skip(k as int)[0] == all[k as int]);
                assert(all.skip(k as int).drop_first() == all.skip(k + 1));
                if contains(&lower, &connected) && !contains(&lower, &loopback) {
                    let ws = words_of(line);
                    if ws.len() > 0 {
                        let cand = &ws[ws.len() - 1];
                        if safe_name_chars(cand) {
                            let name = string_of(cand);
                            assert(netsh_line_candidate(lower@, line@) == Some(name@));
                            return name;
                        }
                    }
                }
                k += 1;
            }
            assert(all.skip(ls@.len() as int).len() == 0);
        }
        String::from_str("Ethernet")
    }

    /// The adapter named after "dev " in `ip route show default`, or "eno1".
    pub fn adapter_from_ip_route(stdout: &str, code: i32) -> (name: String)
        ensures
            name@ == match ip_route_adapter(stdout@, code) {
                Some(a) => a,
                None => "eno1"@,
            },
    {
        let text = chars_of(stdout);
        let dev = chars_of("dev ");
        proof {
            reveal_strlit("dev ");
        }
        if code == 0 && text.len() > 0 {
            match find_from(&text, &dev, 0) {
                Some(pos) => {
                    assert(contains_seq(stdout@, "dev "@));
                    assert(is_first_occurrence_from(stdout@, "dev "@, 0, pos as int));
                    let ghost chosen = choose|i: int| is_first_occurrence_from(stdout@, "dev "@, 0, i);
                    assert(chosen == pos) by {
                        if chosen < pos {
                            assert(!occurs_at(stdout@, "dev "@, chosen));
                        } else if chosen > pos {
                            assert(!occurs_at(stdout@, "dev "@, pos as int));
                        }
                    }
                    let rest = slice_chars(&text, pos + 4, text.len());
                    let ws = words_of(&rest);
                    let cand = if ws.len() > 0 {
                        slice_chars(&ws[0], 0, ws[0].len())
                    } else {
                        Vec::new()
                    };
                    proof {
                        if ws@.len() > 0 {
                            assert(ws@[0]@.subrange(0, ws@[0]@.len() as int) == ws@[0]@);
                        }
                    }
                    assert(cand@ == (if words(rest@).len() > 0 { words(rest@)[0] } else { Seq::empty() }));
                    if safe_name_chars(&cand) {
                        return string_of(&cand);
                    }
                },
                None => {
                    assert(!contains_seq(stdout@, "dev "@));
                },
            }
        }
        String::from_str("eno1")
    }

    /// The commands that flush the system DNS cache.
    pub fn flush_dns(platform: Platform) -> (cmds: Vec<String>)
        ensures
            views(cmds@) == flush_dns_spec(platform),
    {
        let mut cmds: Vec<String> = Vec::new();
        match platform {
            Platform::Windows => {
                push_str(&mut cmds, String::from_str("ipconfig /flushdns"));
            },
            Platform::Unix => {
                push_str(&mut cmds, String::from_str("sudo systemd-resolve --flush-caches"));
                push_str(&mut cmds, String::from_str("sudo resolvectl flush-caches"));
            },
        }
        cmds
    }

    /// The routing change that sends all traffic through the VPN gateway,
    /// or `None` (nothing is run) when the adapter name is not safe or the
    /// gateway or DNS server is not an IPv4 address.
    pub fn enable_routing(adapter: &str, vpn_gw: &str, vpn_dns: &str, platform: Platform) -> (plan:
        Option<CommandPlan>)
        ensures
            plan is None <==> !(is_safe_name(adapter@) && valid_ipv4(vpn_gw@) && valid_ipv4(vpn_dns@)),
            plan matches Some(p) ==> {
                let (cmds, d) = enable_routing_spec(adapter@, vpn_gw@, vpn_dns@, platform);
                &&& p.command_views() == cmds
                &&& p.decisive == Some(d as usize)
            },
    {
        if !Self::is_safe_adapter(adapter) || !is_valid_ipv4(vpn_gw) || !is_valid_ipv4(vpn_dns) {
            return None;
        }
        let mut cmds: Vec<String> = Vec::new();
        match platform {
            Platform::Windows => {
                push_str(&mut cmds, String::from_str("route delete 0.0.0.0 mask 0.0.0.0"));
                push_str(&mut cmds, cat3("route add 0.0.0.0 mask 0.0.0.0 ", vpn_gw, " metric 1"));
                push_str(&mut cmds, cat4("netsh interface ipv4 set dns name=\"", adapter, "\" static ", vpn_dns));
                Some(CommandPlan { commands: cmds, decisive: Some(1) })
            },
            Platform::Unix => {
                push_str(&mut cmds, cat3("sudo sysctl -w net.ipv6.conf.", adapter, ".disable_ipv6=1"));
                push_str(&mut cmds, cat4("sudo resolvectl dns ", adapter, " ", vpn_dns));
                push_str(&mut cmds, cat2("sudo ip route del default dev ", adapter));
                let mut last = cat4("sudo ip route add default via ", vpn_gw, " dev ", adapter);
                last.append(" metric 50");
                push_str(&mut cmds, last);
                Some(CommandPlan { commands: cmds, decisive: Some(3) })
            },
        }
    }

    /// The commands that restore normal routing, or `None` (nothing is run)
    /// when the adapter name is not safe or the gateway is not an address.
    pub fn disable_routing(adapter: &str, vpn_gw: &str, platform: Platform) -> (cmds: Option<Vec<String>>)
        ensures
            cmds is None <==> !(is_safe_name(adapter@) && valid_ipv4(vpn_gw@)),
            cmds matches Some(c) ==> views(c@) == disable_routing_spec(adapter@, vpn_gw@, platform),
    {
        if !Self::is_safe_adapter(adapter) || !is_valid_ipv4(vpn_gw) {
            return None;
        }
        let mut cmds: Vec<String> = Vec::new();
        match platform {
            Platform::Windows => {
                push_str(&mut cmds, cat2("route delete 0.0.0.0 mask 0.0.0.0 ", vpn_gw));
                push_str(&mut cmds, cat3("netsh interface ipv4 set dns name=\"", adapter, "\" source=dhcp"));
            },
            Platform::Unix => {
                push_str(&mut cmds, cat4("sudo ip route del default via ", vpn_gw, " dev ", adapter));
                push_str(&mut cmds, cat3("sudo sysctl -w net.ipv6.conf.", adapter, ".disable_ipv6=0"));
                push_str(&mut cmds, cat2("sudo resolvectl revert ", adapter));
            },
        }
        Some(cmds)
    }

    /// The kill-switch command that removes the VPN default route, or
    /// `None` when the values are not safe.
    pub fn kill_switch_delete_route(vpn_gw: &str, adapter: &str, platform: Platform) -> (cmd: Option<String>)
        ensures
            cmd is None <==> !(is_safe_name(adapter@) && valid_ipv4(vpn_gw@)),
            cmd matches Some(c) ==> c@ == kill_switch_spec(vpn_gw@, adapter@, platform),
    {
        if !Self::is_safe_adapter(adapter) || !is_valid_ipv4(vpn_gw) {
            return None;
        }
        match platform {
            Platform::Windows => Some(cat2("route delete 0.0.0.0 mask 0.0.0.0 ", vpn_gw)),
            Platform::Unix => Some(cat4("sudo ip route del default via ", vpn_gw, " dev ", adapter)),
        }
    }

    /// The command that lists the VPN default route, or `None` (the route is
    /// taken as absent) when the values are not safe.
    pub fn is_route_active(vpn_gw: &str, adapter: &str, platform: Platform) -> (cmd: Option<String>)
        ensures
            cmd is None <==> !(is_safe_name(adapter@) && valid_ipv4(vpn_gw@)),
            cmd matches Some(c) ==> c@ == route_query_spec(vpn_gw@, adapter@, platform),
    {
        if !Self::is_safe_adapter(adapter) || !is_valid_ipv4(vpn_gw) {
            return None;
        }
        match platform {
            Platform::Windows => Some(String::from_str("route print")),
            Platform::Unix => Some(cat4("ip route show default via ", vpn_gw, " dev ", adapter)),
        }
    }

    /// Does the output of the route query show the VPN route?
    pub fn route_listed(vpn_gw: &str, platform: Platform, out: &CommandOutput) -> (r: bool)
        ensures
            r == route_listed_spec(vpn_gw@, platform, out.stdout@, out.code),
    {
        if out.code != 0 {
            return false;
        }
        let text = chars_of(out.stdout.as_str());
        match platform {
            Platform::Windows => contains(&text, &chars_of(vpn_gw)),
            Platform::Unix => {
                let t = trim_chars(&text);
                t.len() > 0
            },
        }
    }

    /// The one-hop trace command, or `None` (no check; the VPN is taken as
    /// not carrying traffic) when the ISP gateway is not an address.
    pub fn check_connection(isp_gw: &str, platform: Platform) -> (cmd: Option<String>)
        ensures
            cmd is None <==> !valid_ipv4(isp_gw@),
            cmd matches Some(c) ==> c@ == trace_spec(platform),
    {
        if !is_valid_ipv4(isp_gw) {
            return None;
        }
        match platform {
            Platform::Windows => Some(String::from_str("tracert -d -h 1 8.8.8.8")),
            Platform::Unix => Some(String::from_str("traceroute -n -m 1 -w 1 8.8.8.8")),
        }
    }

    /// Is the first hop of the trace something other than the ISP gateway
    /// (traffic goes through the VPN)?
    pub fn first_hop_not_isp(isp_gw: &str, out: &CommandOutput) -> (r: bool)
        ensures
            r == first_hop_not_isp_spec(isp_gw@, out.stdout@, out.code),
    {
        if out.code == 0 && out.stdout.as_str().unicode_len() > 0 {
            let ips = extract_ips(out.stdout.as_str());
            if ips.len() > 0 {
                let first = chars_of(ips[0].as_str());
                assert(first@ == views(ips@)[0]);
                return !chars_equal(&first, &chars_of(isp_gw));
            }
        }
        false
    }

    /// The ping command for `host`, or `None` (taken as unreachable) when
    /// the host is not a safe name.
    pub fn ping_host(host: &str, platform: Platform) -> (cmd: Option<String>)
        ensures
            cmd is None <==> !is_safe_name(host@),
            cmd matches Some(c) ==> c@ == ping_spec(host@, platform),
    {
        if !Self::is_safe_host(host) {
            return None;
        }
        match platform {
            Platform::Windows => Some(cat2("ping -n 1 -w 1000 ", host)),
            Platform::Unix => Some(cat2("ping -c 1 -W 1 ", host)),
        }
    }
}

/// Turning VPN routing off undoes what turning it on did to IPv6 on Unix:
/// enabling writes the adapter's `disable_ipv6` sysctl with 1, and the
/// disable plan writes the same key back with 0.
pub proof fn disabling_restores_ipv6(adapter: Seq<char>, gw: Seq<char>, dns: Seq<char>)
    ensures
        ({
            let set = enable_routing_spec(adapter, gw, dns, Platform::Unix).0[0];
            &&& set.last() == '1'
            &&& disable_routing_spec(adapter, gw, Platform::Unix).contains(set.drop_last().push('0'))
        }),
{
    reveal_strlit(".disable_ipv6=1");
    reveal_strlit(".disable_ipv6=0");
    let p = "sudo sysctl -w net.ipv6.conf."@ + adapter;
    let set = enable_routing_spec(adapter, gw, dns, Platform::Unix).0[0];
    let unset = disable_routing_spec(adapter, gw, Platform::Unix)[1];
    assert(".disable_ipv6=1"@.len() == 15);
    assert(".disable_ipv6=0"@.len() == 15);
    assert(set == p + ".disable_ipv6=1"@);
    assert(set.last() == '1');
    assert(set.drop_last().push('0') =~= unset);
}

proof fn lemma_flushed_is_address(cur: Option<Seq<char>>)
    ensures
        forall|k: int| 0 <= k < flush(cur).len() ==> valid_ipv4(#[trigger] flush(cur)[k]),
{
    match cur {
        Some(t) => if valid_ipv4(t) {
            assert(flush(cur)[0] == t);
        },
        None => {},
    }
}

proof fn lemma_found_ips_are_addresses(s: Seq<char>, i: int, cur: Option<Seq<char>>)
    ensures
        forall|k: int| 0 <= k < ips_from(s, i, cur).len() ==> valid_ipv4(#[trigger] ips_from(s, i, cur)[k]),
    decreases s.len() - i,
{
    lemma_flushed_is_address(cur);
    if i < 0 || i >= s.len() {
        assert(ips_from(s, i, cur) == flush(cur));
    } else {
        let c = s[i];
        let next: Option<Seq<char>> = match cur {
            None => if is_digit(c) { Some(seq![c]) } else { None },
            Some(t) => if is_ip_char(c) { Some(t.push(c)) } else { None },
        };
        lemma_found_ips_are_addresses(s, i + 1, next);
        let r = ips_from(s, i + 1, next);
        if cur is Some && !is_ip_char(c) {
            let f = flush(cur);
            assert(ips_from(s, i, cur) == f + r);
            assert forall|k: int| 0 <= k < (f + r).len() implies valid_ipv4(#[trigger] (f + r)[k]) by {
                if k >= f.len() {
                    assert((f + r)[k] == r[k - f.len()]);
                } else {
                    assert((f + r)[k] == f[k]);
                }
            }
        } else {
            assert(ips_from(s, i, cur) == r);
        }
    }
}

/// The trace counts as traffic through the VPN only when it answered: the
/// command succeeded and its output names a first hop, an IPv4 address,
/// that is not the ISP gateway. An output without any address (a hop that
/// timed out, `* * *`) never counts.
pub proof fn vpn_traffic_needs_an_answering_first_hop(isp: Seq<char>, stdout: Seq<char>, code: i32)
    ensures
        first_hop_not_isp_spec(isp, stdout, code) ==> {
            &&& code == 0
            &&& ips_in(stdout).len() > 0
            &&& valid_ipv4(ips_in(stdout)[0])
            &&& ips_in(stdout)[0] != isp
        },
        ips_in(stdout).len() == 0 ==> !first_hop_not_isp_spec(isp, stdout, code),
{
    lemma_found_ips_are_addresses(stdout, 0, None);
}

/// The kill switch removes the same route that turning the VPN off
/// removes: its command is the first command of the disable plan.
pub proof fn kill_switch_removes_the_vpn_route(adapter: Seq<char>, gw: Seq<char>, platform: Platform)
    ensures
        kill_switch_spec(gw, adapter, platform) == disable_routing_spec(adapter, gw, platform)[0],
{
}

} // verus!
