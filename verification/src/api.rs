//! The VPN switcher backend's web page: the list of locations it offers,
//! which one is active, the error it reports, and the redirect-following
//! protocol for switching location.
//!
//! HTTP itself is the caller's part; the HTML document is parsed by the
//! `scraper` crate and everything the page means is decided here.

use vstd::prelude::*;
use vstd::string::StringExecFns;
use crate::text::{
    chars_equal, chars_of, contains, contains_seq, count_char, count_char_in, decimal,
    decimal_string, find_from, has_prefix, is_first_occurrence_from, is_ws, occurs_at, push_char,
    slice_chars, starts_with, string_of, string_of_range, to_lowercase, trim, trim_bounds,
    trim_chars, trim_end_char, trim_end_char_len, trim_to_string, unicode_lowercase, words,
    words_of,
};
use crate::system::views;

pub use crate::country::country_to_iso;

verus! {

/// A single available VPN location from the backend.
#[derive(Debug, Clone)]
pub struct Location {
    pub continent: String,
    pub value: String,
    pub label: String,
    /// Lowercase country name, for the ISO lookup.
    pub country: String,
}

pub struct LocationView {
    pub continent: Seq<char>,
    pub value: Seq<char>,
    pub label: Seq<char>,
    pub country: Seq<char>,
}

impl View for Location {
    type V = LocationView;

    open spec fn view(&self) -> LocationView {
        LocationView {
            continent: self.continent@,
            value: self.value@,
            label: self.label@,
            country: self.country@,
        }
    }
}

pub open spec fn location_views(v: Seq<Location>) -> Seq<LocationView> {
    v.map_values(|l: Location| l@)
}

pub open spec fn opt_str_view(o: Option<String>) -> Option<Seq<char>> {
    match o {
        Some(s) => Some(s@),
        None => None,
    }
}

/// The switcher backend's HTTP interface.
pub struct VpnApi;

// ---------------------------------------------------------------------------
// URLs
// ---------------------------------------------------------------------------

/// A URL with fewer than three slashes has no path: it gets exactly one
/// trailing slash.
pub open spec fn trailing_slash_spec(url: Seq<char>) -> Seq<char> {
    if count_char(url, '/') < 3 {
        trim_end_char(url, '/').push('/')
    } else {
        url
    }
}

/// Add a trailing slash if the URL has no path component, so that the web
/// server does not answer a POST with a redirect that would be followed as
/// a GET. A bare `http://host` has two slashes; three or more means a path
/// is already present.
pub fn ensure_trailing_slash(url: &str) -> (r: String)
    ensures
        r@ == trailing_slash_spec(url@),
{
    let v = chars_of(url);
    if count_char_in(&v, '/') < 3 {
        let hi = trim_end_char_len(&v, '/');
        let mut r = string_of_range(&v, 0, hi);
        push_char(&mut r, '/');
        r
    } else {
        string_of(&v)
    }
}

/// Where a redirect's `Location` value leads from the URL `current`: an
/// absolute URL as it is; an absolute path on the scheme and host of
/// `current`; anything else as it is.
pub open spec fn redirect_spec(current: Seq<char>, location: Seq<char>) -> Seq<char> {
    if starts_with(location, "http://"@) || starts_with(location, "https://"@) {
        location
    } else if starts_with(location, "/"@) && contains_seq(current, "://"@) {
        let idx = choose|i: int| is_first_occurrence_from(current, "://"@, 0, i);
        let rest = current.subrange(idx + 3, current.len() as int);
        let host_end = if contains_seq(rest, "/"@) {
            choose|j: int| is_first_occurrence_from(rest, "/"@, 0, j)
        } else {
            rest.len() as int
        };
        current.subrange(0, idx + 3 + host_end) + location
    } else {
        location
    }
}

proof fn lemma_first_occurrence_unique(s: Seq<char>, p: Seq<char>, i: int, j: int)
    requires
        is_first_occurrence_from(s, p, 0, i),
        is_first_occurrence_from(s, p, 0, j),
    ensures
        i == j,
{
    if i < j {
        assert(!occurs_at(s, p, i));
    } else if j < i {
        assert(!occurs_at(s, p, j));
    }
}

/// Resolve a redirect `Location` header value against the current URL.
pub fn resolve_redirect(current: &str, location: &str) -> (r: String)
    ensures
        r@ == redirect_spec(current@, location@),
{
    let loc = chars_of(location);
    if has_prefix(&loc, &chars_of("http://")) || has_prefix(&loc, &chars_of("https://")) {
        return string_of(&loc);
    }
    if has_prefix(&loc, &chars_of("/")) {
        let cur = chars_of(current);
        let sep = chars_of("://");
        proof {
            reveal_strlit("://");
            reveal_strlit("/");
        }
        match find_from(&cur, &sep, 0) {
            Some(idx) => {
                proof {
                    let c = choose|i: int| is_first_occurrence_from(current@, "://"@, 0, i);
                    lemma_first_occurrence_unique(current@, "://"@, c, idx as int);
                }
                assert(sep@.len() == 3);
                assert(occurs_at(cur@, sep@, idx as int));
                assert(idx + 3 <= cur.len());
                let rest = slice_chars(&cur, idx + 3, cur.len());
                let slash = chars_of("/");
                let host_end = match find_from(&rest, &slash, 0) {
                    Some(j) => {
                        proof {
                            let c = choose|k: int| is_first_occurrence_from(rest@, "/"@, 0, k);
                            lemma_first_occurrence_unique(rest@, "/"@, c, j as int);
                        }
                        j
                    },
                    None => {
                        assert(!contains_seq(rest@, "/"@));
                        rest.len()
                    },
                };
                let mut r = string_of_range(&cur, 0, idx + 3 + host_end);
                r.append(location);
                return r;
            },
            None => {
                assert(!contains_seq(current@, "://"@));
            },
        }
    }
    string_of(&loc)
}

// ---------------------------------------------------------------------------
// Emoji in labels
// ---------------------------------------------------------------------------

/// The globe emoji that prefix continent names (U+1F30D..U+1F310).
pub open spec fn is_globe(c: char) -> bool {
    let u = c as u32;
    0x1F30D <= u && u <= 0x1F310
}

/// Regional indicator symbols (U+1F1E6..U+1F1FF), the halves of flag emoji.
pub open spec fn is_regional_indicator(c: char) -> bool {
    let u = c as u32;
    0x1F1E6 <= u && u <= 0x1F1FF
}

/// `s` without the globe emoji.
pub open spec fn without_globes(s: Seq<char>) -> Seq<char>
    decreases s.len(),
{
    if s.len() == 0 {
        s
    } else if is_globe(s.last()) {
        without_globes(s.drop_last())
    } else {
        without_globes(s.drop_last()).push(s.last())
    }
}

/// `s` without regional indicator symbols.
pub open spec fn without_flags(s: Seq<char>) -> Seq<char>
    decreases s.len(),
{
    if s.len() == 0 {
        s
    } else if is_regional_indicator(s.last()) {
        without_flags(s.drop_last())
    } else {
        without_flags(s.drop_last()).push(s.last())
    }
}

pub open spec fn strip_continent_spec(s: Seq<char>) -> Seq<char> {
    trim(without_globes(s))
}

pub open spec fn strip_country_spec(s: Seq<char>) -> Seq<char> {
    trim(without_flags(s))
}

fn drop_globes(v: &Vec<char>) -> (r: Vec<char>)
    ensures
        r@ == without_globes(v@),
{
    let mut r: Vec<char> = Vec::new();
    let mut i: usize = 0;
    while i < v.len()
        invariant
            i <= v@.len(),
            r@ == without_globes(v@.take(i as int)),
        decreases v@.len() - i,
    {
        assert(v@.take(i + 1).drop_last() == v@.take(i as int));
        let u = v[i] as u32;
        if !(0x1F30D <= u && u <= 0x1F310) {
            r.push(v[i]);
        }
        i += 1;
    }
    assert(v@.take(v@.len() as int) == v@);
    r
}

fn drop_flags(v: &Vec<char>) -> (r: Vec<char>)
    ensures
        r@ == without_flags(v@),
{
    let mut r: Vec<char> = Vec::new();
    let mut i: usize = 0;
    while i < v.len()
        invariant
            i <= v@.len(),
            r@ == without_flags(v@.take(i as int)),
        decreases v@.len() - i,
    {
        assert(v@.take(i + 1).drop_last() == v@.take(i as int));
        let u = v[i] as u32;
        if !(0x1F1E6 <= u && u <= 0x1F1FF) {
            r.push(v[i]);
        }
        i += 1;
    }
    assert(v@.take(v@.len() as int) == v@);
    r
}

/// Remove the globe emoji that prefix continent names, and surrounding
/// white space.
pub fn strip_continent_emojis(s: &str) -> (r: String)
    ensures
        r@ == strip_continent_spec(s@),
{
    trim_to_string(&drop_globes(&chars_of(s)))
}

/// Remove flag emoji (regional indicator symbols), and surrounding white
/// space.
pub fn strip_country_emojis(s: &str) -> (r: String)
    ensures
        r@ == strip_country_spec(s@),
{
    trim_to_string(&drop_flags(&chars_of(s)))
}

// ---------------------------------------------------------------------------
// The HTML document
// ---------------------------------------------------------------------------

/// An element that a CSS selector matched: the values of the requested
/// attributes (in the order asked for) and the element's text content.
pub struct ScrapedElement {
    pub attrs: Vec<Option<String>>,
    pub text: String,
}

pub open spec fn scraped_view(e: ScrapedElement) -> (Seq<Option<Seq<char>>>, Seq<char>) {
    (e.attrs@.map_values(|a: Option<String>| opt_str_view(a)), e.text@)
}

pub open spec fn scraped_views(v: Seq<ScrapedElement>) -> Seq<(Seq<Option<Seq<char>>>, Seq<char>)> {
    v.map_values(|e: ScrapedElement| scraped_view(e))
}

/// What `scraper` finds when it parses `html` as a document and selects
/// `selector` in it: for each matched element in document order, the values
/// of the attributes `attrs` and the concatenated text of the element; or
/// `None` when `selector` is not valid CSS.
pub uninterp spec fn html_select(html: Seq<char>, selector: Seq<char>, attrs: Seq<Seq<char>>) -> Option<
    Seq<(Seq<Option<Seq<char>>>, Seq<char>)>,
>;

/// `scraper::Html::parse_document` followed by `Html::select` with
/// `scraper::Selector::parse(selector)`, reading `ElementRef::attr` for each
/// name in `attrs` and collecting `ElementRef::text`. The result is named
/// by `html_select`; nothing more is claimed of it.
#[verifier::external_body]
fn select_elements(html: &str, selector: &str, attrs: &Vec<&str>) -> (r: Option<Vec<ScrapedElement>>)
    ensures
        match r {
            Some(v) => html_select(html@, selector@, attrs@.map_values(|a: &str| a@)) == Some(
                scraped_views(v@),
            ),
            None => html_select(html@, selector@, attrs@.map_values(|a: &str| a@)) is None,
        },
{
    let sel = scraper::Selector::parse(selector).ok()?;
    let doc = scraper::Html::parse_document(html);
    let found = doc.select(&sel).map(|e| ScrapedElement {
        attrs: attrs.iter().map(|a| e.value().attr(a).map(|s| s.to_string())).collect(),
        text: e.text().collect(),
    });
    Some(found.collect())
}

pub open spec fn attr_of(e: (Seq<Option<Seq<char>>>, Seq<char>), k: int) -> Seq<char> {
    if 0 <= k < e.0.len() {
        match e.0[k] {
            Some(a) => a,
            None => Seq::empty(),
        }
    } else {
        Seq::empty()
    }
}

/// The value of the `k`-th requested attribute, or "" when it is absent.
fn attr_or_empty(e: &ScrapedElement, k: usize) -> (r: Vec<char>)
    ensures
        r@ == attr_of(scraped_view(*e), k as int),
{
    if k < e.attrs.len() {
        match &e.attrs[k] {
            Some(a) => chars_of(a.as_str()),
            None => Vec::new(),
        }
    } else {
        Vec::new()
    }
}

fn has_word(ws: &Vec<Vec<char>>, w: &Vec<char>) -> (r: bool)
    ensures
        r == exists|k: int| 0 <= k < ws@.len() && #[trigger] ws@[k]@ == w@,
{
    let mut k: usize = 0;
    while k < ws.len()
        invariant
            k <= ws@.len(),
            forall|j: int| 0 <= j < k ==> #[trigger] ws@[j]@ != w@,
        decreases ws@.len() - k,
    {
        if chars_equal(&ws[k], w) {
            return true;
        }
        k += 1;
    }
    false
}

pub open spec fn has_class(classes: Seq<Seq<char>>, name: Seq<char>) -> bool {
    exists|k: int| 0 <= k < classes.len() && #[trigger] classes[k] == name
}

/// What the parser has read so far: the locations, the active location's
/// label, and the continent heading that items fall under.
pub struct ParseState {
    pub locations: Seq<LocationView>,
    pub current: Option<Seq<char>>,
    pub continent: Option<Seq<char>>,
}

/// The part of a label before the first " - " (the country), lowercased and
/// trimmed.
pub open spec fn country_spec(label: Seq<char>) -> Seq<char> {
    let first = if contains_seq(label, " - "@) {
        label.subrange(0, choose|i: int| is_first_occurrence_from(label, " - "@, 0, i))
    } else {
        label
    };
    trim(unicode_lowercase(first))
}

/// One child of the dropdown: a continent heading starts a group; an item
/// with a value under a heading is a location (the active one, if so
/// marked); anything else is ignored.
pub open spec fn parse_step(st: ParseState, e: (Seq<Option<Seq<char>>>, Seq<char>)) -> ParseState {
    let classes = words(attr_of(e, 0));
    if has_class(classes, "optgroup-label"@) {
        ParseState { continent: Some(strip_continent_spec(trim(e.1))), ..st }
    } else if has_class(classes, "dropdown-item"@) {
        let value = attr_of(e, 1);
        let label = strip_country_spec(trim(e.1));
        match st.continent {
            Some(c) => if value.len() > 0 {
                let loc = LocationView {
                    continent: c,
                    value,
                    label,
                    country: country_spec(label),
                };
                ParseState {
                    locations: st.locations.push(loc),
                    current: if has_class(classes, "active"@) {
                        Some(label)
                    } else {
                        st.current
                    },
                    ..st
                }
            } else {
                st
            },
            None => st,
        }
    } else {
        st
    }
}

pub open spec fn parse_all(es: Seq<(Seq<Option<Seq<char>>>, Seq<char>)>) -> ParseState
    decreases es.len(),
{
    if es.len() == 0 {
        ParseState { locations: Seq::empty(), current: None, continent: None }
    } else {
        parse_step(parse_all(es.drop_last()), es.last())
    }
}

/// The locations and the active label that the dropdown's children give.
pub open spec fn locations_spec(es: Seq<(Seq<Option<Seq<char>>>, Seq<char>)>) -> (
    Seq<LocationView>,
    Option<Seq<char>>,
) {
    let st = parse_all(es);
    (st.locations, st.current)
}

/// A location's country is the part of its label before the first " - ",
/// lowercased and trimmed; a label without " - " is all country.
pub proof fn country_is_label_before_separator(label: Seq<char>, i: int)
    ensures
        !contains_seq(label, " - "@) ==> country_spec(label) == trim(unicode_lowercase(label)),
        is_first_occurrence_from(label, " - "@, 0, i) ==> country_spec(label) == trim(
            unicode_lowercase(label.subrange(0, i)),
        ),
{
    if is_first_occurrence_from(label, " - "@, 0, i) {
        let c = choose|k: int| is_first_occurrence_from(label, " - "@, 0, k);
        lemma_first_occurrence_unique(label, " - "@, c, i);
    }
}

fn country_of(label: &String) -> (r: String)
    ensures
        r@ == country_spec(label@),
{
    let l = chars_of(label.as_str());
    let sep = chars_of(" - ");
    let first = match find_from(&l, &sep, 0) {
        Some(i) => {
            proof {
                let c = choose|k: int| is_first_occurrence_from(label@, " - "@, 0, k);
                lemma_first_occurrence_unique(label@, " - "@, c, i as int);
            }
            string_of_range(&l, 0, i)
        },
        None => {
            assert(!contains_seq(label@, " - "@));
            string_of(&l)
        },
    };
    let lower = to_lowercase(first.as_str());
    trim_to_string(&chars_of(lower.as_str()))
}

/// Build the location list from the children of the backend page's
/// dropdown (attributes: `class`, then `data-value`).
pub fn locations_from_elements(es: &Vec<ScrapedElement>) -> (r: (Vec<Location>, Option<String>))
    ensures
        location_views(r.0@) == locations_spec(scraped_views(es@)).0,
        opt_str_view(r.1) == locations_spec(scraped_views(es@)).1,
{
    let optgroup = chars_of("optgroup-label");
    let item = chars_of("dropdown-item");
    let active = chars_of("active");
    let mut locations: Vec<Location> = Vec::new();
    let mut current: Option<String> = None;
    let mut continent: Option<String> = None;
    let ghost all = scraped_views(es@);
    let mut i: usize = 0;
    while i < es.len()
        invariant
            i <= es@.len(),
            all == scraped_views(es@),
            optgroup@ == "optgroup-label"@,
            item@ == "dropdown-item"@,
            active@ == "active"@,
            location_views(locations@) == parse_all(all.take(i as int)).locations,
            opt_str_view(current) == parse_all(all.take(i as int)).current,
            opt_str_view(continent) == parse_all(all.take(i as int)).continent,
        decreases es@.len() - i,
    {
        let e = &es[i];
        let ghost ev = all[i as int];
        assert(all.take(i + 1).drop_last() == all.take(i as int));
        assert(all.take(i + 1).last() == ev);
        assert(ev == scraped_view(es@[i as int]));
        let class_attr = attr_or_empty(e, 0);
        let classes = words_of(&class_attr);
        let ghost cls = words(attr_of(ev, 0));
        assert(classes@.map_values(|w: Vec<char>| w@) =~= cls);
        if has_word(&classes, &optgroup) {
            proof {
                let k = choose|k: int| 0 <= k < classes@.len() && #[trigger] classes@[k]@ == optgroup@;
                assert(cls[k] == "optgroup-label"@);
            }
            let text = trim_chars(&chars_of(e.text.as_str()));
            let c = strip_continent_emojis(string_of(&text).as_str());
            continent = Some(c);
        } else {
            assert(!has_class(cls, "optgroup-label"@)) by {
                if has_class(cls, "optgroup-label"@) {
                    let k = choose|k: int| 0 <= k < cls.len() && #[trigger] cls[k] == "optgroup-label"@;
                    assert(classes@[k]@ == optgroup@);
                }
            }
            if has_word(&classes, &item) {
                proof {
                    let k = choose|k: int| 0 <= k < classes@.len() && #[trigger] classes@[k]@ == item@;
                    assert(cls[k] == "dropdown-item"@);
                }
                let value = attr_or_empty(e, 1);
                let text = trim_chars(&chars_of(e.text.as_str()));
                let label = strip_country_emojis(string_of(&text).as_str());
                let is_active = has_word(&classes, &active);
                assert(is_active == has_class(cls, "active"@)) by {
                    if is_active {
                        let k = choose|k: int| 0 <= k < classes@.len() && #[trigger] classes@[k]@ == active@;
                        assert(cls[k] == "active"@);
                    }
                    if has_class(cls, "active"@) {
                        let k = choose|k: int| 0 <= k < cls.len() && #[trigger] cls[k] == "active"@;
                        assert(classes@[k]@ == active@);
                    }
                }
                match &continent {
                    Some(c) => {
                        if value.len() > 0 {
                            let country = country_of(&label);
                            let loc = Location {
                                continent: c.clone(),
                                value: string_of(&value),
                                label: label.clone(),
                                country,
                            };
                            let ghost before = locations@;
                            locations.push(loc);
                            assert(location_views(locations@) == location_views(before).push(loc@));
                            if is_active {
                                current = Some(label);
                            }
                        }
                    },
                    None => {},
                }
            } else {
                assert(!has_class(cls, "dropdown-item"@)) by {
                    if has_class(cls, "dropdown-item"@) {
                        let k = choose|k: int| 0 <= k < cls.len() && #[trigger] cls[k] == "dropdown-item"@;
                        assert(classes@[k]@ == item@);
                    }
                }
            }
        }
        i += 1;
    }
    assert(all.take(es@.len() as int) == all);
    (locations, current)
}

/// The children of the dropdown list on the backend page.
pub open spec fn dropdown_children(html: Seq<char>) -> Option<Seq<(Seq<Option<Seq<char>>>, Seq<char>)>> {
    html_select(html, ".dropdown-content > *"@, seq!["class"@, "data-value"@])
}

/// Parse the backend page: the available locations, grouped under the
/// continent headings that precede them, and the label of the active one.
pub fn parse_locations(html: &str) -> (r: (Vec<Location>, Option<String>))
    ensures
        match dropdown_children(html@) {
            Some(es) => location_views(r.0@) == locations_spec(es).0 && opt_str_view(r.1)
                == locations_spec(es).1,
            None => r.0@.len() == 0 && r.1 is None,
        },
{
    let mut attrs: Vec<&str> = Vec::new();
    attrs.push("class");
    attrs.push("data-value");
    assert(attrs@.map_values(|a: &str| a@) =~= seq!["class"@, "data-value"@]);
    match select_elements(html, ".dropdown-content > *", &attrs) {
        Some(es) => locations_from_elements(&es),
        None => (Vec::new(), None),
    }
}

/// The trimmed text of the first of the matched elements; `None` when there
/// is none or its text is blank.
pub open spec fn first_text_spec(es: Seq<(Seq<Option<Seq<char>>>, Seq<char>)>) -> Option<Seq<char>> {
    if es.len() > 0 && trim(es[0].1).len() > 0 {
        Some(trim(es[0].1))
    } else {
        None
    }
}

/// The message of the backend's error paragraph, trimmed; `None` when there
/// is none or it is blank.
pub open spec fn php_error_spec(html: Seq<char>) -> Option<Seq<char>> {
    match html_select(html, ".error strong"@, Seq::empty()) {
        Some(es) => first_text_spec(es),
        None => None,
    }
}

/// The error message from the `strong` elements found inside the backend
/// page's error paragraph: the first one's text, trimmed, unless blank.
pub fn php_error_from_elements(es: &Vec<ScrapedElement>) -> (r: Option<String>)
    ensures
        opt_str_view(r) == first_text_spec(scraped_views(es@)),
{
    if es.len() == 0 {
        return None;
    }
    let t = trim_to_string(&chars_of(es[0].text.as_str()));
    assert(scraped_views(es@)[0].1 == es@[0].text@);
    if t.as_str().is_empty() {
        None
    } else {
        Some(t)
    }
}

/// Extract the text of `<p class='error'><strong>...</strong></p>` from the
/// backend's HTML response.
pub fn extract_php_error(html: &str) -> (r: Option<String>)
    ensures
        opt_str_view(r) == php_error_spec(html@),
{
    let attrs: Vec<&str> = Vec::new();
    assert(attrs@.map_values(|a: &str| a@) =~= Seq::<Seq<char>>::empty());
    match select_elements(html, ".error strong", &attrs) {
        Some(es) => php_error_from_elements(&es),
        None => None,
    }
}

// ---------------------------------------------------------------------------
// Switching location
// ---------------------------------------------------------------------------

/// The most POSTs one switch makes (the first one and the redirects).
pub const MAX_SWITCH_POSTS: u8 = 5;

/// A location switch in progress: the URL to POST the form to next and how
/// many POSTs have been made.
pub struct SwitchSession {
    pub url: String,
    pub posts: u8,
}

/// What a response to the switch POST means.
pub enum SwitchVerdict {
    /// A redirect: POST again, to the session's new URL.
    Redirected,
    /// A final answer: read the body and hand it to `switch_outcome`.
    ReadBody,
    /// The switch failed with this message.
    Failed(String),
}

pub open spec fn is_redirect_status(status: u16) -> bool {
    301 <= status && status <= 308
}

pub open spec fn no_location_message(status: u16) -> Seq<char> {
    "Redirect "@ + decimal(status as nat) + " with no Location header"@
}

pub open spec fn backend_error_default() -> Seq<char> {
    "Backend reported an error during location switch"@
}

pub open spec fn not_taken_message() -> Seq<char> {
    "Switch did not appear to take effect (no active location in response)"@
}

pub open spec fn too_many_redirects_message() -> Seq<char> {
    "Too many redirects following switch POST"@
}

/// The backend page marks an error with a `class='error'` element.
pub open spec fn reports_error(html: Seq<char>) -> bool {
    contains_seq(html, "class='error'"@) || contains_seq(html, "class=\"error\""@)
}

/// The result of a switch whose final response has body `html`: the
/// backend's error, or the active location the page now shows.
pub open spec fn switch_outcome_spec(html: Seq<char>) -> Result<Seq<char>, Seq<char>> {
    if reports_error(html) {
        Err(
            match php_error_spec(html) {
                Some(m) => m,
                None => backend_error_default(),
            },
        )
    } else {
        match dropdown_children(html) {
            Some(es) => match locations_spec(es).1 {
                Some(label) => Ok(label),
                None => Err(not_taken_message()),
            },
            None => Err(not_taken_message()),
        }
    }
}

impl SwitchSession {
    /// Start switching the backend at `switcher_url`: the first POST goes to
    /// the URL with a trailing slash added when it has no path.
    pub fn start(switcher_url: &str) -> (s: SwitchSession)
        ensures
            s.url@ == trailing_slash_spec(switcher_url@),
            s.posts == 0,
    {
        SwitchSession { url: ensure_trailing_slash(switcher_url), posts: 0 }
    }

    /// The URL to POST to next, or `None` when the POST budget is spent
    /// (the switch then fails with `too_many_redirects`).
    pub fn next_post(&mut self) -> (url: Option<String>)
        ensures
            old(self).posts < MAX_SWITCH_POSTS ==> (url matches Some(u) && u@ == old(self).url@
                && final(self).posts == old(self).posts + 1),
            old(self).posts >= MAX_SWITCH_POSTS ==> url is None && final(self).posts == old(self).posts,
            final(self).url@ == old(self).url@,
    {
        if self.posts < MAX_SWITCH_POSTS {
            self.posts = self.posts + 1;
            Some(self.url.clone())
        } else {
            None
        }
    }

    /// Judge the status of the response to the last POST and its
    /// `Location` header: a redirect with a location moves the session to
    /// the resolved URL; a redirect without one fails; anything else is a
    /// final answer.
    pub fn on_status(&mut self, status: u16, location: Option<&str>) -> (v: SwitchVerdict)
        ensures
            final(self).posts == old(self).posts,
            is_redirect_status(status) && location is Some ==> v is Redirected && final(self).url@
                == redirect_spec(old(self).url@, location->0@),
            is_redirect_status(status) && location is None ==> (v matches SwitchVerdict::Failed(m)
                && m@ == no_location_message(status) && final(self).url@ == old(self).url@),
            !is_redirect_status(status) ==> v is ReadBody && final(self).url@ == old(self).url@,
    {
        if 301 <= status && status <= 308 {
            match location {
                Some(loc) => {
                    self.url = resolve_redirect(self.url.as_str(), loc);
                    SwitchVerdict::Redirected
                },
                None => {
                    let mut m = String::from_str("Redirect ");
                    m.append(decimal_string(status as u64).as_str());
                    m.append(" with no Location header");
                    SwitchVerdict::Failed(m)
                },
            }
        } else {
            SwitchVerdict::ReadBody
        }
    }
}

/// The result of a switch from the body of its final response.
pub fn switch_outcome(html: &str) -> (r: Result<String, String>)
    ensures
        match r {
            Ok(l) => switch_outcome_spec(html@) == Ok::<Seq<char>, Seq<char>>(l@),
            Err(m) => switch_outcome_spec(html@) == Err::<Seq<char>, Seq<char>>(m@),
        },
{
    let h = chars_of(html);
    if contains(&h, &chars_of("class='error'")) || contains(&h, &chars_of("class=\"error\"")) {
        return match extract_php_error(html) {
            Some(m) => Err(m),
            None => Err(String::from_str("Backend reported an error during location switch")),
        };
    }
    let (_, current) = parse_locations(html);
    match current {
        Some(label) => Ok(label),
        None => Err(String::from_str("Switch did not appear to take effect (no active location in response)")),
    }
}

/// The message of a switch that could not reach the backend.
pub fn switch_transport_error(e: &str) -> (m: String)
    ensures
        m@ == "Failed to switch location: "@ + e@,
{
    let mut m = String::from_str("Failed to switch location: ");
    m.append(e);
    m
}

/// The message of a switch that ran out of POSTs.
pub fn too_many_redirects() -> (m: String)
    ensures
        m@ == too_many_redirects_message(),
{
    String::from_str("Too many redirects following switch POST")
}

} // verus!
