//! The location picker: the order in which the backend's locations are
//! listed (favourites first, then by continent, then by label), the search
//! filter, the section headings, and what a click or a finished switch
//! does. Drawing the list and running the switch are the caller's part.

use vstd::prelude::*;
use vstd::string::StringExecFns;
use crate::api::{location_views, opt_str_view, Location, LocationView};
use crate::config::AppConfig;
use crate::country::{country_to_iso, iso_code};
use crate::dialogs::message;
use crate::locale::{arg_views, fill, t_fmt, Translations};
use crate::text::{
    ascii_lower, chars_equal, chars_of, contains, contains_seq, eq_ignore_ascii_case, string_of,
    to_lowercase, trim, unicode_lowercase,
};

verus! {

// ---------------------------------------------------------------------------
// String order
// ---------------------------------------------------------------------------

/// `a` sorts before `b` in Rust's order on strings: at the first position
/// where they differ the smaller code point wins, and a proper prefix comes
/// first. (UTF-8 keeps code-point order, so this is also the byte order.)
pub open spec fn str_lt(a: Seq<char>, b: Seq<char>) -> bool
    decreases a.len(),
{
    if a.len() == 0 {
        b.len() > 0
    } else if b.len() == 0 {
        false
    } else if a[0] != b[0] {
        a[0] < b[0]
    } else {
        str_lt(a.drop_first(), b.drop_first())
    }
}

proof fn lemma_str_lt_irreflexive(a: Seq<char>)
    ensures
        !str_lt(a, a),
    decreases a.len(),
{
    if a.len() > 0 {
        lemma_str_lt_irreflexive(a.drop_first());
    }
}

proof fn lemma_str_lt_transitive(a: Seq<char>, b: Seq<char>, c: Seq<char>)
    requires
        str_lt(a, b),
        str_lt(b, c),
    ensures
        str_lt(a, c),
    decreases a.len(),
{
    if a.len() > 0 && b.len() > 0 && c.len() > 0 && a[0] == b[0] && b[0] == c[0] {
        lemma_str_lt_transitive(a.drop_first(), b.drop_first(), c.drop_first());
    }
}

proof fn lemma_str_lt_total(a: Seq<char>, b: Seq<char>)
    ensures
        a == b || str_lt(a, b) || str_lt(b, a),
    decreases a.len(),
{
    if a.len() > 0 && b.len() > 0 && a[0] == b[0] {
        lemma_str_lt_total(a.drop_first(), b.drop_first());
        if a.drop_first() == b.drop_first() {
            assert(a =~= seq![a[0]] + a.drop_first());
            assert(b =~= seq![b[0]] + b.drop_first());
        }
    } else if a.len() == 0 && b.len() == 0 {
        assert(a =~= b);
    }
}

/// Compare two strings in Rust's order on strings.
pub fn str_less(a: &str, b: &str) -> (r: bool)
    ensures
        r == str_lt(a@, b@),
{
    let x = chars_of(a);
    let y = chars_of(b);
    let mut i: usize = 0;
    assert(a@.skip(0) =~= a@ && b@.skip(0) =~= b@);
    while i < x.len() && i < y.len() && x[i] == y[i]
        invariant
            x@ == a@,
            y@ == b@,
            i <= x@.len(),
            i <= y@.len(),
            str_lt(a@, b@) == str_lt(a@.skip(i as int), b@.skip(i as int)),
        decreases x@.len() - i,
    {
        assert(a@.skip(i as int).drop_first() =~= a@.skip(i + 1));
        assert(b@.skip(i as int).drop_first() =~= b@.skip(i + 1));
        i += 1;
    }
    if i == x.len() {
        i < y.len()
    } else if i == y.len() {
        false
    } else {
        x[i] < y[i]
    }
}

// ---------------------------------------------------------------------------
// Listing order
// ---------------------------------------------------------------------------

/// The sort key of a location: favourites first, then by continent, then
/// by label. `fa` and `fb` tell whether `a` and `b` are favourites.
pub open spec fn key_before(fa: bool, a: LocationView, fb: bool, b: LocationView) -> bool {
    ||| fa && !fb
    ||| fa == fb && str_lt(a.continent, b.continent)
    ||| fa == fb && a.continent == b.continent && str_lt(a.label, b.label)
}

/// `a` is listed before `b`, given the favourite labels `favs`.
pub open spec fn listed_before(favs: Seq<Seq<char>>, a: LocationView, b: LocationView) -> bool {
    key_before(favs.contains(a.label), a, favs.contains(b.label), b)
}

/// Two locations with the same sort key.
pub open spec fn same_key(a: LocationView, b: LocationView) -> bool {
    a.continent == b.continent && a.label == b.label
}

/// Index `x` occurs in `order`.
pub open spec fn holds_index(order: Seq<usize>, x: int) -> bool {
    exists|i: int| 0 <= i < order.len() && #[trigger] order[i] == x
}

/// `order` lists the first `n` locations of `ls` (each index once), sorted
/// by the listing key, locations with equal keys in the order given.
pub open spec fn sorts_prefix(ls: Seq<LocationView>, favs: Seq<Seq<char>>, order: Seq<usize>, n: int) -> bool {
    &&& order.len() == n
    &&& forall|i: int| 0 <= i < order.len() ==> order[i] < n
    &&& forall|i: int, j: int| 0 <= i < j < order.len() ==> order[i] != order[j]
    &&& forall|x: int| 0 <= x < n ==> #[trigger] holds_index(order, x)
    &&& forall|i: int, j: int|
        0 <= i < j < order.len() ==> !listed_before(favs, ls[order[j] as int], ls[order[i] as int])
    &&& forall|i: int, j: int|
        0 <= i < j < order.len() && same_key(ls[order[i] as int], ls[order[j] as int]) ==> order[i]
            < order[j]
}

/// `order` is the order in which the locations `ls` are listed: a
/// permutation of their indices, sorted by the listing key, and stable.
pub open spec fn is_listing_order(ls: Seq<LocationView>, favs: Seq<Seq<char>>, order: Seq<usize>) -> bool {
    sorts_prefix(ls, favs, order, ls.len() as int)
}

proof fn lemma_listed_before_irreflexive(favs: Seq<Seq<char>>, a: LocationView, b: LocationView)
    requires
        same_key(a, b),
    ensures
        !listed_before(favs, a, b),
{
    lemma_str_lt_irreflexive(a.continent);
    lemma_str_lt_irreflexive(a.label);
}

proof fn lemma_listed_before_transitive(
    favs: Seq<Seq<char>>,
    a: LocationView,
    b: LocationView,
    c: LocationView,
)
    requires
        listed_before(favs, a, b),
        listed_before(favs, b, c),
    ensures
        listed_before(favs, a, c),
{
    if str_lt(a.continent, b.continent) && str_lt(b.continent, c.continent) {
        lemma_str_lt_transitive(a.continent, b.continent, c.continent);
    }
    if str_lt(a.label, b.label) && str_lt(b.label, c.label) {
        lemma_str_lt_transitive(a.label, b.label, c.label);
    }
}

proof fn lemma_listed_before_asymmetric(favs: Seq<Seq<char>>, a: LocationView, b: LocationView)
    requires
        listed_before(favs, a, b),
    ensures
        !listed_before(favs, b, a),
{
    if listed_before(favs, b, a) {
        lemma_listed_before_transitive(favs, a, b, a);
        lemma_listed_before_irreflexive(favs, a, a);
    }
}

/// Being listed before is a strict weak order: what comes before `b` comes
/// before whatever `b` is not listed after.
proof fn lemma_listed_before_weak(
    favs: Seq<Seq<char>>,
    a: LocationView,
    b: LocationView,
    c: LocationView,
)
    requires
        listed_before(favs, a, b),
        !listed_before(favs, c, b),
    ensures
        listed_before(favs, a, c),
{
    lemma_str_lt_total(b.continent, c.continent);
    lemma_str_lt_total(b.label, c.label);
    if listed_before(favs, b, c) {
        lemma_listed_before_transitive(favs, a, b, c);
    }
}

proof fn lemma_insert_keeps_sorted(
    ls: Seq<LocationView>,
    favs: Seq<Seq<char>>,
    o: Seq<usize>,
    k: usize,
    p: int,
)
    requires
        sorts_prefix(ls, favs, o, k as int),
        k < ls.len(),
        0 <= p <= o.len(),
        forall|q: int| 0 <= q < p ==> !listed_before(favs, ls[k as int], #[trigger] ls[o[q] as int]),
        p < o.len() ==> listed_before(favs, ls[k as int], ls[o[p] as int]),
    ensures
        sorts_prefix(ls, favs, o.insert(p, k), k + 1),
{
    let n = o.insert(p, k);
    assert forall|x: int| 0 <= x < k + 1 implies #[trigger] holds_index(n, x) by {
        if x == k {
            assert(n[p] == k);
        } else {
            assert(holds_index(o, x));
            let i = choose|i: int| 0 <= i < o.len() && #[trigger] o[i] == x;
            if i < p {
                assert(n[i] == x);
            } else {
                assert(n[i + 1] == x);
            }
        }
    }
    assert forall|j: int| p < j < n.len() implies listed_before(
        favs,
        ls[k as int],
        ls[#[trigger] n[j] as int],
    ) by {
        if j - 1 > p {
            lemma_listed_before_weak(favs, ls[k as int], ls[o[p] as int], ls[o[j - 1] as int]);
        }
    }
    assert forall|i: int, j: int| 0 <= i < j < n.len() implies !listed_before(
        favs,
        ls[n[j] as int],
        ls[n[i] as int],
    ) by {
        if i == p {
            lemma_listed_before_asymmetric(favs, ls[k as int], ls[n[j] as int]);
        } else if j == p {
        } else if i < p && j > p {
            assert(n[i] == o[i]);
            assert(n[j] == o[j - 1]);
        }
    }
    assert forall|i: int, j: int|
        0 <= i < j < n.len() && same_key(ls[n[i] as int], ls[n[j] as int]) implies n[i] < n[j] by {
        if i == p {
            lemma_listed_before_irreflexive(favs, ls[k as int], ls[n[j] as int]);
        } else if j == p {
        } else if i < p && j > p {
            assert(n[i] == o[i]);
            assert(n[j] == o[j - 1]);
        }
    }
}

/// The list is grouped as promised: every favourite comes before every
/// other location, and within each of the two groups the continents come
/// in order, so each continent's locations stand together.
pub proof fn listing_groups_favourites_then_continents(
    ls: Seq<LocationView>,
    favs: Seq<Seq<char>>,
    order: Seq<usize>,
    i: int,
    j: int,
)
    requires
        is_listing_order(ls, favs, order),
        0 <= i < j < order.len(),
    ensures
        favs.contains(ls[order[j] as int].label) ==> favs.contains(ls[order[i] as int].label),
        favs.contains(ls[order[i] as int].label) == favs.contains(ls[order[j] as int].label)
            ==> !str_lt(ls[order[j] as int].continent, ls[order[i] as int].continent),
{
    assert(!listed_before(favs, ls[order[j] as int], ls[order[i] as int]));
}

/// Two locations neither of which is listed before the other have the
/// same sort key.
proof fn lemma_listed_before_total(favs: Seq<Seq<char>>, a: LocationView, b: LocationView)
    requires
        !listed_before(favs, a, b),
        !listed_before(favs, b, a),
    ensures
        same_key(a, b),
{
    lemma_str_lt_total(a.continent, b.continent);
    lemma_str_lt_total(a.label, b.label);
}

proof fn lemma_orders_agree_below(
    ls: Seq<LocationView>,
    favs: Seq<Seq<char>>,
    o1: Seq<usize>,
    o2: Seq<usize>,
    k: int,
)
    requires
        is_listing_order(ls, favs, o1),
        is_listing_order(ls, favs, o2),
        0 <= k <= o1.len(),
    ensures
        forall|j: int| 0 <= j < k ==> o1[j] == o2[j],
    decreases k,
{
    if k > 0 {
        let m = k - 1;
        lemma_orders_agree_below(ls, favs, o1, o2, m);
        let a = o1[m];
        let b = o2[m];
        if a != b {
            assert(holds_index(o1, b as int));
            assert(holds_index(o2, a as int));
            let p = choose|i: int| 0 <= i < o1.len() && #[trigger] o1[i] == b as int;
            let q = choose|i: int| 0 <= i < o2.len() && #[trigger] o2[i] == a as int;
            if p < m {
                assert(o2[p] == b);
            }
            if q < m {
                assert(o1[q] == a);
            }
            assert(m < p && m < q);
            assert(!listed_before(favs, ls[b as int], ls[a as int]));
            assert(!listed_before(favs, ls[a as int], ls[b as int]));
            lemma_listed_before_total(favs, ls[a as int], ls[b as int]);
            assert(same_key(ls[o2[m] as int], ls[o2[q] as int]));
            assert(a < b);
            assert(b < a);
        }
    }
}

/// The listing order is determined: the locations and the favourites fix
/// the order in which they are listed.
pub proof fn listing_order_is_unique(
    ls: Seq<LocationView>,
    favs: Seq<Seq<char>>,
    o1: Seq<usize>,
    o2: Seq<usize>,
)
    requires
        is_listing_order(ls, favs, o1),
        is_listing_order(ls, favs, o2),
    ensures
        o1 == o2,
{
    lemma_orders_agree_below(ls, favs, o1, o2, o1.len() as int);
    assert(o1 =~= o2);
}

fn favorite_flags(locations: &Vec<Location>, cfg: &AppConfig) -> (flags: Vec<bool>)
    ensures
        flags@.len() == locations@.len(),
        forall|i: int|
            0 <= i < flags@.len() ==> flags@[i] == cfg.favorite_views().contains(
                locations@[i].label@,
            ),
{
    let mut flags: Vec<bool> = Vec::new();
    let mut k: usize = 0;
    while k < locations.len()
        invariant
            k <= locations@.len(),
            flags@.len() == k,
            forall|i: int|
                0 <= i < k ==> flags@[i] == cfg.favorite_views().contains(locations@[i].label@),
        decreases locations@.len() - k,
    {
        flags.push(cfg.is_favorite(locations[k].label.as_str()));
        k += 1;
    }
    flags
}

fn listed_before_at(locations: &Vec<Location>, flags: &Vec<bool>, a: usize, b: usize) -> (r: bool)
    requires
        a < locations@.len(),
        b < locations@.len(),
        flags@.len() == locations@.len(),
    ensures
        r == key_before(flags@[a as int], locations@[a as int]@, flags@[b as int], locations@[b as int]@),
{
    let fa = flags[a];
    let fb = flags[b];
    let la = &locations[a];
    let lb = &locations[b];
    if fa && !fb {
        return true;
    }
    if fa != fb {
        return false;
    }
    if str_less(la.continent.as_str(), lb.continent.as_str()) {
        return true;
    }
    if str_less(lb.continent.as_str(), la.continent.as_str()) {
        proof {
            lemma_str_lt_irreflexive(la.continent@);
        }
        return false;
    }
    proof {
        lemma_str_lt_total(la.continent@, lb.continent@);
    }
    str_less(la.label.as_str(), lb.label.as_str())
}

/// The order in which the locations are listed: indices into `locations`,
/// favourites first, then by continent, then by label, in Rust's string
/// order; locations with the same continent and label keep their order.
pub fn listing_order(locations: &Vec<Location>, cfg: &AppConfig) -> (order: Vec<usize>)
    ensures
        is_listing_order(location_views(locations@), cfg.favorite_views(), order@),
{
    let ghost ls = location_views(locations@);
    let ghost favs = cfg.favorite_views();
    let flags = favorite_flags(locations, cfg);
    let mut order: Vec<usize> = Vec::new();
    let mut k: usize = 0;
    while k < locations.len()
        invariant
            ls == location_views(locations@),
            favs == cfg.favorite_views(),
            flags@.len() == locations@.len(),
            forall|i: int| 0 <= i < flags@.len() ==> flags@[i] == favs.contains(ls[i].label),
            k <= locations@.len(),
            sorts_prefix(ls, favs, order@, k as int),
        decreases locations@.len() - k,
    {
        let mut p: usize = 0;
        let mut found = false;
        while !found && p < order.len()
            invariant
                ls == location_views(locations@),
                flags@.len() == locations@.len(),
                forall|i: int| 0 <= i < flags@.len() ==> flags@[i] == favs.contains(ls[i].label),
                k < locations@.len(),
                sorts_prefix(ls, favs, order@, k as int),
                p <= order@.len(),
                forall|q: int|
                    0 <= q < p ==> !listed_before(favs, ls[k as int], #[trigger] ls[order@[q] as int]),
                found ==> p < order@.len() && listed_before(favs, ls[k as int], ls[order@[p as int] as int]),
            decreases order@.len() - p + (if found { 0int } else { 1int }),
        {
            if listed_before_at(locations, &flags, k, order[p]) {
                found = true;
            } else {
                p += 1;
            }
        }
        proof {
            lemma_insert_keeps_sorted(ls, favs, order@, k, p as int);
        }
        order.insert(p, k);
        k += 1;
    }
    order
}

// ---------------------------------------------------------------------------
// Rows of the list
// ---------------------------------------------------------------------------

/// One row of the location list, in the order it is shown.
pub struct LocationRow {
    /// The section heading drawn above this row, where the section changes.
    pub heading: Option<String>,
    /// The label as shown: favourites carry a leading `* `.
    pub display_label: String,
    pub label: String,
    pub value: String,
    /// The ISO code of the location's country, for its flag.
    pub iso: Option<String>,
    /// The row is the currently selected location.
    pub selected: bool,
    pub favorite: bool,
}

pub struct LocationRowView {
    pub heading: Option<Seq<char>>,
    pub display_label: Seq<char>,
    pub label: Seq<char>,
    pub value: Seq<char>,
    pub iso: Option<Seq<char>>,
    pub selected: bool,
    pub favorite: bool,
}

impl View for LocationRow {
    type V = LocationRowView;

    open spec fn view(&self) -> LocationRowView {
        LocationRowView {
            heading: opt_str_view(self.heading),
            display_label: self.display_label@,
            label: self.label@,
            value: self.value@,
            iso: opt_str_view(self.iso),
            selected: self.selected,
            favorite: self.favorite,
        }
    }
}

pub open spec fn row_views(v: Seq<LocationRow>) -> Seq<LocationRowView> {
    v.map_values(|r: LocationRow| r@)
}

/// The locations `ls` taken in the order `order`.
pub open spec fn in_order(ls: Seq<LocationView>, order: Seq<usize>) -> Seq<LocationView> {
    order.map_values(|k: usize| ls[k as int])
}

/// A location passes the search when the lowercased query is empty or
/// occurs in its lowercased label.
pub open spec fn passes_search(l: LocationView, query: Seq<char>) -> bool {
    query.len() == 0 || contains_seq(unicode_lowercase(l.label), query)
}

/// The section a location is listed under: the favourites heading for a
/// favourite, else its continent.
pub open spec fn section_of(favs: Seq<Seq<char>>, l: LocationView, favorites_heading: Seq<char>) -> Seq<char> {
    if favs.contains(l.label) {
        favorites_heading
    } else {
        l.continent
    }
}

pub open spec fn display_label_of(favs: Seq<Seq<char>>, l: LocationView) -> Seq<char> {
    if favs.contains(l.label) {
        seq!['*', ' '] + l.label
    } else {
        l.label
    }
}

/// The row shown for `l` under the heading `heading`.
pub open spec fn row_of(
    favs: Seq<Seq<char>>,
    l: LocationView,
    selected: Option<Seq<char>>,
    heading: Option<Seq<char>>,
) -> LocationRowView {
    LocationRowView {
        heading: heading,
        display_label: display_label_of(favs, l),
        label: l.label,
        value: l.value,
        iso: iso_code(trim(l.country)),
        selected: selected == Some(l.value),
        favorite: favs.contains(l.label),
    }
}

/// The rows shown for the locations `ls`, taken in order: those that pass
/// the search, each with a heading where its section differs from the
/// section of the row shown before it (`last`).
pub open spec fn rows_spec(
    ls: Seq<LocationView>,
    favs: Seq<Seq<char>>,
    query: Seq<char>,
    selected: Option<Seq<char>>,
    favorites_heading: Seq<char>,
    last: Option<Seq<char>>,
) -> Seq<LocationRowView>
    decreases ls.len(),
{
    if ls.len() == 0 {
        Seq::empty()
    } else {
        let l = ls[0];
        if !passes_search(l, query) {
            rows_spec(ls.drop_first(), favs, query, selected, favorites_heading, last)
        } else {
            let sec = section_of(favs, l, favorites_heading);
            let heading = if last == Some(sec) {
                None
            } else {
                Some(sec)
            };
            seq![row_of(favs, l, selected, heading)] + rows_spec(
                ls.drop_first(),
                favs,
                query,
                selected,
                favorites_heading,
                Some(sec),
            )
        }
    }
}

/// `rows` are the rows shown for the locations `ls` taken in their listing
/// order (which `is_listing_order` determines).
pub open spec fn lists_rows(
    ls: Seq<LocationView>,
    favs: Seq<Seq<char>>,
    query: Seq<char>,
    selected: Option<Seq<char>>,
    favorites_heading: Seq<char>,
    rows: Seq<LocationRowView>,
) -> bool {
    exists|order: Seq<usize>|
        is_listing_order(ls, favs, order) && rows == rows_spec(
            in_order(ls, order),
            favs,
            query,
            selected,
            favorites_heading,
            None,
        )
}

pub open spec fn chars_view(o: Option<Vec<char>>) -> Option<Seq<char>> {
    match o {
        Some(v) => Some(v@),
        None => None,
    }
}

fn opt_equals(o: &Option<String>, s: &str) -> (r: bool)
    ensures
        r == (opt_str_view(*o) == Some(s@)),
{
    match o {
        Some(v) => chars_equal(&chars_of(v.as_str()), &chars_of(s)),
        None => false,
    }
}

fn iso_string(country: &str) -> (r: Option<String>)
    ensures
        opt_str_view(r) == iso_code(trim(country@)),
{
    match country_to_iso(country) {
        Some(code) => Some(String::from_str(code)),
        None => None,
    }
}

fn make_row(
    loc: &Location,
    favorite: bool,
    selected_value: &Option<String>,
    heading: Option<String>,
) -> (r: LocationRow)
    ensures
        r@ == (LocationRowView {
            heading: opt_str_view(heading),
            display_label: if favorite {
                seq!['*', ' '] + loc.label@
            } else {
                loc.label@
            },
            label: loc.label@,
            value: loc.value@,
            iso: iso_code(trim(loc.country@)),
            selected: opt_str_view(*selected_value) == Some(loc.value@),
            favorite: favorite,
        }),
{
    let display_label = if favorite {
        let mut d: Vec<char> = Vec::new();
        d.push('*');
        d.push(' ');
        let label = chars_of(loc.label.as_str());
        let mut i: usize = 0;
        while i < label.len()
            invariant
                i <= label@.len(),
                d@ == seq!['*', ' '] + label@.take(i as int),
            decreases label@.len() - i,
        {
            d.push(label[i]);
            assert(label@.take(i + 1) == label@.take(i as int).push(label@[i as int]));
            i += 1;
        }
        assert(label@.take(label@.len() as int) == label@);
        string_of(&d)
    } else {
        loc.label.clone()
    };
    LocationRow {
        heading,
        display_label,
        label: loc.label.clone(),
        value: loc.value.clone(),
        iso: iso_string(loc.country.as_str()),
        selected: opt_equals(selected_value, loc.value.as_str()),
        favorite,
    }
}

/// The rows of the location list: the locations in listing order (see
/// `listing_order`), those whose lowercased label contains the lowercased
/// `search`, with section headings (`favorites_heading` for the favourites,
/// else the continent), favourites marked, the row whose value is
/// `selected_value` selected, and each row's country code.
pub fn location_rows(
    locations: &Vec<Location>,
    cfg: &AppConfig,
    search: &str,
    selected_value: &Option<String>,
    favorites_heading: &str,
) -> (rows: Vec<LocationRow>)
    ensures
        lists_rows(
            location_views(locations@),
            cfg.favorite_views(),
            unicode_lowercase(search@),
            opt_str_view(*selected_value),
            favorites_heading@,
            row_views(rows@),
        ),
{
    let ghost ls = location_views(locations@);
    let ghost favs = cfg.favorite_views();
    let order = listing_order(locations, cfg);
    let ghost sorted = in_order(ls, order@);
    let query_text = to_lowercase(search);
    let query = chars_of(query_text.as_str());
    let heading_text = chars_of(favorites_heading);
    let ghost q = query@;
    let ghost sel = opt_str_view(*selected_value);
    let ghost fh = favorites_heading@;
    let mut rows: Vec<LocationRow> = Vec::new();
    let mut last: Option<Vec<char>> = None;
    let mut i: usize = 0;
    assert(sorted.skip(0) =~= sorted);
    while i < order.len()
        invariant
            ls == location_views(locations@),
            favs == cfg.favorite_views(),
            is_listing_order(ls, favs, order@),
            sorted == in_order(ls, order@),
            q == unicode_lowercase(search@),
            query@ == q,
            heading_text@ == fh,
            sel == opt_str_view(*selected_value),
            i <= order@.len(),
            row_views(rows@) + rows_spec(
                sorted.skip(i as int),
                favs,
                q,
                sel,
                fh,
                chars_view(last),
            ) == rows_spec(sorted, favs, q, sel, fh, None),
        decreases order@.len() - i,
    {
        let ghost rest = sorted.skip(i as int);
        assert(rest.drop_first() =~= sorted.skip(i + 1));
        let loc = &locations[order[i]];
        assert(rest[0] == loc@);
        let label_lower = to_lowercase(loc.label.as_str());
        let shown = query.len() == 0 || contains(&chars_of(label_lower.as_str()), &query);
        if shown {
            let favorite = cfg.is_favorite(loc.label.as_str());
            let section = if favorite {
                heading_text.clone()
            } else {
                chars_of(loc.continent.as_str())
            };
            assert(section@ == section_of(favs, loc@, fh));
            let same = match &last {
                Some(v) => chars_equal(v, &section),
                None => false,
            };
            let heading = if same {
                None
            } else {
                Some(string_of(&section))
            };
            let row = make_row(loc, favorite, selected_value, heading);
            let ghost before = rows@;
            rows.push(row);
            assert(row_views(rows@) =~= row_views(before).push(row@));
            assert(row_views(rows@) + rows_spec(sorted.skip(i + 1), favs, q, sel, fh, Some(section@))
                =~= row_views(before) + (seq![row@] + rows_spec(sorted.skip(i + 1), favs, q, sel, fh, Some(section@))));
            last = Some(section);
        }
        i += 1;
    }
    assert(sorted.skip(order@.len() as int) =~= Seq::<LocationView>::empty());
    assert(row_views(rows@) =~= row_views(rows@) + Seq::<LocationRowView>::empty());
    assert(is_listing_order(ls, favs, order@) && row_views(rows@) == rows_spec(sorted, favs, q, sel, fh, None));
    rows
}

// ---------------------------------------------------------------------------
// The picker's state
// ---------------------------------------------------------------------------

/// The state of the location picker window.
pub struct LocationPicker {
    pub cfg: AppConfig,
    pub locations: Vec<Location>,
    pub selected_value: Option<String>,
    pub selected_label: Option<String>,
    pub search_text: String,
    pub is_loading: bool,
    pub is_switching: bool,
    /// The message shown under the search field after a switch.
    pub switch_status: Option<String>,
    pub switch_ok: bool,
}

/// A switch to start: post `value` to the switcher at `url`.
pub struct SwitchRequest {
    pub url: String,
    pub value: String,
}

/// What the caller does once a switch has finished.
#[derive(Debug, Clone, Copy, PartialEq, Eq, Structural)]
pub struct SwitchFollowUp {
    /// Write the configuration back (its last location changed).
    pub save_config: bool,
    /// Tell the daemon to reload the configuration.
    pub reload_config: bool,
    /// Tell the daemon to reconnect.
    pub reconnect: bool,
    /// Close the window.
    pub close: bool,
}

/// `i` is the first location in `ls` labelled `label`.
pub open spec fn first_labelled(ls: Seq<LocationView>, label: Seq<char>, i: int) -> bool {
    &&& 0 <= i < ls.len()
    &&& ls[i].label == label
    &&& forall|j: int| 0 <= j < i ==> ls[j].label != label
}

/// The two configurations agree but for the last location.
pub open spec fn same_but_last_location(a: AppConfig, b: AppConfig) -> bool {
    &&& a.favorites == b.favorites
    &&& a.auto_connect == b.auto_connect
    &&& a.auto_reconnect == b.auto_reconnect
    &&& a.vpn_gateway == b.vpn_gateway
    &&& a.isp_gateway == b.isp_gateway
    &&& a.dns_server == b.dns_server
    &&& a.switcher_url == b.switcher_url
    &&& a.setup_complete == b.setup_complete
    &&& a.language == b.language
}

/// The label that was asked for: the selected label, or the empty string.
pub open spec fn requested_label(selected_label: Option<String>) -> Seq<char> {
    match selected_label {
        Some(l) => l@,
        None => Seq::empty(),
    }
}

pub open spec fn same_ignoring_ascii_case(a: Seq<char>, b: Seq<char>) -> bool {
    a.map_values(|c: char| ascii_lower(c)) == b.map_values(|c: char| ascii_lower(c))
}

fn first_labelled_index(locations: &Vec<Location>, label: &str) -> (r: Option<usize>)
    ensures
        match r {
            Some(i) => first_labelled(location_views(locations@), label@, i as int),
            None => !exists|i: int| first_labelled(location_views(locations@), label@, i),
        },
{
    let ghost ls = location_views(locations@);
    let c = chars_of(label);
    let mut i: usize = 0;
    while i < locations.len()
        invariant
            ls == location_views(locations@),
            c@ == label@,
            i <= locations@.len(),
            forall|j: int| 0 <= j < i ==> ls[j].label != label@,
        decreases locations@.len() - i,
    {
        if chars_equal(&chars_of(locations[i].label.as_str()), &c) {
            return Some(i);
        }
        i += 1;
    }
    None
}

impl LocationPicker {
    /// A picker for the configuration `cfg`, waiting for the locations.
    pub fn new(cfg: AppConfig) -> (p: LocationPicker)
        ensures
            p.cfg == cfg,
            p.locations@.len() == 0,
            p.selected_value is None,
            p.selected_label is None,
            p.search_text@.len() == 0,
            p.is_loading,
            !p.is_switching,
            p.switch_status is None,
            !p.switch_ok,
    {
        LocationPicker {
            cfg,
            locations: Vec::new(),
            selected_value: None,
            selected_label: None,
            search_text: String::new(),
            is_loading: true,
            is_switching: false,
            switch_status: None,
            switch_ok: false,
        }
    }

    /// The backend's locations have arrived (an empty list when fetching
    /// failed), with the label of the active one. The first location with
    /// that label becomes the selection.
    pub fn on_locations_fetched(&mut self, locations: Vec<Location>, current: Option<String>)
        ensures
            final(self).locations@ == locations@,
            !final(self).is_loading,
            match current {
                Some(cur) => if exists|i: int| first_labelled(location_views(locations@), cur@, i) {
                    exists|i: int|
                        first_labelled(location_views(locations@), cur@, i) && opt_str_view(
                            final(self).selected_value,
                        ) == Some(locations@[i].value@) && opt_str_view(final(self).selected_label)
                            == Some(locations@[i].label@)
                } else {
                    final(self).selected_value == old(self).selected_value
                        && final(self).selected_label == old(self).selected_label
                },
                None => final(self).selected_value == old(self).selected_value
                    && final(self).selected_label == old(self).selected_label,
            },
            final(self).cfg == old(self).cfg,
            final(self).search_text == old(self).search_text,
            final(self).is_switching == old(self).is_switching,
            final(self).switch_status == old(self).switch_status,
            final(self).switch_ok == old(self).switch_ok,
    {
        if let Some(cur) = &current {
            if let Some(i) = first_labelled_index(&locations, cur.as_str()) {
                self.selected_value = Some(locations[i].value.clone());
                self.selected_label = Some(locations[i].label.clone());
            }
        }
        self.locations = locations;
        self.is_loading = false;
    }

    /// A left click on the row of the location `value` (labelled `label`):
    /// unless a switch is running or it is already selected, it becomes the
    /// selection, and where a switcher URL is configured a switch to it
    /// starts.
    pub fn on_click(&mut self, value: &str, label: &str) -> (r: Option<SwitchRequest>)
        ensures
            (old(self).is_switching || opt_str_view(old(self).selected_value) == Some(value@)) ==> r
                is None && *final(self) == *old(self),
            !(old(self).is_switching || opt_str_view(old(self).selected_value) == Some(value@)) ==> {
                &&& opt_str_view(final(self).selected_value) == Some(value@)
                &&& opt_str_view(final(self).selected_label) == Some(label@)
                &&& match old(self).cfg.switcher_url {
                    Some(url) => {
                        &&& r matches Some(req) && req.url@ == url@ && req.value@ == value@
                        &&& final(self).is_switching
                        &&& final(self).switch_status is None
                    },
                    None => {
                        &&& r is None
                        &&& final(self).is_switching == old(self).is_switching
                        &&& final(self).switch_status == old(self).switch_status
                    },
                }
                &&& final(self).cfg == old(self).cfg
                &&& final(self).locations == old(self).locations
                &&& final(self).search_text == old(self).search_text
                &&& final(self).is_loading == old(self).is_loading
                &&& final(self).switch_ok == old(self).switch_ok
            },
    {
        if self.is_switching || opt_equals(&self.selected_value, value) {
            return None;
        }
        self.selected_value = Some(String::from_str(value));
        self.selected_label = Some(String::from_str(label));
        match &self.cfg.switcher_url {
            Some(url) => {
                let url = url.clone();
                self.is_switching = true;
                self.switch_status = None;
                Some(SwitchRequest { url, value: String::from_str(value) })
            },
            None => None,
        }
    }

    /// A right click on the row labelled `label` toggles it as a favourite;
    /// the caller writes the configuration back.
    pub fn on_right_click(&mut self, label: &str)
        ensures
            final(self).cfg.favorite_views() == crate::config::toggled(
                old(self).cfg.favorite_views(),
                label@,
            ),
            final(self).cfg.last_location == old(self).cfg.last_location,
            final(self).cfg.switcher_url == old(self).cfg.switcher_url,
            final(self).locations == old(self).locations,
            final(self).selected_value == old(self).selected_value,
            final(self).selected_label == old(self).selected_label,
            final(self).is_switching == old(self).is_switching,
    {
        self.cfg.toggle_favorite(label);
    }

    /// A switch has finished: `result` is the label the backend confirmed,
    /// or the error. `daemon_state` is the state the daemon last reported.
    pub fn on_switch_done(
        &mut self,
        table: &Translations,
        result: &Result<String, String>,
        daemon_state: Option<&str>,
    ) -> (f: SwitchFollowUp)
        ensures
            !final(self).is_switching,
            final(self).locations == old(self).locations,
            final(self).selected_value == old(self).selected_value,
            final(self).selected_label == old(self).selected_label,
            match result {
                Ok(confirmed) => {
                    &&& opt_str_view(final(self).cfg.last_location) == Some(confirmed@)
                    &&& same_but_last_location(final(self).cfg, old(self).cfg)
                    &&& f.save_config && f.reload_config
                    &&& if same_ignoring_ascii_case(
                        confirmed@,
                        requested_label(old(self).selected_label),
                    ) {
                        &&& final(self).switch_ok
                        &&& final(self).switch_status == old(self).switch_status
                        &&& f.close
                        &&& f.reconnect == (match daemon_state {
                            Some(s) => s@ == "Connected"@,
                            None => false,
                        })
                    } else {
                        &&& !final(self).switch_ok
                        &&& opt_str_view(final(self).switch_status) == Some(
                            fill(
                                message(table@, "location_win.switch_failed"@),
                                seq![("location"@, confirmed@)],
                            ),
                        )
                        &&& !f.close && !f.reconnect
                    }
                },
                Err(e) => {
                    &&& final(self).cfg == old(self).cfg
                    &&& !final(self).switch_ok
                    &&& opt_str_view(final(self).switch_status) == Some(
                        fill(message(table@, "location_win.switch_error"@), seq![("msg"@, e@)]),
                    )
                    &&& !f.save_config && !f.reload_config && !f.reconnect && !f.close
                },
            },
    {
        match result {
            Ok(confirmed) => {
                self.cfg.last_location = Some(confirmed.clone());
                let matches = match &self.selected_label {
                    Some(l) => eq_ignore_ascii_case(confirmed.as_str(), l.as_str()),
                    None => {
                        proof {
                            reveal_strlit("");
                        }
                        assert(""@ =~= Seq::<char>::empty());
                        eq_ignore_ascii_case(confirmed.as_str(), "")
                    },
                };
                if !matches {
                    let args = [("location", confirmed.as_str())];
                    assert(arg_views(args@) =~= seq![("location"@, confirmed@)]);
                    self.switch_status = Some(t_fmt(table, "location_win.switch_failed", &args));
                    self.switch_ok = false;
                    self.is_switching = false;
                    return SwitchFollowUp {
                        save_config: true,
                        reload_config: true,
                        reconnect: false,
                        close: false,
                    };
                }
                let reconnect = match daemon_state {
                    Some(s) => chars_equal(&chars_of(s), &chars_of("Connected")),
                    None => false,
                };
                self.switch_ok = true;
                self.is_switching = false;
                SwitchFollowUp { save_config: true, reload_config: true, reconnect, close: true }
            },
            Err(e) => {
                let args = [("msg", e.as_str())];
                assert(arg_views(args@) =~= seq![("msg"@, e@)]);
                self.switch_status = Some(t_fmt(table, "location_win.switch_error", &args));
                self.switch_ok = false;
                self.is_switching = false;
                SwitchFollowUp { save_config: false, reload_config: false, reconnect: false, close: false }
            },
        }
    }

    /// The rows the picker shows now.
    pub fn rows(&self, favorites_heading: &str) -> (rows: Vec<LocationRow>)
        ensures
            lists_rows(
                location_views(self.locations@),
                self.cfg.favorite_views(),
                unicode_lowercase(self.search_text@),
                opt_str_view(self.selected_value),
                favorites_heading@,
                row_views(rows@),
            ),
    {
        location_rows(
            &self.locations,
            &self.cfg,
            self.search_text.as_str(),
            &self.selected_value,
            favorites_heading,
        )
    }
}

} // verus!
