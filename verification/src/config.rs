//! User preferences: favourites, the last location, auto-connect settings
//! and network addresses. Reading and writing the configuration file is
//! done by the caller; the preferences and their rules are here.

use vstd::prelude::*;
use crate::system::views;
use crate::text::{chars_equal, chars_of};
use vstd::string::StringExecFns;

verus! {

/// Persistent user configuration.
#[derive(Debug, Clone)]
pub struct AppConfig {
    pub favorites: Vec<String>,
    pub auto_connect: bool,
    pub auto_reconnect: bool,
    pub last_location: Option<String>,
    pub vpn_gateway: Option<String>,
    pub isp_gateway: Option<String>,
    pub dns_server: Option<String>,
    pub switcher_url: Option<String>,
    pub setup_complete: bool,
    /// Language override. `None` = detect from the system locale.
    pub language: Option<String>,
}

impl Default for AppConfig {
    fn default() -> (c: Self)
        ensures
            c.favorites@.len() == 0,
            !c.auto_connect,
            !c.auto_reconnect,
            c.last_location is None,
            c.vpn_gateway is None,
            c.isp_gateway is None,
            c.dns_server is None,
            c.switcher_url is None,
            !c.setup_complete,
            c.language is None,
    {
        AppConfig {
            favorites: Vec::new(),
            auto_connect: false,
            auto_reconnect: false,
            last_location: None,
            vpn_gateway: None,
            isp_gateway: None,
            dns_server: None,
            switcher_url: None,
            setup_complete: false,
            language: None,
        }
    }
}

/// `i` is the first position of `l` in `f`.
pub open spec fn first_index(f: Seq<Seq<char>>, l: Seq<char>, i: int) -> bool {
    &&& 0 <= i < f.len()
    &&& f[i] == l
    &&& forall|j: int| 0 <= j < i ==> f[j] != l
}

/// The favourites after toggling `l`: its first occurrence removed if it is
/// there, otherwise `l` added at the end.
pub open spec fn toggled(f: Seq<Seq<char>>, l: Seq<char>) -> Seq<Seq<char>> {
    if f.contains(l) {
        f.remove(choose|i: int| first_index(f, l, i))
    } else {
        f.push(l)
    }
}

proof fn lemma_first_index_exists(f: Seq<Seq<char>>, l: Seq<char>, k: int)
    requires
        0 <= k < f.len(),
        f[k] == l,
    ensures
        exists|i: int| first_index(f, l, i),
    decreases k,
{
    if exists|j: int| 0 <= j < k && f[j] == l {
        let j = choose|j: int| 0 <= j < k && f[j] == l;
        lemma_first_index_exists(f, l, j);
    } else {
        assert(first_index(f, l, k));
    }
}

proof fn lemma_first_index_unique(f: Seq<Seq<char>>, l: Seq<char>, i: int, j: int)
    requires
        first_index(f, l, i),
        first_index(f, l, j),
    ensures
        i == j,
{
}

impl AppConfig {
    pub open spec fn favorite_views(&self) -> Seq<Seq<char>> {
        views(self.favorites@)
    }

    /// Is `label` one of the favourites (exact, case-sensitive match)?
    pub fn is_favorite(&self, label: &str) -> (r: bool)
        ensures
            r == self.favorite_views().contains(label@),
    {
        match self.favorite_position(label) {
            Some(i) => true,
            None => false,
        }
    }

    fn favorite_position(&self, label: &str) -> (r: Option<usize>)
        ensures
            match r {
                Some(i) => first_index(self.favorite_views(), label@, i as int),
                None => !self.favorite_views().contains(label@),
            },
    {
        let l = chars_of(label);
        let ghost f = self.favorite_views();
        let mut i: usize = 0;
        while i < self.favorites.len()
            invariant
                f == self.favorite_views(),
                l@ == label@,
                i <= f.len(),
                forall|j: int| 0 <= j < i ==> f[j] != label@,
            decreases f.len() - i,
        {
            let fav = chars_of(self.favorites[i].as_str());
            assert(fav@ == f[i as int]);
            if chars_equal(&fav, &l) {
                return Some(i);
            }
            i += 1;
        }
        None
    }

    /// Add `label` to the favourites, or remove it if it is already there.
    /// Nothing else changes; writing the configuration back is the caller's
    /// part.
    pub fn toggle_favorite(&mut self, label: &str)
        ensures
            final(self).favorite_views() == toggled(old(self).favorite_views(), label@),
            final(self).auto_connect == old(self).auto_connect,
            final(self).auto_reconnect == old(self).auto_reconnect,
            final(self).last_location == old(self).last_location,
            final(self).vpn_gateway == old(self).vpn_gateway,
            final(self).isp_gateway == old(self).isp_gateway,
            final(self).dns_server == old(self).dns_server,
            final(self).switcher_url == old(self).switcher_url,
            final(self).setup_complete == old(self).setup_complete,
            final(self).language == old(self).language,
    {
        let ghost f = self.favorite_views();
        match self.favorite_position(label) {
            Some(pos) => {
                proof {
                    let c = choose|i: int| first_index(f, label@, i);
                    lemma_first_index_unique(f, label@, c, pos as int);
                }
                let ghost before = self.favorites@;
                self.favorites.remove(pos);
                assert(views(self.favorites@) =~= views(before).remove(pos as int));
            },
            None => {
                let ghost before = self.favorites@;
                self.favorites.push(String::from_str(label));
                assert(views(self.favorites@) =~= views(before).push(label@));
            },
        }
    }
}

/// Toggling a label that is not a favourite twice gives the favourites
/// back unchanged.
pub proof fn toggle_twice_restores(f: Seq<Seq<char>>, l: Seq<char>)
    requires
        !f.contains(l),
    ensures
        toggled(toggled(f, l), l) == f,
{
    let g = f.push(l);
    assert(g[f.len() as int] == l);
    assert(first_index(g, l, f.len() as int)) by {
        assert forall|j: int| 0 <= j < f.len() implies g[j] != l by {
            assert(g[j] == f[j]);
        }
    }
    assert(g.contains(l));
    let c = choose|i: int| first_index(g, l, i);
    lemma_first_index_unique(g, l, c, f.len() as int);
    assert(g.remove(f.len() as int) =~= f);
}

/// Toggling keeps favourites free of duplicates, and with no duplicates it
/// flips whether each label is a favourite: the toggled label changes, all
/// others stay as they were.
pub proof fn toggle_flips_membership(f: Seq<Seq<char>>, l: Seq<char>, other: Seq<char>)
    requires
        f.no_duplicates(),
    ensures
        toggled(f, l).no_duplicates(),
        toggled(f, l).contains(l) == !f.contains(l),
        other != l ==> toggled(f, l).contains(other) == f.contains(other),
{
    if f.contains(l) {
        let k = choose|k: int| 0 <= k < f.len() && f[k] == l;
        lemma_first_index_exists(f, l, k);
        let i = choose|i: int| first_index(f, l, i);
        let g = f.remove(i);
        assert(g == toggled(f, l));
        assert forall|a: int, b: int| 0 <= a < g.len() && 0 <= b < g.len() && a != b implies g[a]
            != g[b] by {
            let fa = if a < i { a } else { a + 1 };
            let fb = if b < i { b } else { b + 1 };
            assert(g[a] == f[fa]);
            assert(g[b] == f[fb]);
        }
        if g.contains(l) {
            let m = choose|m: int| 0 <= m < g.len() && g[m] == l;
            let fm = if m < i { m } else { m + 1 };
            assert(f[fm] == l);
        }
        if other != l {
            if f.contains(other) {
                let m = choose|m: int| 0 <= m < f.len() && f[m] == other;
                let gm = if m < i { m } else { m - 1 };
                assert(g[gm] == other);
            }
            if g.contains(other) {
                let m = choose|m: int| 0 <= m < g.len() && g[m] == other;
                let fm = if m < i { m } else { m + 1 };
                assert(f[fm] == other);
            }
        }
    } else {
        let g = f.push(l);
        assert(g[f.len() as int] == l);
        assert forall|a: int, b: int| 0 <= a < g.len() && 0 <= b < g.len() && a != b implies g[a]
            != g[b] by {
            if a < f.len() && b < f.len() {
                assert(g[a] == f[a] && g[b] == f[b]);
            } else if a < f.len() {
                assert(g[a] == f[a]);
            } else if b < f.len() {
                assert(g[b] == f[b]);
            }
        }
        if other != l {
            if f.contains(other) {
                let m = choose|m: int| 0 <= m < f.len() && f[m] == other;
                assert(g[m] == other);
            }
            if g.contains(other) {
                let m = choose|m: int| 0 <= m < g.len() && g[m] == other;
                assert(m < f.len());
                assert(f[m] == other);
            }
        }
    }
}

} // verus!
