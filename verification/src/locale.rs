//! Localization: the table of translated messages and the lookup and
//! placeholder substitution over it.
//!
//! The English table is complete; another language's table holds only the
//! keys it translates, and every other key falls back to English. The
//! tables' JSON text is supplied by the caller.

use vstd::prelude::*;
use vstd::string::StringExecFns;
use crate::text::{chars_equal, chars_of, has_prefix, matches_at, occurs_at, push_char, starts_with,
    to_lowercase, unicode_lowercase};

verus! {

pub open spec fn pair_views(v: Seq<(String, String)>) -> Seq<(Seq<char>, Seq<char>)> {
    v.map_values(|p: (String, String)| (p.0@, p.1@))
}

/// What `serde_json` reads from `json` as an object whose values are all
/// strings: its entries, ordered by key, the last value of a repeated key
/// winning; `None` when `json` is not such an object.
pub uninterp spec fn json_string_map(json: Seq<char>) -> Option<Seq<(Seq<char>, Seq<char>)>>;

/// `serde_json::from_str` into a `BTreeMap<String, String>`, its entries
/// collected in order. The result is named by `json_string_map`.
#[verifier::external_body]
fn parse_string_map(json: &str) -> (r: Option<Vec<(String, String)>>)
    ensures
        match r {
            Some(v) => json_string_map(json@) == Some(pair_views(v@)),
            None => json_string_map(json@) is None,
        },
{
    let map = serde_json::from_str::<std::collections::BTreeMap<String, String>>(json).ok()?;
    Some(map.into_iter().collect())
}

pub open spec fn entries_or_empty(json: Seq<char>) -> Seq<(Seq<char>, Seq<char>)> {
    match json_string_map(json) {
        Some(e) => e,
        None => Seq::empty(),
    }
}

/// The value of the last entry with key `key`.
pub open spec fn lookup(es: Seq<(Seq<char>, Seq<char>)>, key: Seq<char>) -> Option<Seq<char>>
    decreases es.len(),
{
    if es.len() == 0 {
        None
    } else if es.last().0 == key {
        Some(es.last().1)
    } else {
        lookup(es.drop_last(), key)
    }
}

/// The translation table: English entries, then the active language's.
pub struct Translations {
    entries: Vec<(String, String)>,
}

impl View for Translations {
    type V = Seq<(Seq<char>, Seq<char>)>;

    closed spec fn view(&self) -> Seq<(Seq<char>, Seq<char>)> {
        pair_views(self.entries@)
    }
}

/// The table for `language`: every English entry, overridden by the
/// language's own entries unless the language is English. Text that does
/// not parse gives no entries.
pub open spec fn table_spec(english_json: Seq<char>, language: Seq<char>, language_json: Seq<char>) -> Seq<
    (Seq<char>, Seq<char>),
> {
    if language == "en"@ {
        entries_or_empty(english_json)
    } else {
        entries_or_empty(english_json) + entries_or_empty(language_json)
    }
}

impl Translations {
    /// Build the table from the English messages and those of `language`.
    pub fn new(english_json: &str, language: &str, language_json: &str) -> (t: Translations)
        ensures
            t@ == table_spec(english_json@, language@, language_json@),
    {
        let mut entries = match parse_string_map(english_json) {
            Some(v) => v,
            None => Vec::new(),
        };
        if !chars_equal(&chars_of(language), &chars_of("en")) {
            let ghost base = entries@;
            let mut extra = match parse_string_map(language_json) {
                Some(v) => v,
                None => Vec::new(),
            };
            let ghost more = extra@;
            entries.append(&mut extra);
            assert(pair_views(entries@) =~= pair_views(base) + pair_views(more));
        }
        Translations { entries }
    }

    fn get(&self, key: &str) -> (r: Option<String>)
        ensures
            match r {
                Some(v) => lookup(self@, key@) == Some(v@),
                None => lookup(self@, key@) is None,
            },
    {
        let k = chars_of(key);
        let ghost es = self@;
        let mut i = self.entries.len();
        assert(es.take(i as int) == es);
        while i > 0
            invariant
                es == pair_views(self.entries@),
                k@ == key@,
                i <= es.len(),
                lookup(es, key@) == lookup(es.take(i as int), key@),
            decreases i,
        {
            let ghost t = es.take(i as int);
            assert(t.drop_last() == es.take(i - 1));
            let entry_key = chars_of(self.entries[i - 1].0.as_str());
            if chars_equal(&entry_key, &k) {
                return Some(self.entries[i - 1].1.clone());
            }
            i -= 1;
        }
        None
    }
}

/// Look up a message; the key itself when there is none.
pub fn t(table: &Translations, key: &str) -> (r: String)
    ensures
        r@ == match lookup(table@, key@) {
            Some(v) => v,
            None => key@,
        },
{
    match table.get(key) {
        Some(v) => v,
        None => String::from_str(key),
    }
}

/// `s` with every occurrence of the non-empty pattern `p` replaced by `r`,
/// occurrences found from the left without overlap (`str::replace`).
pub open spec fn replace_all(s: Seq<char>, p: Seq<char>, r: Seq<char>) -> Seq<char>
    decreases s.len(),
{
    if p.len() == 0 || s.len() < p.len() {
        s
    } else if s.take(p.len() as int) == p {
        r + replace_all(s.skip(p.len() as int), p, r)
    } else {
        seq![s[0]] + replace_all(s.drop_first(), p, r)
    }
}

/// The placeholder `{name}`.
pub open spec fn placeholder(name: Seq<char>) -> Seq<char> {
    seq!['{'] + name + seq!['}']
}

/// `s` with the placeholders of `args[..n]` substituted in order.
pub open spec fn fill(s: Seq<char>, args: Seq<(Seq<char>, Seq<char>)>) -> Seq<char>
    decreases args.len(),
{
    if args.len() == 0 {
        s
    } else {
        replace_all(fill(s, args.drop_last()), placeholder(args.last().0), args.last().1)
    }
}

fn replace_str(s: &Vec<char>, p: &Vec<char>, r: &str) -> (out: Vec<char>)
    requires
        p@.len() > 0,
    ensures
        out@ == replace_all(s@, p@, r@),
{
    let rv = chars_of(r);
    let mut out: Vec<char> = Vec::new();
    let mut i: usize = 0;
    assert(s@.skip(0) == s@);
    while i < s.len()
        invariant
            p@.len() > 0,
            rv@ == r@,
            i <= s@.len(),
            out@ + replace_all(s@.skip(i as int), p@, r@) == replace_all(s@, p@, r@),
        decreases s@.len() - i,
    {
        let ghost rest = s@.skip(i as int);
        if matches_at(s, p, i) {
            assert(rest.take(p@.len() as int) == s@.subrange(i as int, i + p@.len()));
            assert(rest.skip(p@.len() as int) == s@.skip(i + p@.len()));
            let ghost before = out@;
            let mut k: usize = 0;
            while k < rv.len()
                invariant
                    k <= rv@.len(),
                    out@ == before + rv@.take(k as int),
                decreases rv@.len() - k,
            {
                out.push(rv[k]);
                assert(rv@.take(k + 1) == rv@.take(k as int).push(rv@[k as int]));
                k += 1;
            }
            assert(rv@.take(rv@.len() as int) == rv@);
            assert(out@ + replace_all(s@.skip(i + p@.len()), p@, r@) == before + replace_all(rest, p@, r@));
            i += p.len();
        } else {
            proof {
                if rest.len() >= p@.len() {
                    assert(rest.take(p@.len() as int) == s@.subrange(i as int, i + p@.len()));
                }
                assert(rest.drop_first() == s@.skip(i + 1));
                assert(rest[0] == s@[i as int]);
            }
            let ghost before = out@;
            out.push(s[i]);
            assert(out@ == before + seq![s@[i as int]]);
            i += 1;
        }
    }
    assert(s@.skip(s@.len() as int).len() == 0);
    out
}

fn placeholder_of(name: &str) -> (p: Vec<char>)
    ensures
        p@ == placeholder(name@),
{
    let mut p: Vec<char> = Vec::new();
    p.push('{');
    let n = chars_of(name);
    let mut k: usize = 0;
    while k < n.len()
        invariant
            k <= n@.len(),
            p@ == seq!['{'] + n@.take(k as int),
        decreases n@.len() - k,
    {
        p.push(n[k]);
        assert(n@.take(k + 1) == n@.take(k as int).push(n@[k as int]));
        k += 1;
    }
    assert(n@.take(n@.len() as int) == n@);
    p.push('}');
    p
}

pub open spec fn arg_views(args: Seq<(&str, &str)>) -> Seq<(Seq<char>, Seq<char>)> {
    args.map_values(|a: (&str, &str)| (a.0@, a.1@))
}

/// Look up a message and substitute its named placeholders, written
/// `{name}`, in the order the arguments are given.
pub fn t_fmt(table: &Translations, key: &str, args: &[(&str, &str)]) -> (r: String)
    ensures
        r@ == fill(
            match lookup(table@, key@) {
                Some(v) => v,
                None => key@,
            },
            arg_views(args@),
        ),
{
    let base = t(table, key);
    let mut s = chars_of(base.as_str());
    let mut k: usize = 0;
    while k < args.len()
        invariant
            k <= args@.len(),
            s@ == fill(base@, arg_views(args@).take(k as int)),
        decreases args@.len() - k,
    {
        let (name, value) = args[k];
        let p = placeholder_of(name);
        assert(arg_views(args@).take(k + 1).drop_last() == arg_views(args@).take(k as int));
        assert(arg_views(args@).take(k + 1).last() == (name@, value@));
        s = replace_str(&s, &p, value);
        k += 1;
    }
    assert(arg_views(args@).take(args@.len() as int) == arg_views(args@));
    let mut out = String::new();
    let mut i: usize = 0;
    while i < s.len()
        invariant
            i <= s@.len(),
            out@ == s@.take(i as int),
        decreases s@.len() - i,
    {
        push_char(&mut out, s[i]);
        assert(s@.take(i + 1) == s@.take(i as int).push(s@[i as int]));
        i += 1;
    }
    assert(s@.take(s@.len() as int) == s@);
    out
}

/// The language code for a system locale such as "de_DE.UTF-8" or
/// "zh-CN": chosen by the lowercase locale's first letters; English when
/// none matches.
pub open spec fn language_spec(lower: Seq<char>) -> Seq<char> {
    if starts_with(lower, "zh"@) {
        "zh_CN"@
    } else if starts_with(lower, "ja"@) {
        "ja"@
    } else if starts_with(lower, "ko"@) {
        "ko"@
    } else if starts_with(lower, "de"@) {
        "de"@
    } else if starts_with(lower, "fr"@) {
        "fr"@
    } else if starts_with(lower, "es"@) {
        "es"@
    } else if starts_with(lower, "pt"@) {
        "pt_BR"@
    } else if starts_with(lower, "ru"@) {
        "ru"@
    } else if starts_with(lower, "it"@) {
        "it"@
    } else {
        "en"@
    }
}

pub fn language_for_locale(locale: &str) -> (lang: &'static str)
    ensures
        lang@ == language_spec(unicode_lowercase(locale@)),
{
    let lower = to_lowercase(locale);
    let l = chars_of(lower.as_str());
    if has_prefix(&l, &chars_of("zh")) {
        "zh_CN"
    } else if has_prefix(&l, &chars_of("ja")) {
        "ja"
    } else if has_prefix(&l, &chars_of("ko")) {
        "ko"
    } else if has_prefix(&l, &chars_of("de")) {
        "de"
    } else if has_prefix(&l, &chars_of("fr")) {
        "fr"
    } else if has_prefix(&l, &chars_of("es")) {
        "es"
    } else if has_prefix(&l, &chars_of("pt")) {
        "pt_BR"
    } else if has_prefix(&l, &chars_of("ru")) {
        "ru"
    } else if has_prefix(&l, &chars_of("it")) {
        "it"
    } else {
        "en"
    }
}

/// The languages that have a message catalogue.
pub open spec fn supported_language(l: Seq<char>) -> bool {
    ||| l == "en"@
    ||| l == "de"@
    ||| l == "fr"@
    ||| l == "es"@
    ||| l == "pt_BR"@
    ||| l == "it"@
    ||| l == "ru"@
    ||| l == "zh_CN"@
    ||| l == "ja"@
    ||| l == "ko"@
}

pub fn is_supported_language(l: &str) -> (r: bool)
    ensures
        r == supported_language(l@),
{
    let v = chars_of(l);
    chars_equal(&v, &chars_of("en")) || chars_equal(&v, &chars_of("de")) || chars_equal(
        &v,
        &chars_of("fr"),
    ) || chars_equal(&v, &chars_of("es")) || chars_equal(&v, &chars_of("pt_BR")) || chars_equal(
        &v,
        &chars_of("it"),
    ) || chars_equal(&v, &chars_of("ru")) || chars_equal(&v, &chars_of("zh_CN")) || chars_equal(
        &v,
        &chars_of("ja"),
    ) || chars_equal(&v, &chars_of("ko"))
}

/// The active language: the one chosen in the settings when it is a
/// supported one, else the one the system locale suggests.
pub open spec fn chosen_language_spec(configured: Option<Seq<char>>, system_locale: Seq<char>) -> Seq<char> {
    match configured {
        Some(l) => if supported_language(l) {
            l
        } else {
            language_spec(unicode_lowercase(system_locale))
        },
        None => language_spec(unicode_lowercase(system_locale)),
    }
}

pub fn chosen_language(configured: &Option<String>, system_locale: &str) -> (r: String)
    ensures
        r@ == chosen_language_spec(
            match configured {
                Some(l) => Some(l@),
                None => None,
            },
            system_locale@,
        ),
{
    match configured {
        Some(l) => {
            if is_supported_language(l.as_str()) {
                return l.clone();
            }
        },
        None => {},
    }
    String::from_str(language_for_locale(system_locale))
}

/// Does the language need a CJK font?
pub fn needs_cjk_font(lang: &str) -> (r: bool)
    ensures
        r == (lang@ == "zh_CN"@ || lang@ == "ja"@ || lang@ == "ko"@),
{
    let l = chars_of(lang);
    chars_equal(&l, &chars_of("zh_CN")) || chars_equal(&l, &chars_of("ja")) || chars_equal(
        &l,
        &chars_of("ko"),
    )
}

/// A key the active language translates gets its translation; any other
/// key gets the English message, and a key neither has is shown as is.
pub proof fn translation_falls_back_to_english(
    english: Seq<(Seq<char>, Seq<char>)>,
    language: Seq<(Seq<char>, Seq<char>)>,
    key: Seq<char>,
)
    ensures
        lookup(english + language, key) == match lookup(language, key) {
            Some(v) => Some(v),
            None => lookup(english, key),
        },
    decreases language.len(),
{
    if language.len() > 0 {
        assert((english + language).drop_last() == english + language.drop_last());
        assert((english + language).last() == language.last());
        translation_falls_back_to_english(english, language.drop_last(), key);
    } else {
        assert(english + language == english);
    }
}

/// The table built for a language gives, for every key, that language's
/// message where its catalogue has one and the English message otherwise
/// (for English, whose catalogue is the English one, simply the English
/// message).
pub proof fn table_gives_language_then_english(
    english_json: Seq<char>,
    language: Seq<char>,
    language_json: Seq<char>,
    key: Seq<char>,
)
    requires
        language == "en"@ ==> language_json == english_json,
    ensures
        lookup(table_spec(english_json, language, language_json), key) == match lookup(
            entries_or_empty(language_json),
            key,
        ) {
            Some(v) => Some(v),
            None => lookup(entries_or_empty(english_json), key),
        },
{
    if language != "en"@ {
        translation_falls_back_to_english(
            entries_or_empty(english_json),
            entries_or_empty(language_json),
            key,
        );
    }
}

/// Each supported language is chosen for exactly the locales whose
/// lowercase form begins with its prefix ("zh" for simplified Chinese, "pt"
/// for Brazilian Portuguese, the language code for the others); a locale
/// with none of these prefixes gets English.
pub proof fn locale_prefix_picks_language(lower: Seq<char>)
    ensures
        starts_with(lower, "zh"@) ==> language_spec(lower) == "zh_CN"@,
        starts_with(lower, "ja"@) ==> language_spec(lower) == "ja"@,
        starts_with(lower, "ko"@) ==> language_spec(lower) == "ko"@,
        starts_with(lower, "de"@) ==> language_spec(lower) == "de"@,
        starts_with(lower, "fr"@) ==> language_spec(lower) == "fr"@,
        starts_with(lower, "es"@) ==> language_spec(lower) == "es"@,
        starts_with(lower, "pt"@) ==> language_spec(lower) == "pt_BR"@,
        starts_with(lower, "ru"@) ==> language_spec(lower) == "ru"@,
        starts_with(lower, "it"@) ==> language_spec(lower) == "it"@,
        (!starts_with(lower, "zh"@) && !starts_with(lower, "ja"@) && !starts_with(lower, "ko"@) && !starts_with(lower, "de"@) && !starts_with(lower, "fr"@) && !starts_with(lower, "es"@) && !starts_with(lower, "pt"@) && !starts_with(lower, "ru"@) && !starts_with(lower, "it"@)) ==> language_spec(lower) == "en"@,
{
    reveal_strlit("zh");
    assert("zh"@.len() == 2 && "zh"@[0] == 'z' && "zh"@[1] == 'h');
    reveal_strlit("ja");
    assert("ja"@.len() == 2 && "ja"@[0] == 'j' && "ja"@[1] == 'a');
    reveal_strlit("ko");
    assert("ko"@.len() == 2 && "ko"@[0] == 'k' && "ko"@[1] == 'o');
    reveal_strlit("de");
    assert("de"@.len() == 2 && "de"@[0] == 'd' && "de"@[1] == 'e');
    reveal_strlit("fr");
    assert("fr"@.len() == 2 && "fr"@[0] == 'f' && "fr"@[1] == 'r');
    reveal_strlit("es");
    assert("es"@.len() == 2 && "es"@[0] == 'e' && "es"@[1] == 's');
    reveal_strlit("pt");
    assert("pt"@.len() == 2 && "pt"@[0] == 'p' && "pt"@[1] == 't');
    reveal_strlit("ru");
    assert("ru"@.len() == 2 && "ru"@[0] == 'r' && "ru"@[1] == 'u');
    reveal_strlit("it");
    assert("it"@.len() == 2 && "it"@[0] == 'i' && "it"@[1] == 't');
    if lower.len() >= 2 {
        assert(lower.subrange(0, 2)[0] == lower[0]);
        assert(lower.subrange(0, 2)[1] == lower[1]);
    }
}

} // verus!
