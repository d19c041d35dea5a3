//! Country names as the switcher backend writes them, mapped to ISO 3166-1
//! alpha-2 codes (used to pick a flag image).

use vstd::prelude::*;
use crate::text::{chars_equal, chars_of, trim, trim_chars};

verus! {

pub open spec fn opt_view(o: Option<&str>) -> Option<Seq<char>> {
    match o {
        Some(s) => Some(s@),
        None => None,
    }
}

pub open spec fn iso_part1(t: Seq<char>) -> Option<Seq<char>> {
    if t == "usa"@ {
        Some("us"@)
    } else if t == "uk"@ {
        Some("gb"@)
    } else if t == "south korea"@ {
        Some("kr"@)
    } else if t == "russia"@ {
        Some("ru"@)
    } else if t == "czech republic"@ {
        Some("cz"@)
    } else if t == "north macedonia"@ {
        Some("mk"@)
    } else if t == "moldova"@ {
        Some("md"@)
    } else if t == "laos"@ {
        Some("la"@)
    } else if t == "vietnam"@ {
        Some("vn"@)
    } else if t == "tanzania"@ {
        Some("tz"@)
    } else if t == "bolivia"@ {
        Some("bo"@)
    } else if t == "venezuela"@ {
        Some("ve"@)
    } else if t == "iran"@ {
        Some("ir"@)
    } else if t == "syria"@ {
        Some("sy"@)
    } else if t == "brunei"@ {
        Some("bn"@)
    } else if t == "cape verde"@ {
        Some("cv"@)
    } else if t == "congo"@ {
        Some("cg"@)
    } else if t == "democratic republic of the congo"@ {
        Some("cd"@)
    } else if t == "swaziland"@ {
        Some("sz"@)
    } else if t == "timor-leste"@ {
        Some("tl"@)
    } else if t == "vatican city"@ {
        Some("va"@)
    } else if t == "palestine"@ {
        Some("ps"@)
    } else if t == "taiwan"@ {
        Some("tw"@)
    } else if t == "hong kong"@ {
        Some("hk"@)
    } else if t == "macau"@ {
        Some("mo"@)
    } else if t == "india"@ {
        Some("in"@)
    } else if t == "india via singapore"@ {
        Some("in"@)
    } else if t == "india via uk"@ {
        Some("in"@)
    } else if t == "germany"@ {
        Some("de"@)
    } else if t == "france"@ {
        Some("fr"@)
    } else if t == "spain"@ {
        Some("es"@)
    } else if t == "italy"@ {
        Some("it"@)
    } else {
        None
    }
}

pub open spec fn iso_part2(t: Seq<char>) -> Option<Seq<char>> {
    if t == "netherlands"@ {
        Some("nl"@)
    } else if t == "sweden"@ {
        Some("se"@)
    } else if t == "norway"@ {
        Some("no"@)
    } else if t == "denmark"@ {
        Some("dk"@)
    } else if t == "finland"@ {
        Some("fi"@)
    } else if t == "switzerland"@ {
        Some("ch"@)
    } else if t == "austria"@ {
        Some("at"@)
    } else if t == "belgium"@ {
        Some("be"@)
    } else if t == "poland"@ {
        Some("pl"@)
    } else if t == "portugal"@ {
        Some("pt"@)
    } else if t == "romania"@ {
        Some("ro"@)
    } else if t == "hungary"@ {
        Some("hu"@)
    } else if t == "bulgaria"@ {
        Some("bg"@)
    } else if t == "serbia"@ {
        Some("rs"@)
    } else if t == "croatia"@ {
        Some("hr"@)
    } else if t == "ukraine"@ {
        Some("ua"@)
    } else if t == "greece"@ {
        Some("gr"@)
    } else if t == "turkey"@ {
        Some("tr"@)
    } else if t == "israel"@ {
        Some("il"@)
    } else if t == "japan"@ {
        Some("jp"@)
    } else if t == "china"@ {
        Some("cn"@)
    } else if t == "australia"@ {
        Some("au"@)
    } else if t == "canada"@ {
        Some("ca"@)
    } else if t == "brazil"@ {
        Some("br"@)
    } else if t == "mexico"@ {
        Some("mx"@)
    } else if t == "argentina"@ {
        Some("ar"@)
    } else if t == "singapore"@ {
        Some("sg"@)
    } else if t == "thailand"@ {
        Some("th"@)
    } else if t == "indonesia"@ {
        Some("id"@)
    } else if t == "malaysia"@ {
        Some("my"@)
    } else if t == "philippines"@ {
        Some("ph"@)
    } else if t == "new zealand"@ {
        Some("nz"@)
    } else {
        None
    }
}

pub open spec fn iso_part3(t: Seq<char>) -> Option<Seq<char>> {
    if t == "south africa"@ {
        Some("za"@)
    } else if t == "egypt"@ {
        Some("eg"@)
    } else if t == "nigeria"@ {
        Some("ng"@)
    } else if t == "kenya"@ {
        Some("ke"@)
    } else if t == "iraq"@ {
        Some("iq"@)
    } else if t == "saudi arabia"@ {
        Some("sa"@)
    } else if t == "uae"@ {
        Some("ae"@)
    } else if t == "pakistan"@ {
        Some("pk"@)
    } else if t == "bangladesh"@ {
        Some("bd"@)
    } else if t == "albania"@ {
        Some("al"@)
    } else if t == "algeria"@ {
        Some("dz"@)
    } else if t == "andorra"@ {
        Some("ad"@)
    } else if t == "armenia"@ {
        Some("am"@)
    } else if t == "azerbaijan"@ {
        Some("az"@)
    } else if t == "bahamas"@ {
        Some("bs"@)
    } else if t == "belarus"@ {
        Some("by"@)
    } else if t == "bermuda"@ {
        Some("bm"@)
    } else if t == "bhutan"@ {
        Some("bt"@)
    } else if t == "bosnia and herzegovina"@ {
        Some("ba"@)
    } else if t == "cambodia"@ {
        Some("kh"@)
    } else if t == "cayman islands"@ {
        Some("ky"@)
    } else if t == "chile"@ {
        Some("cl"@)
    } else if t == "colombia"@ {
        Some("co"@)
    } else if t == "costa rica"@ {
        Some("cr"@)
    } else if t == "cuba"@ {
        Some("cu"@)
    } else if t == "cyprus"@ {
        Some("cy"@)
    } else if t == "dominican republic"@ {
        Some("do"@)
    } else if t == "ecuador"@ {
        Some("ec"@)
    } else if t == "estonia"@ {
        Some("ee"@)
    } else if t == "georgia"@ {
        Some("ge"@)
    } else if t == "ghana"@ {
        Some("gh"@)
    } else if t == "guam"@ {
        Some("gu"@)
    } else {
        None
    }
}

pub open spec fn iso_part4(t: Seq<char>) -> Option<Seq<char>> {
    if t == "guatemala"@ {
        Some("gt"@)
    } else if t == "honduras"@ {
        Some("hn"@)
    } else if t == "iceland"@ {
        Some("is"@)
    } else if t == "ireland"@ {
        Some("ie"@)
    } else if t == "isle of man"@ {
        Some("im"@)
    } else if t == "jamaica"@ {
        Some("jm"@)
    } else if t == "jersey"@ {
        Some("je"@)
    } else if t == "kazakhstan"@ {
        Some("kz"@)
    } else if t == "latvia"@ {
        Some("lv"@)
    } else if t == "lebanon"@ {
        Some("lb"@)
    } else if t == "liechtenstein"@ {
        Some("li"@)
    } else if t == "lithuania"@ {
        Some("lt"@)
    } else if t == "luxembourg"@ {
        Some("lu"@)
    } else if t == "malta"@ {
        Some("mt"@)
    } else if t == "monaco"@ {
        Some("mc"@)
    } else if t == "mongolia"@ {
        Some("mn"@)
    } else if t == "montenegro"@ {
        Some("me"@)
    } else if t == "morocco"@ {
        Some("ma"@)
    } else if t == "myanmar"@ {
        Some("mm"@)
    } else if t == "nepal"@ {
        Some("np"@)
    } else if t == "panama"@ {
        Some("pa"@)
    } else if t == "peru"@ {
        Some("pe"@)
    } else if t == "puerto rico"@ {
        Some("pr"@)
    } else if t == "slovakia"@ {
        Some("sk"@)
    } else if t == "slovenia"@ {
        Some("si"@)
    } else if t == "sri lanka"@ {
        Some("lk"@)
    } else if t == "trinidad and tobago"@ {
        Some("tt"@)
    } else if t == "uruguay"@ {
        Some("uy"@)
    } else if t == "uzbekistan"@ {
        Some("uz"@)
    } else if t == "united states"@ {
        Some("us"@)
    } else if t == "united kingdom"@ {
        Some("gb"@)
    } else if t == "south korea (korea, republic of)"@ {
        Some("kr"@)
    } else {
        None
    }
}

fn iso_lookup_part1(t: &Vec<char>) -> (r: Option<&'static str>)
    ensures
        opt_view(r) == iso_part1(t@),
{
    if chars_equal(t, &chars_of("usa")) {
        return Some("us");
    }
    if chars_equal(t, &chars_of("uk")) {
        return Some("gb");
    }
    if chars_equal(t, &chars_of("south korea")) {
        return Some("kr");
    }
    if chars_equal(t, &chars_of("russia")) {
        return Some("ru");
    }
    if chars_equal(t, &chars_of("czech republic")) {
        return Some("cz");
    }
    if chars_equal(t, &chars_of("north macedonia")) {
        return Some("mk");
    }
    if chars_equal(t, &chars_of("moldova")) {
        return Some("md");
    }
    if chars_equal(t, &chars_of("laos")) {
        return Some("la");
    }
    if chars_equal(t, &chars_of("vietnam")) {
        return Some("vn");
    }
    if chars_equal(t, &chars_of("tanzania")) {
        return Some("tz");
    }
    if chars_equal(t, &chars_of("bolivia")) {
        return Some("bo");
    }
    if chars_equal(t, &chars_of("venezuela")) {
        return Some("ve");
    }
    if chars_equal(t, &chars_of("iran")) {
        return Some("ir");
    }
    if chars_equal(t, &chars_of("syria")) {
        return Some("sy");
    }
    if chars_equal(t, &chars_of("brunei")) {
        return Some("bn");
    }
    if chars_equal(t, &chars_of("cape verde")) {
        return Some("cv");
    }
    if chars_equal(t, &chars_of("congo")) {
        return Some("cg");
    }
    if chars_equal(t, &chars_of("democratic republic of the congo")) {
        return Some("cd");
    }
    if chars_equal(t, &chars_of("swaziland")) {
        return Some("sz");
    }
    if chars_equal(t, &chars_of("timor-leste")) {
        return Some("tl");
    }
    if chars_equal(t, &chars_of("vatican city")) {
        return Some("va");
    }
    if chars_equal(t, &chars_of("palestine")) {
        return Some("ps");
    }
    if chars_equal(t, &chars_of("taiwan")) {
        return Some("tw");
    }
    if chars_equal(t, &chars_of("hong kong")) {
        return Some("hk");
    }
    if chars_equal(t, &chars_of("macau")) {
        return Some("mo");
    }
    if chars_equal(t, &chars_of("india")) {
        return Some("in");
    }
    if chars_equal(t, &chars_of("india via singapore")) {
        return Some("in");
    }
    if chars_equal(t, &chars_of("india via uk")) {
        return Some("in");
    }
    if chars_equal(t, &chars_of("germany")) {
        return Some("de");
    }
    if chars_equal(t, &chars_of("france")) {
        return Some("fr");
    }
    if chars_equal(t, &chars_of("spain")) {
        return Some("es");
    }
    if chars_equal(t, &chars_of("italy")) {
        return Some("it");
    }
    None
}

fn iso_lookup_part2(t: &Vec<char>) -> (r: Option<&'static str>)
    ensures
        opt_view(r) == iso_part2(t@),
{
    if chars_equal(t, &chars_of("netherlands")) {
        return Some("nl");
    }
    if chars_equal(t, &chars_of("sweden")) {
        return Some("se");
    }
    if chars_equal(t, &chars_of("norway")) {
        return Some("no");
    }
    if chars_equal(t, &chars_of("denmark")) {
        return Some("dk");
    }
    if chars_equal(t, &chars_of("finland")) {
        return Some("fi");
    }
    if chars_equal(t, &chars_of("switzerland")) {
        return Some("ch");
    }
    if chars_equal(t, &chars_of("austria")) {
        return Some("at");
    }
    if chars_equal(t, &chars_of("belgium")) {
        return Some("be");
    }
    if chars_equal(t, &chars_of("poland")) {
        return Some("pl");
    }
    if chars_equal(t, &chars_of("portugal")) {
        return Some("pt");
    }
    if chars_equal(t, &chars_of("romania")) {
        return Some("ro");
    }
    if chars_equal(t, &chars_of("hungary")) {
        return Some("hu");
    }
    if chars_equal(t, &chars_of("bulgaria")) {
        return Some("bg");
    }
    if chars_equal(t, &chars_of("serbia")) {
        return Some("rs");
    }
    if chars_equal(t, &chars_of("croatia")) {
        return Some("hr");
    }
    if chars_equal(t, &chars_of("ukraine")) {
        return Some("ua");
    }
    if chars_equal(t, &chars_of("greece")) {
        return Some("gr");
    }
    if chars_equal(t, &chars_of("turkey")) {
        return Some("tr");
    }
    if chars_equal(t, &chars_of("israel")) {
        return Some("il");
    }
    if chars_equal(t, &chars_of("japan")) {
        return Some("jp");
    }
    if chars_equal(t, &chars_of("china")) {
        return Some("cn");
    }
    if chars_equal(t, &chars_of("australia")) {
        return Some("au");
    }
    if chars_equal(t, &chars_of("canada")) {
        return Some("ca");
    }
    if chars_equal(t, &chars_of("brazil")) {
        return Some("br");
    }
    if chars_equal(t, &chars_of("mexico")) {
        return Some("mx");
    }
    if chars_equal(t, &chars_of("argentina")) {
        return Some("ar");
    }
    if chars_equal(t, &chars_of("singapore")) {
        return Some("sg");
    }
    if chars_equal(t, &chars_of("thailand")) {
        return Some("th");
    }
    if chars_equal(t, &chars_of("indonesia")) {
        return Some("id");
    }
    if chars_equal(t, &chars_of("malaysia")) {
        return Some("my");
    }
    if chars_equal(t, &chars_of("philippines")) {
        return Some("ph");
    }
    if chars_equal(t, &chars_of("new zealand")) {
        return Some("nz");
    }
    None
}

fn iso_lookup_part3(t: &Vec<char>) -> (r: Option<&'static str>)
    ensures
        opt_view(r) == iso_part3(t@),
{
    if chars_equal(t, &chars_of("south africa")) {
        return Some("za");
    }
    if chars_equal(t, &chars_of("egypt")) {
        return Some("eg");
    }
    if chars_equal(t, &chars_of("nigeria")) {
        return Some("ng");
    }
    if chars_equal(t, &chars_of("kenya")) {
        return Some("ke");
    }
    if chars_equal(t, &chars_of("iraq")) {
        return Some("iq");
    }
    if chars_equal(t, &chars_of("saudi arabia")) {
        return Some("sa");
    }
    if chars_equal(t, &chars_of("uae")) {
        return Some("ae");
    }
    if chars_equal(t, &chars_of("pakistan")) {
        return Some("pk");
    }
    if chars_equal(t, &chars_of("bangladesh")) {
        return Some("bd");
    }
    if chars_equal(t, &chars_of("albania")) {
        return Some("al");
    }
    if chars_equal(t, &chars_of("algeria")) {
        return Some("dz");
    }
    if chars_equal(t, &chars_of("andorra")) {
        return Some("ad");
    }
    if chars_equal(t, &chars_of("armenia")) {
        return Some("am");
    }
    if chars_equal(t, &chars_of("azerbaijan")) {
        return Some("az");
    }
    if chars_equal(t, &chars_of("bahamas")) {
        return Some("bs");
    }
    if chars_equal(t, &chars_of("belarus")) {
        return Some("by");
    }
    if chars_equal(t, &chars_of("bermuda")) {
        return Some("bm");
    }
    if chars_equal(t, &chars_of("bhutan")) {
        return Some("bt");
    }
    if chars_equal(t, &chars_of("bosnia and herzegovina")) {
        return Some("ba");
    }
    if chars_equal(t, &chars_of("cambodia")) {
        return Some("kh");
    }
    if chars_equal(t, &chars_of("cayman islands")) {
        return Some("ky");
    }
    if chars_equal(t, &chars_of("chile")) {
        return Some("cl");
    }
    if chars_equal(t, &chars_of("colombia")) {
        return Some("co");
    }
    if chars_equal(t, &chars_of("costa rica")) {
        return Some("cr");
    }
    if chars_equal(t, &chars_of("cuba")) {
        return Some("cu");
    }
    if chars_equal(t, &chars_of("cyprus")) {
        return Some("cy");
    }
    if chars_equal(t, &chars_of("dominican republic")) {
        return Some("do");
    }
    if chars_equal(t, &chars_of("ecuador")) {
        return Some("ec");
    }
    if chars_equal(t, &chars_of("estonia")) {
        return Some("ee");
    }
    if chars_equal(t, &chars_of("georgia")) {
        return Some("ge");
    }
    if chars_equal(t, &chars_of("ghana")) {
        return Some("gh");
    }
    if chars_equal(t, &chars_of("guam")) {
        return Some("gu");
    }
    None
}

fn iso_lookup_part4(t: &Vec<char>) -> (r: Option<&'static str>)
    ensures
        opt_view(r) == iso_part4(t@),
{
    if chars_equal(t, &chars_of("guatemala")) {
        return Some("gt");
    }
    if chars_equal(t, &chars_of("honduras")) {
        return Some("hn");
    }
    if chars_equal(t, &chars_of("iceland")) {
        return Some("is");
    }
    if chars_equal(t, &chars_of("ireland")) {
        return Some("ie");
    }
    if chars_equal(t, &chars_of("isle of man")) {
        return Some("im");
    }
    if chars_equal(t, &chars_of("jamaica")) {
        return Some("jm");
    }
    if chars_equal(t, &chars_of("jersey")) {
        return Some("je");
    }
    if chars_equal(t, &chars_of("kazakhstan")) {
        return Some("kz");
    }
    if chars_equal(t, &chars_of("latvia")) {
        return Some("lv");
    }
    if chars_equal(t, &chars_of("lebanon")) {
        return Some("lb");
    }
    if chars_equal(t, &chars_of("liechtenstein")) {
        return Some("li");
    }
    if chars_equal(t, &chars_of("lithuania")) {
        return Some("lt");
    }
    if chars_equal(t, &chars_of("luxembourg")) {
        return Some("lu");
    }
    if chars_equal(t, &chars_of("malta")) {
        return Some("mt");
    }
    if chars_equal(t, &chars_of("monaco")) {
        return Some("mc");
    }
    if chars_equal(t, &chars_of("mongolia")) {
        return Some("mn");
    }
    if chars_equal(t, &chars_of("montenegro")) {
        return Some("me");
    }
    if chars_equal(t, &chars_of("morocco")) {
        return Some("ma");
    }
    if chars_equal(t, &chars_of("myanmar")) {
        return Some("mm");
    }
    if chars_equal(t, &chars_of("nepal")) {
        return Some("np");
    }
    if chars_equal(t, &chars_of("panama")) {
        return Some("pa");
    }
    if chars_equal(t, &chars_of("peru")) {
        return Some("pe");
    }
    if chars_equal(t, &chars_of("puerto rico")) {
        return Some("pr");
    }
    if chars_equal(t, &chars_of("slovakia")) {
        return Some("sk");
    }
    if chars_equal(t, &chars_of("slovenia")) {
        return Some("si");
    }
    if chars_equal(t, &chars_of("sri lanka")) {
        return Some("lk");
    }
    if chars_equal(t, &chars_of("trinidad and tobago")) {
        return Some("tt");
    }
    if chars_equal(t, &chars_of("uruguay")) {
        return Some("uy");
    }
    if chars_equal(t, &chars_of("uzbekistan")) {
        return Some("uz");
    }
    if chars_equal(t, &chars_of("united states")) {
        return Some("us");
    }
    if chars_equal(t, &chars_of("united kingdom")) {
        return Some("gb");
    }
    if chars_equal(t, &chars_of("south korea (korea, republic of)")) {
        return Some("kr");
    }
    None
}

/// The ISO code of a (trimmed, lowercase) country name, if it is known.
pub open spec fn iso_code(t: Seq<char>) -> Option<Seq<char>> {
    match iso_part1(t) {
        Some(c) => Some(c),
        None => match iso_part2(t) {
            Some(c) => Some(c),
            None => match iso_part3(t) {
                Some(c) => Some(c),
                None => iso_part4(t),
            },
        },
    }
}

/// Map a lowercase country name to its ISO 3166-1 alpha-2 code, ignoring
/// surrounding white space. Returns `None` if unknown; upper-case input is
/// not recognised.
pub fn country_to_iso(name: &str) -> (r: Option<&'static str>)
    ensures
        opt_view(r) == iso_code(trim(name@)),
{
    let t = trim_chars(&chars_of(name));
    let r = iso_lookup_part1(&t);
    if r.is_some() {
        return r;
    }
    let r = iso_lookup_part2(&t);
    if r.is_some() {
        return r;
    }
    let r = iso_lookup_part3(&t);
    if r.is_some() {
        return r;
    }
    iso_lookup_part4(&t)
}

/// The ISO 3166-1 alpha-2 code of each country name the switcher writes:
/// the reference list the lookup is held to.
pub open spec fn iso_reference(name: Seq<char>, code: Seq<char>) -> bool {
    ||| (name == "usa"@ && code == "us"@)
    ||| (name == "uk"@ && code == "gb"@)
    ||| (name == "south korea"@ && code == "kr"@)
    ||| (name == "russia"@ && code == "ru"@)
    ||| (name == "czech republic"@ && code == "cz"@)
    ||| (name == "north macedonia"@ && code == "mk"@)
    ||| (name == "moldova"@ && code == "md"@)
    ||| (name == "laos"@ && code == "la"@)
    ||| (name == "vietnam"@ && code == "vn"@)
    ||| (name == "tanzania"@ && code == "tz"@)
    ||| (name == "bolivia"@ && code == "bo"@)
    ||| (name == "venezuela"@ && code == "ve"@)
    ||| (name == "iran"@ && code == "ir"@)
    ||| (name == "syria"@ && code == "sy"@)
    ||| (name == "brunei"@ && code == "bn"@)
    ||| (name == "cape verde"@ && code == "cv"@)
    ||| (name == "congo"@ && code == "cg"@)
    ||| (name == "democratic republic of the congo"@ && code == "cd"@)
    ||| (name == "swaziland"@ && code == "sz"@)
    ||| (name == "timor-leste"@ && code == "tl"@)
    ||| (name == "vatican city"@ && code == "va"@)
    ||| (name == "palestine"@ && code == "ps"@)
    ||| (name == "taiwan"@ && code == "tw"@)
    ||| (name == "hong kong"@ && code == "hk"@)
    ||| (name == "macau"@ && code == "mo"@)
    ||| (name == "india"@ && code == "in"@)
    ||| (name == "india via singapore"@ && code == "in"@)
    ||| (name == "india via uk"@ && code == "in"@)
    ||| (name == "germany"@ && code == "de"@)
    ||| (name == "france"@ && code == "fr"@)
    ||| (name == "spain"@ && code == "es"@)
    ||| (name == "italy"@ && code == "it"@)
    ||| (name == "netherlands"@ && code == "nl"@)
    ||| (name == "sweden"@ && code == "se"@)
    ||| (name == "norway"@ && code == "no"@)
    ||| (name == "denmark"@ && code == "dk"@)
    ||| (name == "finland"@ && code == "fi"@)
    ||| (name == "switzerland"@ && code == "ch"@)
    ||| (name == "austria"@ && code == "at"@)
    ||| (name == "belgium"@ && code == "be"@)
    ||| (name == "poland"@ && code == "pl"@)
    ||| (name == "portugal"@ && code == "pt"@)
    ||| (name == "romania"@ && code == "ro"@)
    ||| (name == "hungary"@ && code == "hu"@)
    ||| (name == "bulgaria"@ && code == "bg"@)
    ||| (name == "serbia"@ && code == "rs"@)
    ||| (name == "croatia"@ && code == "hr"@)
    ||| (name == "ukraine"@ && code == "ua"@)
    ||| (name == "greece"@ && code == "gr"@)
    ||| (name == "turkey"@ && code == "tr"@)
    ||| (name == "israel"@ && code == "il"@)
    ||| (name == "japan"@ && code == "jp"@)
    ||| (name == "china"@ && code == "cn"@)
    ||| (name == "australia"@ && code == "au"@)
    ||| (name == "canada"@ && code == "ca"@)
    ||| (name == "brazil"@ && code == "br"@)
    ||| (name == "mexico"@ && code == "mx"@)
    ||| (name == "argentina"@ && code == "ar"@)
    ||| (name == "singapore"@ && code == "sg"@)
    ||| (name == "thailand"@ && code == "th"@)
    ||| (name == "indonesia"@ && code == "id"@)
    ||| (name == "malaysia"@ && code == "my"@)
    ||| (name == "philippines"@ && code == "ph"@)
    ||| (name == "new zealand"@ && code == "nz"@)
    ||| (name == "south africa"@ && code == "za"@)
    ||| (name == "egypt"@ && code == "eg"@)
    ||| (name == "nigeria"@ && code == "ng"@)
    ||| (name == "kenya"@ && code == "ke"@)
    ||| (name == "iraq"@ && code == "iq"@)
    ||| (name == "saudi arabia"@ && code == "sa"@)
    ||| (name == "uae"@ && code == "ae"@)
    ||| (name == "pakistan"@ && code == "pk"@)
    ||| (name == "bangladesh"@ && code == "bd"@)
    ||| (name == "albania"@ && code == "al"@)
    ||| (name == "algeria"@ && code == "dz"@)
    ||| (name == "andorra"@ && code == "ad"@)
    ||| (name == "armenia"@ && code == "am"@)
    ||| (name == "azerbaijan"@ && code == "az"@)
    ||| (name == "bahamas"@ && code == "bs"@)
    ||| (name == "belarus"@ && code == "by"@)
    ||| (name == "bermuda"@ && code == "bm"@)
    ||| (name == "bhutan"@ && code == "bt"@)
    ||| (name == "bosnia and herzegovina"@ && code == "ba"@)
    ||| (name == "cambodia"@ && code == "kh"@)
    ||| (name == "cayman islands"@ && code == "ky"@)
    ||| (name == "chile"@ && code == "cl"@)
    ||| (name == "colombia"@ && code == "co"@)
    ||| (name == "costa rica"@ && code == "cr"@)
    ||| (name == "cuba"@ && code == "cu"@)
    ||| (name == "cyprus"@ && code == "cy"@)
    ||| (name == "dominican republic"@ && code == "do"@)
    ||| (name == "ecuador"@ && code == "ec"@)
    ||| (name == "estonia"@ && code == "ee"@)
    ||| (name == "georgia"@ && code == "ge"@)
    ||| (name == "ghana"@ && code == "gh"@)
    ||| (name == "guam"@ && code == "gu"@)
    ||| (name == "guatemala"@ && code == "gt"@)
    ||| (name == "honduras"@ && code == "hn"@)
    ||| (name == "iceland"@ && code == "is"@)
    ||| (name == "ireland"@ && code == "ie"@)
    ||| (name == "isle of man"@ && code == "im"@)
    ||| (name == "jamaica"@ && code == "jm"@)
    ||| (name == "jersey"@ && code == "je"@)
    ||| (name == "kazakhstan"@ && code == "kz"@)
    ||| (name == "latvia"@ && code == "lv"@)
    ||| (name == "lebanon"@ && code == "lb"@)
    ||| (name == "liechtenstein"@ && code == "li"@)
    ||| (name == "lithuania"@ && code == "lt"@)
    ||| (name == "luxembourg"@ && code == "lu"@)
    ||| (name == "malta"@ && code == "mt"@)
    ||| (name == "monaco"@ && code == "mc"@)
    ||| (name == "mongolia"@ && code == "mn"@)
    ||| (name == "montenegro"@ && code == "me"@)
    ||| (name == "morocco"@ && code == "ma"@)
    ||| (name == "myanmar"@ && code == "mm"@)
    ||| (name == "nepal"@ && code == "np"@)
    ||| (name == "panama"@ && code == "pa"@)
    ||| (name == "peru"@ && code == "pe"@)
    ||| (name == "puerto rico"@ && code == "pr"@)
    ||| (name == "slovakia"@ && code == "sk"@)
    ||| (name == "slovenia"@ && code == "si"@)
    ||| (name == "sri lanka"@ && code == "lk"@)
    ||| (name == "trinidad and tobago"@ && code == "tt"@)
    ||| (name == "uruguay"@ && code == "uy"@)
    ||| (name == "uzbekistan"@ && code == "uz"@)
    ||| (name == "united states"@ && code == "us"@)
    ||| (name == "united kingdom"@ && code == "gb"@)
    ||| (name == "south korea (korea, republic of)"@ && code == "kr"@)
}

/// Every code the lookup gives is the reference code of the (trimmed)
/// name it was given: no name gets a code other than its own.
pub proof fn iso_code_follows_reference(name: Seq<char>)
    ensures
        match iso_code(trim(name)) {
            Some(code) => iso_reference(trim(name), code),
            None => true,
        },
{
}

/// Every name of the reference list gets a code (which, by
/// `iso_code_follows_reference`, is its reference code).
pub proof fn iso_code_covers_reference(name: Seq<char>, code: Seq<char>)
    requires
        iso_reference(name, code),
    ensures
        iso_code(name) is Some,
{
}

} // verus!
