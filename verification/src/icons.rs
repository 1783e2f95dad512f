//! Decisions behind the small images drawn on badges: which country flag
//! stands for a title's main language, and which Rotten Tomatoes emblem a
//! score earns.

use crate::text::{ascii_lower, str_eq, to_ascii_lowercase};
use vstd::prelude::*;
use vstd::string::*;

verus! {

/// The language part of a language tag: everything before the first `-` or `_`
/// (`pt-BR` and `zh_Hans` give `pt` and `zh`).
pub open spec fn lang_base(code: Seq<char>) -> Seq<char>
    decreases code.len(),
{
    if code.len() == 0 || code[0] == '-' || code[0] == '_' {
        Seq::empty()
    } else {
        seq![code[0]] + lang_base(code.drop_first())
    }
}

/// The country whose bundled flag represents a (lower-case) ISO 639-1 language.
pub open spec fn flag_country(base: Seq<char>) -> Option<Seq<char>> {
    if base == "en"@ {
        Some("gb"@)
    } else if base == "ja"@ {
        Some("jp"@)
    } else if base == "ko"@ {
        Some("kr"@)
    } else if base == "zh"@ {
        Some("cn"@)
    } else if base == "fr"@ {
        Some("fr"@)
    } else if base == "de"@ {
        Some("de"@)
    } else if base == "es"@ || base == "ca"@ || base == "eu"@ || base == "gl"@ {
        Some("es"@)
    } else if base == "it"@ {
        Some("it"@)
    } else if base == "pt"@ {
        Some("pt"@)
    } else if base == "ru"@ {
        Some("ru"@)
    } else if base == "hi"@ || base == "ta"@ || base == "te"@ || base == "ml"@ || base == "kn"@ || base == "mr"@ || base == "pa"@ {
        Some("in"@)
    } else if base == "nl"@ {
        Some("nl"@)
    } else if base == "sv"@ {
        Some("se"@)
    } else if base == "da"@ {
        Some("dk"@)
    } else if base == "no"@ || base == "nb"@ || base == "nn"@ {
        Some("no"@)
    } else if base == "fi"@ {
        Some("fi"@)
    } else if base == "pl"@ {
        Some("pl"@)
    } else if base == "tr"@ {
        Some("tr"@)
    } else if base == "th"@ {
        Some("th"@)
    } else if base == "id"@ {
        Some("id"@)
    } else if base == "cs"@ {
        Some("cz"@)
    } else if base == "el"@ {
        Some("gr"@)
    } else if base == "he"@ {
        Some("il"@)
    } else if base == "hu"@ {
        Some("hu"@)
    } else if base == "ro"@ {
        Some("ro"@)
    } else if base == "uk"@ {
        Some("ua"@)
    } else if base == "vi"@ {
        Some("vn"@)
    } else if base == "fa"@ {
        Some("ir"@)
    } else if base == "ms"@ {
        Some("my"@)
    } else if base == "tl"@ {
        Some("ph"@)
    } else if base == "bn"@ {
        Some("bd"@)
    } else if base == "ar"@ {
        Some("sa"@)
    } else if base == "is"@ {
        Some("is"@)
    } else if base == "et"@ {
        Some("ee"@)
    } else if base == "lv"@ {
        Some("lv"@)
    } else if base == "lt"@ {
        Some("lt"@)
    } else if base == "sk"@ {
        Some("sk"@)
    } else if base == "sl"@ {
        Some("si"@)
    } else if base == "hr"@ {
        Some("hr"@)
    } else if base == "sr"@ {
        Some("rs"@)
    } else if base == "bg"@ {
        Some("bg"@)
    } else {
        None
    }
}

/// The country flag for a title's main language: the language tag's base,
/// lower-cased, mapped to a representative country (e.g. `en` to `gb`,
/// `pt` to `pt`); `None` for unmapped languages.
pub open spec fn flag_country_for_lang_spec(code: Seq<char>) -> Option<Seq<char>> {
    flag_country(ascii_lower(lang_base(code)))
}

/// The language part never holds a separator.
proof fn lemma_lang_base_no_separator(code: Seq<char>)
    ensures
        forall|i: int| 0 <= i < lang_base(code).len() ==> #[trigger] lang_base(code)[i] != '-' && lang_base(
            code,
        )[i] != '_',
    decreases code.len(),
{
    if code.len() > 0 && code[0] != '-' && code[0] != '_' {
        lemma_lang_base_no_separator(code.drop_first());
        let rest = lang_base(code.drop_first());
        assert forall|i: int| 0 <= i < lang_base(code).len() implies #[trigger] lang_base(code)[i] != '-' && lang_base(
            code,
        )[i] != '_' by {
            if i > 0 {
                assert(lang_base(code)[i] == rest[i - 1]);
            }
        }
    }
}

/// A text without separators is its own language part.
proof fn lemma_lang_base_of_plain(s: Seq<char>)
    requires
        forall|i: int| 0 <= i < s.len() ==> #[trigger] s[i] != '-' && s[i] != '_',
    ensures
        lang_base(s) == s,
    decreases s.len(),
{
    if s.len() > 0 {
        assert forall|i: int| 0 <= i < s.drop_first().len() implies #[trigger] s.drop_first()[i] != '-'
            && s.drop_first()[i] != '_' by {
            assert(s.drop_first()[i] == s[i + 1]);
        }
        lemma_lang_base_of_plain(s.drop_first());
        assert(seq![s[0]] + s.drop_first() =~= s);
    }
}

/// A language code maps to the same flag as its lower-cased language part:
/// the region is ignored and the case does not matter (`EN-us`, `en_GB` and
/// `en` all give `gb`).
pub proof fn lemma_flag_depends_on_base(code: Seq<char>)
    ensures
        flag_country_for_lang_spec(code) == flag_country_for_lang_spec(ascii_lower(lang_base(code))),
{
    let base = lang_base(code);
    let lower = ascii_lower(base);
    lemma_lang_base_no_separator(code);
    assert forall|i: int| 0 <= i < lower.len() implies #[trigger] lower[i] != '-' && lower[i] != '_' by {
        assert(lower[i] == crate::text::ascii_lower_char(base[i]));
        assert(base[i] != '-' && base[i] != '_');
    }
    lemma_lang_base_of_plain(lower);
    assert forall|i: int| 0 <= i < lower.len() implies #[trigger] crate::text::ascii_lower_char(lower[i])
        == lower[i] by {
        assert(lower[i] == crate::text::ascii_lower_char(base[i]));
    }
    assert(ascii_lower(lower) =~= lower);
}

fn flag_country_of(b: &str) -> (r: Option<&'static str>)
    ensures
        match flag_country(b@) {
            Some(c) => r matches Some(rc) && rc@ == c,
            None => r is None,
        },
{
    if str_eq(b, "en") {
        Some("gb")
    } else if str_eq(b, "ja") {
        Some("jp")
    } else if str_eq(b, "ko") {
        Some("kr")
    } else if str_eq(b, "zh") {
        Some("cn")
    } else if str_eq(b, "fr") {
        Some("fr")
    } else if str_eq(b, "de") {
        Some("de")
    } else if str_eq(b, "es") || str_eq(b, "ca") || str_eq(b, "eu") || str_eq(b, "gl") {
        Some("es")
    } else if str_eq(b, "it") {
        Some("it")
    } else if str_eq(b, "pt") {
        Some("pt")
    } else if str_eq(b, "ru") {
        Some("ru")
    } else if str_eq(b, "hi") || str_eq(b, "ta") || str_eq(b, "te") || str_eq(b, "ml") || str_eq(b, "kn") || str_eq(b, "mr") || str_eq(b, "pa") {
        Some("in")
    } else if str_eq(b, "nl") {
        Some("nl")
    } else if str_eq(b, "sv") {
        Some("se")
    } else if str_eq(b, "da") {
        Some("dk")
    } else if str_eq(b, "no") || str_eq(b, "nb") || str_eq(b, "nn") {
        Some("no")
    } else if str_eq(b, "fi") {
        Some("fi")
    } else if str_eq(b, "pl") {
        Some("pl")
    } else if str_eq(b, "tr") {
        Some("tr")
    } else if str_eq(b, "th") {
        Some("th")
    } else if str_eq(b, "id") {
        Some("id")
    } else if str_eq(b, "cs") {
        Some("cz")
    } else if str_eq(b, "el") {
        Some("gr")
    } else if str_eq(b, "he") {
        Some("il")
    } else if str_eq(b, "hu") {
        Some("hu")
    } else if str_eq(b, "ro") {
        Some("ro")
    } else if str_eq(b, "uk") {
        Some("ua")
    } else if str_eq(b, "vi") {
        Some("vn")
    } else if str_eq(b, "fa") {
        Some("ir")
    } else if str_eq(b, "ms") {
        Some("my")
    } else if str_eq(b, "tl") {
        Some("ph")
    } else if str_eq(b, "bn") {
        Some("bd")
    } else if str_eq(b, "ar") {
        Some("sa")
    } else if str_eq(b, "is") {
        Some("is")
    } else if str_eq(b, "et") {
        Some("ee")
    } else if str_eq(b, "lv") {
        Some("lv")
    } else if str_eq(b, "lt") {
        Some("lt")
    } else if str_eq(b, "sk") {
        Some("sk")
    } else if str_eq(b, "sl") {
        Some("si")
    } else if str_eq(b, "hr") {
        Some("hr")
    } else if str_eq(b, "sr") {
        Some("rs")
    } else if str_eq(b, "bg") {
        Some("bg")
    } else {
        None
    }
}

/// Maps a title's main language (an ISO 639-1 code, optionally with a region
/// such as `pt-BR`) to the country whose flag is bundled for it. TMDB gives a
/// language, not a country, so the most common representative flag is picked.
/// Returns `None` for unmapped languages (the caller then draws text).
pub fn flag_country_for_lang(code: &str) -> (r: Option<&'static str>)
    ensures
        match flag_country_for_lang_spec(code@) {
            Some(c) => r matches Some(rc) && rc@ == c,
            None => r is None,
        },
{
    let n = code.unicode_len();
    let mut i: usize = 0;
    assert(code@.skip(0) =~= code@);
    assert(code@.take(0) + lang_base(code@.skip(0)) =~= lang_base(code@));
    while i < n && code.get_char(i) != '-' && code.get_char(i) != '_'
        invariant
            n == code@.len(),
            i <= n,
            lang_base(code@) == code@.take(i as int) + lang_base(code@.skip(i as int)),
        decreases n - i,
    {
        assert(code@.skip(i as int).drop_first() =~= code@.skip(i + 1));
        assert(code@.take(i + 1) =~= code@.take(i as int) + seq![code@[i as int]]);
        assert(code@.take(i as int) + lang_base(code@.skip(i as int)) =~= code@.take(i + 1) + lang_base(
            code@.skip(i + 1),
        ));
        i = i + 1;
    }
    assert(lang_base(code@.skip(i as int)) =~= Seq::<char>::empty());
    assert(lang_base(code@) =~= code@.take(i as int));
    let base = code.substring_char(0, i);
    let lower = to_ascii_lowercase(base);
    flag_country_of(lower.as_str())
}

/// The Rotten Tomatoes emblem a score earns.
#[derive(Debug, Clone, Copy, PartialEq, Eq, Structural)]
pub enum RtTier {
    /// 75 and above: Certified Fresh (critics) / Verified Hot (audience).
    Top,
    /// 60 to 74: Fresh (critics) / positive audience.
    Positive,
    /// Below 60: Rotten (critics) / negative audience.
    Negative,
}

/// The emblem tier for a Rotten Tomatoes percentage.
pub open spec fn rt_tier_spec(score: u32) -> RtTier {
    if score >= 75 {
        RtTier::Top
    } else if score >= 60 {
        RtTier::Positive
    } else {
        RtTier::Negative
    }
}

/// Picks the Rotten Tomatoes emblem for a score (a missing score counts as 0).
pub fn rt_tier(score: u32) -> (t: RtTier)
    ensures
        t == rt_tier_spec(score),
{
    if score >= 75 {
        RtTier::Top
    } else if score >= 60 {
        RtTier::Positive
    } else {
        RtTier::Negative
    }
}

/// A rating text without its trailing percent signs (all of them, as
/// `trim_end_matches('%')`).
pub open spec fn percent_text_spec(s: Seq<char>) -> Seq<char>
    decreases s.len(),
{
    if s.len() > 0 && s.last() == '%' {
        percent_text_spec(s.drop_last())
    } else {
        s
    }
}

/// Strips the trailing percent signs of a rating text, as the number before
/// them is read.
pub fn percent_text(value: &str) -> (r: &str)
    ensures
        r@ == percent_text_spec(value@),
{
    let mut n = value.unicode_len();
    assert(value@.take(n as int) =~= value@);
    while n > 0 && value.get_char(n - 1) == '%'
        invariant
            n <= value@.len(),
            percent_text_spec(value@) == percent_text_spec(value@.take(n as int)),
        decreases n,
    {
        assert(value@.take(n as int).drop_last() =~= value@.take(n - 1));
        n = n - 1;
    }
    value.substring_char(0, n)
}

/// Reads a rating percentage given as a whole number, such as `95%` or
/// `72`: the digits before the trailing percent signs, as `str::parse::<u32>`
/// reads them.
pub fn percent_whole(value: &str) -> (r: Option<u32>)
    ensures
        match crate::text::parse_unsigned(percent_text_spec(value@), u32::MAX as nat) {
            Some(v) => r == Some(v as u32),
            None => r is None,
        },
{
    match crate::text::parse_unsigned_max(percent_text(value), 4294967295u64) {
        Some(v) => Some(v as u32),
        None => None,
    }
}

/// Whether a language shares Spain's flag (Spanish, Catalan, Basque, Galician).
pub open spec fn spanish_flag_language(a: Seq<char>) -> bool {
    a == "es"@ || a == "ca"@ || a == "eu"@ || a == "gl"@
}

/// Whether a language shares India's flag.
pub open spec fn indian_flag_language(a: Seq<char>) -> bool {
    a == "hi"@ || a == "ta"@ || a == "te"@ || a == "ml"@ || a == "kn"@ || a == "mr"@ || a == "pa"@
}

/// Whether a language shares Norway's flag (Norwegian and its two written forms).
pub open spec fn norwegian_flag_language(a: Seq<char>) -> bool {
    a == "no"@ || a == "nb"@ || a == "nn"@
}

proof fn lemma_two_chars(a: Seq<char>, x: char, y: char)
    ensures
        (a == seq![x, y]) <==> (a.len() == 2 && a[0] == x && a[1] == y),
{
    if a.len() == 2 && a[0] == x && a[1] == y {
        assert(a =~= seq![x, y]);
    }
}

/// Two languages get the same flag only when they are the same language or
/// languages of the same country (Spain, India, Norway): no language shows
/// another country's flag.
pub proof fn lemma_flags_distinguish_languages(a: Seq<char>, b: Seq<char>)
    ensures
        flag_country(a) is Some && flag_country(a) == flag_country(b) ==> a == b || (spanish_flag_language(a)
            && spanish_flag_language(b)) || (indian_flag_language(a) && indian_flag_language(b)) || (
        norwegian_flag_language(a) && norwegian_flag_language(b)),
{
    reveal_strlit("ar");
    reveal_strlit("bd");
    reveal_strlit("bg");
    reveal_strlit("bn");
    reveal_strlit("ca");
    reveal_strlit("cn");
    reveal_strlit("cs");
    reveal_strlit("cz");
    reveal_strlit("da");
    reveal_strlit("de");
    reveal_strlit("dk");
    reveal_strlit("ee");
    reveal_strlit("el");
    reveal_strlit("en");
    reveal_strlit("es");
    reveal_strlit("et");
    reveal_strlit("eu");
    reveal_strlit("fa");
    reveal_strlit("fi");
    reveal_strlit("fr");
    reveal_strlit("gb");
    reveal_strlit("gl");
    reveal_strlit("gr");
    reveal_strlit("he");
    reveal_strlit("hi");
    reveal_strlit("hr");
    reveal_strlit("hu");
    reveal_strlit("id");
    reveal_strlit("il");
    reveal_strlit("in");
    reveal_strlit("ir");
    reveal_strlit("is");
    reveal_strlit("it");
    reveal_strlit("ja");
    reveal_strlit("jp");
    reveal_strlit("kn");
    reveal_strlit("ko");
    reveal_strlit("kr");
    reveal_strlit("lt");
    reveal_strlit("lv");
    reveal_strlit("ml");
    reveal_strlit("mr");
    reveal_strlit("ms");
    reveal_strlit("my");
    reveal_strlit("nb");
    reveal_strlit("nl");
    reveal_strlit("nn");
    reveal_strlit("no");
    reveal_strlit("pa");
    reveal_strlit("ph");
    reveal_strlit("pl");
    reveal_strlit("pt");
    reveal_strlit("ro");
    reveal_strlit("rs");
    reveal_strlit("ru");
    reveal_strlit("sa");
    reveal_strlit("se");
    reveal_strlit("si");
    reveal_strlit("sk");
    reveal_strlit("sl");
    reveal_strlit("sr");
    reveal_strlit("sv");
    reveal_strlit("ta");
    reveal_strlit("te");
    reveal_strlit("th");
    reveal_strlit("tl");
    reveal_strlit("tr");
    reveal_strlit("ua");
    reveal_strlit("uk");
    reveal_strlit("vi");
    reveal_strlit("vn");
    reveal_strlit("zh");
    assert("ar"@ =~= seq!['a', 'r']);
    assert("bd"@ =~= seq!['b', 'd']);
    assert("bg"@ =~= seq!['b', 'g']);
    assert("bn"@ =~= seq!['b', 'n']);
    assert("ca"@ =~= seq!['c', 'a']);
    assert("cn"@ =~= seq!['c', 'n']);
    assert("cs"@ =~= seq!['c', 's']);
    assert("cz"@ =~= seq!['c', 'z']);
    assert("da"@ =~= seq!['d', 'a']);
    assert("de"@ =~= seq!['d', 'e']);
    assert("dk"@ =~= seq!['d', 'k']);
    assert("ee"@ =~= seq!['e', 'e']);
    assert("el"@ =~= seq!['e', 'l']);
    assert("en"@ =~= seq!['e', 'n']);
    assert("es"@ =~= seq!['e', 's']);
    assert("et"@ =~= seq!['e', 't']);
    assert("eu"@ =~= seq!['e', 'u']);
    assert("fa"@ =~= seq!['f', 'a']);
    assert("fi"@ =~= seq!['f', 'i']);
    assert("fr"@ =~= seq!['f', 'r']);
    assert("gb"@ =~= seq!['g', 'b']);
    assert("gl"@ =~= seq!['g', 'l']);
    assert("gr"@ =~= seq!['g', 'r']);
    assert("he"@ =~= seq!['h', 'e']);
    assert("hi"@ =~= seq!['h', 'i']);
    assert("hr"@ =~= seq!['h', 'r']);
    assert("hu"@ =~= seq!['h', 'u']);
    assert("id"@ =~= seq!['i', 'd']);
    assert("il"@ =~= seq!['i', 'l']);
    assert("in"@ =~= seq!['i', 'n']);
    assert("ir"@ =~= seq!['i', 'r']);
    assert("is"@ =~= seq!['i', 's']);
    assert("it"@ =~= seq!['i', 't']);
    assert("ja"@ =~= seq!['j', 'a']);
    assert("jp"@ =~= seq!['j', 'p']);
    assert("kn"@ =~= seq!['k', 'n']);
    assert("ko"@ =~= seq!['k', 'o']);
    assert("kr"@ =~= seq!['k', 'r']);
    assert("lt"@ =~= seq!['l', 't']);
    assert("lv"@ =~= seq!['l', 'v']);
    assert("ml"@ =~= seq!['m', 'l']);
    assert("mr"@ =~= seq!['m', 'r']);
    assert("ms"@ =~= seq!['m', 's']);
    assert("my"@ =~= seq!['m', 'y']);
    assert("nb"@ =~= seq!['n', 'b']);
    assert("nl"@ =~= seq!['n', 'l']);
    assert("nn"@ =~= seq!['n', 'n']);
    assert("no"@ =~= seq!['n', 'o']);
    assert("pa"@ =~= seq!['p', 'a']);
    assert("ph"@ =~= seq!['p', 'h']);
    assert("pl"@ =~= seq!['p', 'l']);
    assert("pt"@ =~= seq!['p', 't']);
    assert("ro"@ =~= seq!['r', 'o']);
    assert("rs"@ =~= seq!['r', 's']);
    assert("ru"@ =~= seq!['r', 'u']);
    assert("sa"@ =~= seq!['s', 'a']);
    assert("se"@ =~= seq!['s', 'e']);
    assert("si"@ =~= seq!['s', 'i']);
    assert("sk"@ =~= seq!['s', 'k']);
    assert("sl"@ =~= seq!['s', 'l']);
    assert("sr"@ =~= seq!['s', 'r']);
    assert("sv"@ =~= seq!['s', 'v']);
    assert("ta"@ =~= seq!['t', 'a']);
    assert("te"@ =~= seq!['t', 'e']);
    assert("th"@ =~= seq!['t', 'h']);
    assert("tl"@ =~= seq!['t', 'l']);
    assert("tr"@ =~= seq!['t', 'r']);
    assert("ua"@ =~= seq!['u', 'a']);
    assert("uk"@ =~= seq!['u', 'k']);
    assert("vi"@ =~= seq!['v', 'i']);
    assert("vn"@ =~= seq!['v', 'n']);
    assert("zh"@ =~= seq!['z', 'h']);
    lemma_two_chars(a, 'a', 'r');
    lemma_two_chars(b, 'a', 'r');
    lemma_two_chars(a, 'b', 'g');
    lemma_two_chars(b, 'b', 'g');
    lemma_two_chars(a, 'b', 'n');
    lemma_two_chars(b, 'b', 'n');
    lemma_two_chars(a, 'c', 'a');
    lemma_two_chars(b, 'c', 'a');
    lemma_two_chars(a, 'c', 's');
    lemma_two_chars(b, 'c', 's');
    lemma_two_chars(a, 'd', 'a');
    lemma_two_chars(b, 'd', 'a');
    lemma_two_chars(a, 'd', 'e');
    lemma_two_chars(b, 'd', 'e');
    lemma_two_chars(a, 'e', 'l');
    lemma_two_chars(b, 'e', 'l');
    lemma_two_chars(a, 'e', 'n');
    lemma_two_chars(b, 'e', 'n');
    lemma_two_chars(a, 'e', 's');
    lemma_two_chars(b, 'e', 's');
    lemma_two_chars(a, 'e', 't');
    lemma_two_chars(b, 'e', 't');
    lemma_two_chars(a, 'e', 'u');
    lemma_two_chars(b, 'e', 'u');
    lemma_two_chars(a, 'f', 'a');
    lemma_two_chars(b, 'f', 'a');
    lemma_two_chars(a, 'f', 'i');
    lemma_two_chars(b, 'f', 'i');
    lemma_two_chars(a, 'f', 'r');
    lemma_two_chars(b, 'f', 'r');
    lemma_two_chars(a, 'g', 'l');
    lemma_two_chars(b, 'g', 'l');
    lemma_two_chars(a, 'h', 'e');
    lemma_two_chars(b, 'h', 'e');
    lemma_two_chars(a, 'h', 'i');
    lemma_two_chars(b, 'h', 'i');
    lemma_two_chars(a, 'h', 'r');
    lemma_two_chars(b, 'h', 'r');
    lemma_two_chars(a, 'h', 'u');
    lemma_two_chars(b, 'h', 'u');
    lemma_two_chars(a, 'i', 'd');
    lemma_two_chars(b, 'i', 'd');
    lemma_two_chars(a, 'i', 's');
    lemma_two_chars(b, 'i', 's');
    lemma_two_chars(a, 'i', 't');
    lemma_two_chars(b, 'i', 't');
    lemma_two_chars(a, 'j', 'a');
    lemma_two_chars(b, 'j', 'a');
    lemma_two_chars(a, 'k', 'n');
    lemma_two_chars(b, 'k', 'n');
    lemma_two_chars(a, 'k', 'o');
    lemma_two_chars(b, 'k', 'o');
    lemma_two_chars(a, 'l', 't');
    lemma_two_chars(b, 'l', 't');
    lemma_two_chars(a, 'l', 'v');
    lemma_two_chars(b, 'l', 'v');
    lemma_two_chars(a, 'm', 'l');
    lemma_two_chars(b, 'm', 'l');
    lemma_two_chars(a, 'm', 'r');
    lemma_two_chars(b, 'm', 'r');
    lemma_two_chars(a, 'm', 's');
    lemma_two_chars(b, 'm', 's');
    lemma_two_chars(a, 'n', 'b');
    lemma_two_chars(b, 'n', 'b');
    lemma_two_chars(a, 'n', 'l');
    lemma_two_chars(b, 'n', 'l');
    lemma_two_chars(a, 'n', 'n');
    lemma_two_chars(b, 'n', 'n');
    lemma_two_chars(a, 'n', 'o');
    lemma_two_chars(b, 'n', 'o');
    lemma_two_chars(a, 'p', 'a');
    lemma_two_chars(b, 'p', 'a');
    lemma_two_chars(a, 'p', 'l');
    lemma_two_chars(b, 'p', 'l');
    lemma_two_chars(a, 'p', 't');
    lemma_two_chars(b, 'p', 't');
    lemma_two_chars(a, 'r', 'o');
    lemma_two_chars(b, 'r', 'o');
    lemma_two_chars(a, 'r', 'u');
    lemma_two_chars(b, 'r', 'u');
    lemma_two_chars(a, 's', 'k');
    lemma_two_chars(b, 's', 'k');
    lemma_two_chars(a, 's', 'l');
    lemma_two_chars(b, 's', 'l');
    lemma_two_chars(a, 's', 'r');
    lemma_two_chars(b, 's', 'r');
    lemma_two_chars(a, 's', 'v');
    lemma_two_chars(b, 's', 'v');
    lemma_two_chars(a, 't', 'a');
    lemma_two_chars(b, 't', 'a');
    lemma_two_chars(a, 't', 'e');
    lemma_two_chars(b, 't', 'e');
    lemma_two_chars(a, 't', 'h');
    lemma_two_chars(b, 't', 'h');
    lemma_two_chars(a, 't', 'l');
    lemma_two_chars(b, 't', 'l');
    lemma_two_chars(a, 't', 'r');
    lemma_two_chars(b, 't', 'r');
    lemma_two_chars(a, 'u', 'k');
    lemma_two_chars(b, 'u', 'k');
    lemma_two_chars(a, 'v', 'i');
    lemma_two_chars(b, 'v', 'i');
    lemma_two_chars(a, 'z', 'h');
    lemma_two_chars(b, 'z', 'h');
    if a.len() == 2 && b.len() == 2 && a[0] == b[0] && a[1] == b[1] {
        assert(a =~= b);
    }
}

/// A flag code that is itself a language code names that language's own
/// country: the flag is a fixed point (`es` stays `es`, `no` stays `no`).
pub proof fn lemma_flag_code_is_fixed_point(a: Seq<char>)
    ensures
        flag_country(a) matches Some(c) ==> (flag_country(c) is Some ==> flag_country(c) == Some(c)),
{
    reveal_strlit("ar");
    reveal_strlit("bd");
    reveal_strlit("bg");
    reveal_strlit("bn");
    reveal_strlit("ca");
    reveal_strlit("cn");
    reveal_strlit("cs");
    reveal_strlit("cz");
    reveal_strlit("da");
    reveal_strlit("de");
    reveal_strlit("dk");
    reveal_strlit("ee");
    reveal_strlit("el");
    reveal_strlit("en");
    reveal_strlit("es");
    reveal_strlit("et");
    reveal_strlit("eu");
    reveal_strlit("fa");
    reveal_strlit("fi");
    reveal_strlit("fr");
    reveal_strlit("gb");
    reveal_strlit("gl");
    reveal_strlit("gr");
    reveal_strlit("he");
    reveal_strlit("hi");
    reveal_strlit("hr");
    reveal_strlit("hu");
    reveal_strlit("id");
    reveal_strlit("il");
    reveal_strlit("in");
    reveal_strlit("ir");
    reveal_strlit("is");
    reveal_strlit("it");
    reveal_strlit("ja");
    reveal_strlit("jp");
    reveal_strlit("kn");
    reveal_strlit("ko");
    reveal_strlit("kr");
    reveal_strlit("lt");
    reveal_strlit("lv");
    reveal_strlit("ml");
    reveal_strlit("mr");
    reveal_strlit("ms");
    reveal_strlit("my");
    reveal_strlit("nb");
    reveal_strlit("nl");
    reveal_strlit("nn");
    reveal_strlit("no");
    reveal_strlit("pa");
    reveal_strlit("ph");
    reveal_strlit("pl");
    reveal_strlit("pt");
    reveal_strlit("ro");
    reveal_strlit("rs");
    reveal_strlit("ru");
    reveal_strlit("sa");
    reveal_strlit("se");
    reveal_strlit("si");
    reveal_strlit("sk");
    reveal_strlit("sl");
    reveal_strlit("sr");
    reveal_strlit("sv");
    reveal_strlit("ta");
    reveal_strlit("te");
    reveal_strlit("th");
    reveal_strlit("tl");
    reveal_strlit("tr");
    reveal_strlit("ua");
    reveal_strlit("uk");
    reveal_strlit("vi");
    reveal_strlit("vn");
    reveal_strlit("zh");
    assert("ar"@ =~= seq!['a', 'r']);
    assert("bd"@ =~= seq!['b', 'd']);
    assert("bg"@ =~= seq!['b', 'g']);
    assert("bn"@ =~= seq!['b', 'n']);
    assert("ca"@ =~= seq!['c', 'a']);
    assert("cn"@ =~= seq!['c', 'n']);
    assert("cs"@ =~= seq!['c', 's']);
    assert("cz"@ =~= seq!['c', 'z']);
    assert("da"@ =~= seq!['d', 'a']);
    assert("de"@ =~= seq!['d', 'e']);
    assert("dk"@ =~= seq!['d', 'k']);
    assert("ee"@ =~= seq!['e', 'e']);
    assert("el"@ =~= seq!['e', 'l']);
    assert("en"@ =~= seq!['e', 'n']);
    assert("es"@ =~= seq!['e', 's']);
    assert("et"@ =~= seq!['e', 't']);
    assert("eu"@ =~= seq!['e', 'u']);
    assert("fa"@ =~= seq!['f', 'a']);
    assert("fi"@ =~= seq!['f', 'i']);
    assert("fr"@ =~= seq!['f', 'r']);
    assert("gb"@ =~= seq!['g', 'b']);
    assert("gl"@ =~= seq!['g', 'l']);
    assert("gr"@ =~= seq!['g', 'r']);
    assert("he"@ =~= seq!['h', 'e']);
    assert("hi"@ =~= seq!['h', 'i']);
    assert("hr"@ =~= seq!['h', 'r']);
    assert("hu"@ =~= seq!['h', 'u']);
    assert("id"@ =~= seq!['i', 'd']);
    assert("il"@ =~= seq!['i', 'l']);
    assert("in"@ =~= seq!['i', 'n']);
    assert("ir"@ =~= seq!['i', 'r']);
    assert("is"@ =~= seq!['i', 's']);
    assert("it"@ =~= seq!['i', 't']);
    assert("ja"@ =~= seq!['j', 'a']);
    assert("jp"@ =~= seq!['j', 'p']);
    assert("kn"@ =~= seq!['k', 'n']);
    assert("ko"@ =~= seq!['k', 'o']);
    assert("kr"@ =~= seq!['k', 'r']);
    assert("lt"@ =~= seq!['l', 't']);
    assert("lv"@ =~= seq!['l', 'v']);
    assert("ml"@ =~= seq!['m', 'l']);
    assert("mr"@ =~= seq!['m', 'r']);
    assert("ms"@ =~= seq!['m', 's']);
    assert("my"@ =~= seq!['m', 'y']);
    assert("nb"@ =~= seq!['n', 'b']);
    assert("nl"@ =~= seq!['n', 'l']);
    assert("nn"@ =~= seq!['n', 'n']);
    assert("no"@ =~= seq!['n', 'o']);
    assert("pa"@ =~= seq!['p', 'a']);
    assert("ph"@ =~= seq!['p', 'h']);
    assert("pl"@ =~= seq!['p', 'l']);
    assert("pt"@ =~= seq!['p', 't']);
    assert("ro"@ =~= seq!['r', 'o']);
    assert("rs"@ =~= seq!['r', 's']);
    assert("ru"@ =~= seq!['r', 'u']);
    assert("sa"@ =~= seq!['s', 'a']);
    assert("se"@ =~= seq!['s', 'e']);
    assert("si"@ =~= seq!['s', 'i']);
    assert("sk"@ =~= seq!['s', 'k']);
    assert("sl"@ =~= seq!['s', 'l']);
    assert("sr"@ =~= seq!['s', 'r']);
    assert("sv"@ =~= seq!['s', 'v']);
    assert("ta"@ =~= seq!['t', 'a']);
    assert("te"@ =~= seq!['t', 'e']);
    assert("th"@ =~= seq!['t', 'h']);
    assert("tl"@ =~= seq!['t', 'l']);
    assert("tr"@ =~= seq!['t', 'r']);
    assert("ua"@ =~= seq!['u', 'a']);
    assert("uk"@ =~= seq!['u', 'k']);
    assert("vi"@ =~= seq!['v', 'i']);
    assert("vn"@ =~= seq!['v', 'n']);
    assert("zh"@ =~= seq!['z', 'h']);
    if flag_country(a) is Some {
        let c = flag_country(a).unwrap();
        lemma_two_chars(c, 'a', 'r');
        lemma_two_chars(c, 'b', 'g');
        lemma_two_chars(c, 'b', 'n');
        lemma_two_chars(c, 'c', 'a');
        lemma_two_chars(c, 'c', 's');
        lemma_two_chars(c, 'd', 'a');
        lemma_two_chars(c, 'd', 'e');
        lemma_two_chars(c, 'e', 'l');
        lemma_two_chars(c, 'e', 'n');
        lemma_two_chars(c, 'e', 's');
        lemma_two_chars(c, 'e', 't');
        lemma_two_chars(c, 'e', 'u');
        lemma_two_chars(c, 'f', 'a');
        lemma_two_chars(c, 'f', 'i');
        lemma_two_chars(c, 'f', 'r');
        lemma_two_chars(c, 'g', 'l');
        lemma_two_chars(c, 'h', 'e');
        lemma_two_chars(c, 'h', 'i');
        lemma_two_chars(c, 'h', 'r');
        lemma_two_chars(c, 'h', 'u');
        lemma_two_chars(c, 'i', 'd');
        lemma_two_chars(c, 'i', 's');
        lemma_two_chars(c, 'i', 't');
        lemma_two_chars(c, 'j', 'a');
        lemma_two_chars(c, 'k', 'n');
        lemma_two_chars(c, 'k', 'o');
        lemma_two_chars(c, 'l', 't');
        lemma_two_chars(c, 'l', 'v');
        lemma_two_chars(c, 'm', 'l');
        lemma_two_chars(c, 'm', 'r');
        lemma_two_chars(c, 'm', 's');
        lemma_two_chars(c, 'n', 'b');
        lemma_two_chars(c, 'n', 'l');
        lemma_two_chars(c, 'n', 'n');
        lemma_two_chars(c, 'n', 'o');
        lemma_two_chars(c, 'p', 'a');
        lemma_two_chars(c, 'p', 'l');
        lemma_two_chars(c, 'p', 't');
        lemma_two_chars(c, 'r', 'o');
        lemma_two_chars(c, 'r', 'u');
        lemma_two_chars(c, 's', 'k');
        lemma_two_chars(c, 's', 'l');
        lemma_two_chars(c, 's', 'r');
        lemma_two_chars(c, 's', 'v');
        lemma_two_chars(c, 't', 'a');
        lemma_two_chars(c, 't', 'e');
        lemma_two_chars(c, 't', 'h');
        lemma_two_chars(c, 't', 'l');
        lemma_two_chars(c, 't', 'r');
        lemma_two_chars(c, 'u', 'k');
        lemma_two_chars(c, 'v', 'i');
        lemma_two_chars(c, 'z', 'h');
    }
}

} // verus!
