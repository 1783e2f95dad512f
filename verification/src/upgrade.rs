//! The cache-key migration that adds the badge shape and background suffixes:
//! pre-existing keys get `.shr.bgd` (rounded shape, default background)
//! inserted right after their badge-size token.

use crate::text::{contains, contains_str, decimal, find, find_str, lemma_find, lemma_find_some, occurs_at, push_decimal};
use vstd::prelude::*;
use vstd::string::*;

verus! {

/// The five badge-size tokens, each surrounded by dots so that only the size
/// suffix matches (not a like-named part of another token).
pub open spec fn size_tokens() -> Seq<Seq<char>> {
    seq![".bxs."@, ".bs."@, ".bm."@, ".bl."@, ".bxl."@]
}

/// The default shape (`r`) and background (`d`) suffixes inserted for images
/// rendered before these settings existed.
pub open spec fn default_suffix() -> Seq<char> {
    "shr.bgd."@
}

/// `name` with the first occurrence of the first size token it contains
/// (tried in `tokens` order) followed by the default suffixes.
pub open spec fn insert_after_token(name: Seq<char>, tokens: Seq<Seq<char>>) -> Option<Seq<char>>
    decreases tokens.len(),
{
    if tokens.len() == 0 {
        None
    } else {
        match find(name, tokens[0]) {
            Some(i) => Some(name.take(i) + tokens[0] + default_suffix() + name.skip(i + tokens[0].len())),
            None => insert_after_token(name, tokens.drop_first()),
        }
    }
}

/// The migrated name of a cached file: `None` when it already carries a
/// background suffix (`.bg`) or has no badge-size token.
pub open spec fn migrated_name(name: Seq<char>) -> Option<Seq<char>> {
    if contains(name, ".bg"@) {
        None
    } else {
        insert_after_token(name, size_tokens())
    }
}

fn size_token(k: usize) -> (t: &'static str)
    requires
        k < 5,
    ensures
        t@ == size_tokens()[k as int],
{
    match k {
        0 => ".bxs.",
        1 => ".bs.",
        2 => ".bm.",
        3 => ".bl.",
        _ => ".bxl.",
    }
}

/// Transforms an old cache filename to include the default shape/background
/// suffixes, inserting `.shr.bgd` right after the badge-size token.
///
/// Returns `None` if already migrated (contains a `.bg` background suffix) or
/// no badge-size token is present.
pub fn migrate_name(name: &str) -> (r: Option<String>)
    ensures
        match migrated_name(name@) {
            Some(m) => r matches Some(rm) && rm@ == m,
            None => r is None,
        },
{
    if contains_str(name, ".bg") {
        return None;
    }
    let nlen = name.unicode_len();
    let mut k: usize = 0;
    assert(size_tokens().skip(0) =~= size_tokens());
    while k < 5
        invariant
            k <= 5,
            nlen == name@.len(),
            !contains(name@, ".bg"@),
            insert_after_token(name@, size_tokens()) == insert_after_token(
                name@,
                size_tokens().skip(k as int),
            ),
        decreases 5 - k,
    {
        let token = size_token(k);
        assert(size_tokens().skip(k as int)[0] == token@);
        assert(size_tokens().skip(k as int).drop_first() =~= size_tokens().skip(k + 1));
        match find_str(name, token) {
            Some(i) => {
                proof {
                    lemma_find(name@, token@);
                }
                let mut out = String::from_str(name.substring_char(0, i));
                out.append(token);
                out.append("shr.bgd.");
                out.append(name.substring_char(i + token.unicode_len(), nlen));
                return Some(out);
            },
            None => {},
        }
        k = k + 1;
    }
    assert(size_tokens().skip(5).len() == 0);
    None
}

/// A migrated name carries the background suffix, so migrating it again does
/// nothing: the migration is idempotent.
pub proof fn lemma_migration_idempotent(name: Seq<char>)
    ensures
        migrated_name(name) matches Some(m) ==> migrated_name(m) is None,
{
    reveal_strlit(".bg");
    reveal_strlit("shr.bgd.");
    if let Some(m) = migrated_name(name) {
        lemma_insert_has_background(name, size_tokens());
    }
}

proof fn lemma_insert_has_background(name: Seq<char>, tokens: Seq<Seq<char>>)
    ensures
        insert_after_token(name, tokens) matches Some(m) ==> contains(m, ".bg"@),
    decreases tokens.len(),
{
    reveal_strlit(".bg");
    reveal_strlit("shr.bgd.");
    if tokens.len() > 0 {
        match find(name, tokens[0]) {
            Some(i) => {
                lemma_find(name, tokens[0]);
                let m = name.take(i) + tokens[0] + default_suffix() + name.skip(i + tokens[0].len());
                let at = i + tokens[0].len() + 3;
                assert(m.subrange(at, at + 3) =~= ".bg"@);
                assert(occurs_at(m, ".bg"@, at));
                lemma_find_some(m, ".bg"@, at);
            },
            None => {
                lemma_insert_has_background(name, tokens.drop_first());
            },
        }
    }
}

/// The SQL statement that migrates the cache keys holding `token`: inserts the
/// default suffixes after it in every key that has no background suffix yet.
pub open spec fn migration_sql(token: Seq<char>) -> Seq<char> {
    "UPDATE image_meta SET cache_key = substr(cache_key, 1, instr(cache_key, '"@ + token
        + "') - 1) || '"@ + token + default_suffix() + "' || substr(cache_key, instr(cache_key, '"@
        + token + "') + "@ + decimal(token.len()) + ") WHERE instr(cache_key, '"@ + token
        + "') > 0 AND instr(cache_key, '.bg') = 0"@
}

/// The database step of the migration: one statement per size token, in token
/// order. A key has exactly one size token, so at most one statement changes it,
/// and the `.bg` guard makes each statement idempotent.
pub fn migration_statements() -> (v: Vec<String>)
    ensures
        v@.len() == 5,
        forall|k: int| 0 <= k < 5 ==> (#[trigger] v@[k])@ == migration_sql(size_tokens()[k]),
{
    let mut v: Vec<String> = Vec::new();
    let mut k: usize = 0;
    while k < 5
        invariant
            k <= 5,
            v@.len() == k,
            forall|j: int| 0 <= j < k ==> (#[trigger] v@[j])@ == migration_sql(size_tokens()[j]),
        decreases 5 - k,
    {
        let token = size_token(k);
        let mut s = String::from_str("UPDATE image_meta SET cache_key = substr(cache_key, 1, instr(cache_key, '");
        s.append(token);
        s.append("') - 1) || '");
        s.append(token);
        s.append("shr.bgd.");
        s.append("' || substr(cache_key, instr(cache_key, '");
        s.append(token);
        s.append("') + ");
        push_decimal(&mut s, token.unicode_len() as u64);
        s.append(") WHERE instr(cache_key, '");
        s.append(token);
        s.append("') > 0 AND instr(cache_key, '.bg') = 0");
        v.push(s);
        k = k + 1;
    }
    v
}

} // verus!
