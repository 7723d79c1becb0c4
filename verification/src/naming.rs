//! Naming transformer: pure case conversions used to derive a field's
//! externally visible key from its natural identifier.
//!
//! Inputs are assumed to be identifiers written in lowercase-with-underscores
//! form; only ASCII letters change case.

use vstd::prelude::*;
use vstd::string::StrSliceExecFns;
use vstd::string::StringExecFns;

verus! {

/// The ASCII uppercase counterpart of a character: `'a'..='z'` map to
/// `'A'..='Z'`, every other character is unchanged.
pub open spec fn spec_upper(c: char) -> char {
    if 'a' <= c && c <= 'z' {
        ((c as int) - 32) as char
    } else {
        c
    }
}

/// The ASCII lowercase counterpart of a character: `'A'..='Z'` map to
/// `'a'..='z'`, every other character is unchanged.
pub open spec fn spec_lower(c: char) -> char {
    if 'A' <= c && c <= 'Z' {
        ((c as int) + 32) as char
    } else {
        c
    }
}

/// Maps a character to its ASCII uppercase counterpart.
pub fn upper_char(c: char) -> (r: char)
    ensures
        r == spec_upper(c),
{
    match c {
        'a' => 'A',
        'b' => 'B',
        'c' => 'C',
        'd' => 'D',
        'e' => 'E',
        'f' => 'F',
        'g' => 'G',
        'h' => 'H',
        'i' => 'I',
        'j' => 'J',
        'k' => 'K',
        'l' => 'L',
        'm' => 'M',
        'n' => 'N',
        'o' => 'O',
        'p' => 'P',
        'q' => 'Q',
        'r' => 'R',
        's' => 'S',
        't' => 'T',
        'u' => 'U',
        'v' => 'V',
        'w' => 'W',
        'x' => 'X',
        'y' => 'Y',
        'z' => 'Z',
        _ => c,
    }
}

/// The input with its first character replaced by its ASCII uppercase
/// counterpart.
pub open spec fn spec_capitalize(s: Seq<char>) -> Seq<char> {
    if s.len() == 0 {
        s
    } else {
        seq![spec_upper(s[0])] + s.skip(1)
    }
}

/// Capitalizes the first character of a string (ASCII).
pub fn capitalize(s: &str) -> (r: String)
    ensures
        r@ == spec_capitalize(s@),
{
    let len = s.unicode_len();
    if len == 0 {
        let r = String::new();
        assert(r@ =~= spec_capitalize(s@));
        r
    } else {
        let mut r = String::new();
        r.push(upper_char(s.get_char(0)));
        let rest = s.substring_char(1, len);
        r.append(rest);
        assert(r@ =~= spec_capitalize(s@));
        r
    }
}

/// One step of camel-case conversion: underscores are dropped, and the
/// character following a dropped underscore is uppercased; `cap` records
/// whether the next character is pending capitalization.
pub open spec fn spec_camel_rec(s: Seq<char>, cap: bool) -> Seq<char>
    decreases s.len(),
{
    if s.len() == 0 {
        Seq::<char>::empty()
    } else if s[0] == '_' {
        spec_camel_rec(s.skip(1), true)
    } else if cap {
        seq![spec_upper(s[0])] + spec_camel_rec(s.skip(1), false)
    } else {
        seq![s[0]] + spec_camel_rec(s.skip(1), false)
    }
}

/// Camel-case form of an underscore-separated identifier: underscores are
/// dropped and each character that followed one is uppercased; the first
/// character keeps its case.
pub open spec fn spec_to_camel(s: Seq<char>) -> Seq<char> {
    spec_camel_rec(s, false)
}

/// Pascal-case form of an underscore-separated identifier: camel-case with
/// the very first character uppercased as well.
pub open spec fn spec_to_pascal(s: Seq<char>) -> Seq<char> {
    spec_camel_rec(s, true)
}

fn camel_rec_exec(s: &str, initial_cap: bool) -> (r: String)
    ensures
        r@ == spec_camel_rec(s@, initial_cap),
{
    let len = s.unicode_len();
    let mut r = String::new();
    let mut i: usize = 0;
    let mut cap = initial_cap;
    proof {
        assert(s@.skip(0) =~= s@);
        assert(r@ + spec_camel_rec(s@, initial_cap) =~= spec_camel_rec(s@, initial_cap));
    }
    while i < len
        invariant
            i <= len,
            len == s@.len(),
            spec_camel_rec(s@, initial_cap) == r@ + spec_camel_rec(s@.skip(i as int), cap),
        decreases len - i,
    {
        let c = s.get_char(i);
        proof {
            assert(s@.skip(i as int)[0] == s@[i as int]);
            assert(s@.skip(i as int).skip(1) =~= s@.skip(i as int + 1));
        }
        if c == '_' {
            cap = true;
        } else if cap {
            r.push(upper_char(c));
            cap = false;
        } else {
            r.push(c);
            cap = false;
        }
        i = i + 1;
    }
    proof {
        assert(s@.skip(len as int) =~= Seq::<char>::empty());
        assert(r@ + spec_camel_rec(s@.skip(len as int), cap) =~= r@);
    }
    r
}

/// Converts an underscore-separated identifier to camel-case.
pub fn to_camel_case(s: &str) -> (r: String)
    ensures
        r@ == spec_to_camel(s@),
{
    camel_rec_exec(s, false)
}

/// Converts an underscore-separated identifier to Pascal-case.
pub fn to_pascal_case(s: &str) -> (r: String)
    ensures
        r@ == spec_to_pascal(s@),
{
    camel_rec_exec(s, true)
}

/// Upper-snake form: every character uppercased (ASCII), underscores kept.
pub open spec fn spec_upper_snake(s: Seq<char>) -> Seq<char> {
    Seq::new(s.len(), |i: int| spec_upper(s[i]))
}

/// Hyphenated form: every underscore replaced by a hyphen.
pub open spec fn spec_kebab(s: Seq<char>) -> Seq<char> {
    Seq::new(
        s.len(),
        |i: int|
            if s[i] == '_' {
                '-'
            } else {
                s[i]
            },
    )
}

/// Converts an underscore-separated identifier to upper-snake
/// (screaming-snake) form.
pub fn to_upper_snake_case(s: &str) -> (r: String)
    ensures
        r@ == spec_upper_snake(s@),
{
    let len = s.unicode_len();
    let mut r = String::new();
    let mut i: usize = 0;
    while i < len
        invariant
            i <= len,
            len == s@.len(),
            r@.len() == i,
            forall|j: int| 0 <= j < i ==> r@[j] == spec_upper(s@[j]),
        decreases len - i,
    {
        r.push(upper_char(s.get_char(i)));
        i = i + 1;
    }
    proof {
        assert(r@ =~= spec_upper_snake(s@));
    }
    r
}

/// Converts an underscore-separated identifier to hyphenated (kebab) form.
pub fn to_kebab_case(s: &str) -> (r: String)
    ensures
        r@ == spec_kebab(s@),
{
    let len = s.unicode_len();
    let mut r = String::new();
    let mut i: usize = 0;
    while i < len
        invariant
            i <= len,
            len == s@.len(),
            r@.len() == i,
            forall|j: int|
                0 <= j < i ==> r@[j] == (if s@[j] == '_' {
                    '-'
                } else {
                    s@[j]
                }),
        decreases len - i,
    {
        let c = s.get_char(i);
        if c == '_' {
            r.push('-');
        } else {
            r.push(c);
        }
        i = i + 1;
    }
    proof {
        assert(r@ =~= spec_kebab(s@));
    }
    r
}

/// The name produced by a struct-level case-conversion rule: a recognized
/// style tag selects its transform; no tag, or an unrecognized one,
/// returns the natural identifier unchanged (fail open).
pub open spec fn spec_apply_rename_all(name: Seq<char>, style: Option<Seq<char>>) -> Seq<char> {
    match style {
        None => name,
        Some(st) => {
            if st == "camelCase"@ {
                spec_to_camel(name)
            } else if st == "PascalCase"@ {
                spec_to_pascal(name)
            } else if st == "snake_case"@ {
                name
            } else if st == "SCREAMING_SNAKE_CASE"@ {
                spec_upper_snake(name)
            } else if st == "kebab-case"@ {
                spec_kebab(name)
            } else {
                name
            }
        },
    }
}

/// Applies a struct-level case-conversion style tag to a field's natural
/// identifier; unrecognized tags leave the identifier unchanged.
pub fn apply_rename_all(field_name: &str, rename_all: &Option<String>) -> (r: String)
    ensures
        r@ == spec_apply_rename_all(field_name@, rename_all.deep_view()),
{
    match rename_all {
        None => String::from_str(field_name),
        Some(style) => {
            if crate::text::str_eq(style.as_str(), "camelCase") {
                to_camel_case(field_name)
            } else if crate::text::str_eq(style.as_str(), "PascalCase") {
                to_pascal_case(field_name)
            } else if crate::text::str_eq(style.as_str(), "snake_case") {
                String::from_str(field_name)
            } else if crate::text::str_eq(style.as_str(), "SCREAMING_SNAKE_CASE") {
                to_upper_snake_case(field_name)
            } else if crate::text::str_eq(style.as_str(), "kebab-case") {
                to_kebab_case(field_name)
            } else {
                String::from_str(field_name)
            }
        },
    }
}

/// The externally visible name of a field: an explicit rename is used
/// verbatim; otherwise the enclosing definition's case-conversion rule, if
/// any, is applied to the natural identifier.
pub fn resolve_field_name(rename: Option<String>, natural: &str, rename_all: &Option<String>) -> (r:
    String)
    ensures
        rename matches Some(n) ==> r == n,
        rename is None ==> r@ == spec_apply_rename_all(natural@, rename_all.deep_view()),
{
    match rename {
        Some(n) => n,
        None => apply_rename_all(natural, rename_all),
    }
}

/// The underscore-insertion transform: a `_` is inserted before each
/// ASCII uppercase letter, which is lowercased.
pub open spec fn spec_snake_of(s: Seq<char>) -> Seq<char>
    decreases s.len(),
{
    if s.len() == 0 {
        Seq::<char>::empty()
    } else if 'A' <= s[0] && s[0] <= 'Z' {
        seq!['_', spec_lower(s[0])] + spec_snake_of(s.skip(1))
    } else {
        seq![s[0]] + spec_snake_of(s.skip(1))
    }
}

proof fn lemma_snake_camel_rec(s: Seq<char>)
    requires
        forall|i: int| 0 <= i < s.len() ==> ('a' <= #[trigger] s[i] && s[i] <= 'z') || s[i] == '_',
        forall|i: int| 0 <= i < s.len() - 1 ==> !(#[trigger] s[i] == '_' && s[i + 1] == '_'),
        s.len() > 0 ==> s[s.len() - 1] != '_',
    ensures
        spec_snake_of(spec_camel_rec(s, false)) == s,
    decreases s.len(),
{
    if s.len() == 0 {
        assert(spec_snake_of(spec_camel_rec(s, false)) =~= s);
    } else if s[0] == '_' {
        // No trailing or doubled underscore, so a lowercase letter follows.
        assert(s.len() >= 2);
        assert(s[1] != '_');
        assert('a' <= s[1] && s[1] <= 'z');
        let t = s.skip(1);
        assert(t[0] == s[1]);
        let u = s.skip(2);
        proof_conditions_skip(s, 2);
        assert(t.skip(1) =~= u);
        lemma_snake_camel_rec(u);
        let up = spec_upper(s[1]);
        assert('A' <= up && up <= 'Z');
        assert(spec_lower(up) == s[1]);
        assert(spec_camel_rec(s, false) == spec_camel_rec(t, true));
        assert(spec_camel_rec(t, true) == seq![up] + spec_camel_rec(u, false));
        let rest = spec_camel_rec(u, false);
        assert((seq![up] + rest)[0] == up);
        assert((seq![up] + rest).skip(1) =~= rest);
        assert(spec_snake_of(seq![up] + rest) == seq!['_', spec_lower(up)] + spec_snake_of(rest));
        assert(seq!['_', s[1]] + u =~= s);
    } else {
        assert('a' <= s[0] && s[0] <= 'z');
        let t = s.skip(1);
        proof_conditions_skip(s, 1);
        lemma_snake_camel_rec(t);
        let rest = spec_camel_rec(t, false);
        assert(spec_camel_rec(s, false) == seq![s[0]] + rest);
        assert((seq![s[0]] + rest)[0] == s[0]);
        assert(!('A' <= s[0] && s[0] <= 'Z'));
        assert((seq![s[0]] + rest).skip(1) =~= rest);
        assert(spec_snake_of(seq![s[0]] + rest) == seq![s[0]] + spec_snake_of(rest));
        assert(seq![s[0]] + t =~= s);
    }
}

proof fn proof_conditions_skip(s: Seq<char>, k: int)
    requires
        0 <= k <= s.len(),
        forall|i: int| 0 <= i < s.len() ==> ('a' <= #[trigger] s[i] && s[i] <= 'z') || s[i] == '_',
        forall|i: int| 0 <= i < s.len() - 1 ==> !(#[trigger] s[i] == '_' && s[i + 1] == '_'),
        s.len() > 0 ==> s[s.len() - 1] != '_',
    ensures
        forall|i: int|
            0 <= i < s.skip(k).len() ==> ('a' <= #[trigger] s.skip(k)[i] && s.skip(k)[i] <= 'z')
                || s.skip(k)[i] == '_',
        forall|i: int|
            0 <= i < s.skip(k).len() - 1 ==> !(#[trigger] s.skip(k)[i] == '_' && s.skip(k)[i + 1]
                == '_'),
        s.skip(k).len() > 0 ==> s.skip(k)[s.skip(k).len() - 1] != '_',
{
    assert forall|i: int| 0 <= i < s.skip(k).len() implies ('a' <= #[trigger] s.skip(k)[i]
        && s.skip(k)[i] <= 'z') || s.skip(k)[i] == '_' by {
        assert(s.skip(k)[i] == s[i + k]);
    }
    assert forall|i: int| 0 <= i < s.skip(k).len() - 1 implies !(#[trigger] s.skip(k)[i] == '_'
        && s.skip(k)[i + 1] == '_') by {
        assert(s.skip(k)[i] == s[i + k]);
        assert(s.skip(k)[i + 1] == s[i + k + 1]);
    }
    if s.skip(k).len() > 0 {
        assert(s.skip(k)[s.skip(k).len() - 1] == s[s.len() - 1]);
    }
}

/// Round-trip naming law: for an identifier of lowercase letters and
/// underscores with no leading or trailing underscore and no two
/// consecutive underscores, converting to camel-case and then inserting an
/// underscore before each uppercase letter (lowercasing it) recovers the
/// identifier exactly.
pub proof fn lemma_camel_round_trip(s: Seq<char>)
    requires
        forall|i: int| 0 <= i < s.len() ==> ('a' <= #[trigger] s[i] && s[i] <= 'z') || s[i] == '_',
        forall|i: int| 0 <= i < s.len() - 1 ==> !(#[trigger] s[i] == '_' && s[i + 1] == '_'),
        s.len() > 0 ==> s[0] != '_' && s[s.len() - 1] != '_',
    ensures
        spec_snake_of(spec_to_camel(s)) == s,
{
    lemma_snake_camel_rec(s);
}

} // verus!
