//! The per-filename transformation: regex substitution or case conversion.

use vstd::prelude::*;

verus! {

/// Whether `regex::Regex::new` accepts this pattern (with the default
/// builder configuration); a function of the pattern alone.
pub uninterp spec fn regex_valid(pattern: Seq<char>) -> bool;

/// What `regex::Regex::replace_all` returns for a valid pattern, a
/// replacement template and a haystack; a function of the three alone.
pub uninterp spec fn regex_replace(
    pattern: Seq<char>,
    replacement: Seq<char>,
    text: Seq<char>,
) -> Seq<char>;

/// What `str::to_lowercase` returns; a function of the characters alone.
pub uninterp spec fn lower_of(s: Seq<char>) -> Seq<char>;

/// What `str::to_uppercase` returns; a function of the characters alone.
pub uninterp spec fn upper_of(s: Seq<char>) -> Seq<char>;

/// What `char::to_uppercase` yields (as a sequence of characters); a
/// function of the character alone.
pub uninterp spec fn char_upper(c: char) -> Seq<char>;

/// Relies on `regex::Regex::new`: compiling a pattern with the default
/// configuration succeeds or fails deterministically in the pattern alone.
#[verifier::external_body]
fn pattern_compiles(pattern: &str) -> (r: bool)
    ensures
        r == regex_valid(pattern@),
{
    regex::Regex::new(pattern).is_ok()
}

/// Relies on `regex::Regex::new` (succeeds exactly on valid patterns, see
/// `pattern_compiles`) and `regex::Regex::replace_all`: replacing every
/// non-overlapping match is a function of the pattern, the replacement
/// template and the haystack alone.
#[verifier::external_body]
fn replace_all(pattern: &str, replacement: &str, text: &str) -> (r: Option<String>)
    ensures
        r is Some <==> regex_valid(pattern@),
        r matches Some(t) ==> t@ == regex_replace(pattern@, replacement@, text@),
{
    match regex::Regex::new(pattern) {
        Ok(re) => Some(re.replace_all(text, replacement).into_owned()),
        Err(_) => None,
    }
}

/// Relies on `str::to_lowercase`: the lowercase equivalent is a function of
/// the characters alone, and locale-independent.
#[verifier::external_body]
fn to_lower(s: &str) -> (r: String)
    ensures
        r@ == lower_of(s@),
{
    s.to_lowercase()
}

/// Relies on `str::to_uppercase`: the uppercase equivalent is a function of
/// the characters alone, and locale-independent.
#[verifier::external_body]
fn to_upper(s: &str) -> (r: String)
    ensures
        r@ == upper_of(s@),
{
    s.to_uppercase()
}

/// Relies on `char::to_uppercase`: the uppercase mapping (possibly several
/// characters) is a function of the character alone, and locale-independent.
#[verifier::external_body]
fn char_to_upper(c: char) -> (r: String)
    ensures
        r@ == char_upper(c),
{
    c.to_uppercase().collect()
}

/// How a new filename is derived from an old one.
pub enum RenameMode {
    /// Replace every non-overlapping match of the pattern (first field) with
    /// the replacement template (second field, may reference capture groups).
    Regex(String, String),
    Lowercase,
    Uppercase,
    Capitalize,
}

impl RenameMode {
    /// A mode is well formed when its pattern (if any) compiles.
    pub open spec fn wf(&self) -> bool {
        self matches RenameMode::Regex(p, _) ==> regex_valid(p@)
    }
}

/// The new filename a mode derives from `name`.
pub open spec fn transform_spec(mode: RenameMode, name: Seq<char>) -> Seq<char> {
    match mode {
        RenameMode::Regex(p, r) => regex_replace(p@, r@, name),
        RenameMode::Lowercase => lower_of(name),
        RenameMode::Uppercase => upper_of(name),
        RenameMode::Capitalize => {
            if name.len() == 0 {
                Seq::empty()
            } else {
                char_upper(name[0]) + lower_of(name.subrange(1, name.len() as int))
            }
        },
    }
}

/// `name` is a fixed point of the mode's transform: the derived name is
/// the name itself.
pub open spec fn is_fixed_point(mode: RenameMode, name: Seq<char>) -> bool {
    transform_spec(mode, name) == name
}

/// Whether a mode is well formed, decided at run time.
pub fn mode_ok(mode: &RenameMode) -> (r: bool)
    ensures
        r == mode.wf(),
{
    match mode {
        RenameMode::Regex(p, _) => pattern_compiles(p.as_str()),
        _ => true,
    }
}

/// Derives the new filename for `name` under `mode`.
///
/// Deterministic and side-effect free; for the `Capitalize` mode the first
/// character of the full name as given is upper-cased (even when the name is
/// all extension, such as a leading-dot name) and the rest is lower-cased.
pub fn transform(name: &String, mode: &RenameMode) -> (r: String)
    requires
        mode.wf(),
    ensures
        r@ == transform_spec(*mode, name@),
{
    match mode {
        RenameMode::Regex(p, repl) => {
            let t = replace_all(p.as_str(), repl.as_str(), name.as_str());
            t.unwrap()
        },
        RenameMode::Lowercase => to_lower(name.as_str()),
        RenameMode::Uppercase => to_upper(name.as_str()),
        RenameMode::Capitalize => {
            let len = name.as_str().unicode_len();
            if len == 0 {
                String::new()
            } else {
                let c = name.as_str().get_char(0);
                let rest = name.as_str().substring_char(1, len);
                let first_upper = char_to_upper(c);
                let lowered = to_lower(rest);
                let r = first_upper.concat(lowered.as_str());
                proof {
                    assert(r@ =~= transform_spec(*mode, name@));
                }
                r
            }
        },
    }
}

/// Derives the new filename for `name` under `mode`, checking the mode
/// first: `None` exactly when the mode's pattern does not compile.
pub fn transform_checked(name: &String, mode: &RenameMode) -> (r: Option<String>)
    ensures
        r is Some <==> mode.wf(),
        r matches Some(t) ==> t@ == transform_spec(*mode, name@),
{
    if mode_ok(mode) {
        Some(transform(name, mode))
    } else {
        None
    }
}

} // verus!
