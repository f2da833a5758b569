//! Filename arithmetic: decimal rendering of counters, stem/extension
//! splitting, and construction of auto-numbered names like `photo(2).jpg`.

use vstd::prelude::*;

verus! {

/// The character for a single decimal digit.
pub open spec fn digit_char(d: nat) -> char {
    if d == 0 {
        '0'
    } else if d == 1 {
        '1'
    } else if d == 2 {
        '2'
    } else if d == 3 {
        '3'
    } else if d == 4 {
        '4'
    } else if d == 5 {
        '5'
    } else if d == 6 {
        '6'
    } else if d == 7 {
        '7'
    } else if d == 8 {
        '8'
    } else {
        '9'
    }
}

/// Decimal representation of a natural number, most significant digit first,
/// with no leading zeros (`0` is rendered as `"0"`).
pub open spec fn dec_rep(n: nat) -> Seq<char>
    decreases n,
{
    if n < 10 {
        seq![digit_char(n)]
    } else {
        dec_rep(n / 10).push(digit_char(n % 10))
    }
}

fn digit_str(d: u64) -> (r: &'static str)
    requires
        d < 10,
    ensures
        r@ == seq![digit_char(d as nat)],
{
    proof {
        reveal_strlit("0");
        reveal_strlit("1");
        reveal_strlit("2");
        reveal_strlit("3");
        reveal_strlit("4");
        reveal_strlit("5");
        reveal_strlit("6");
        reveal_strlit("7");
        reveal_strlit("8");
        reveal_strlit("9");
    }
    let r: &'static str = if d == 0 {
        "0"
    } else if d == 1 {
        "1"
    } else if d == 2 {
        "2"
    } else if d == 3 {
        "3"
    } else if d == 4 {
        "4"
    } else if d == 5 {
        "5"
    } else if d == 6 {
        "6"
    } else if d == 7 {
        "7"
    } else if d == 8 {
        "8"
    } else {
        "9"
    };
    proof {
        assert(r@ =~= seq![digit_char(d as nat)]);
    }
    r
}

/// `i` is the position of the dot that separates stem from extension: a
/// final dot that is not the first character (a name consisting only of a
/// leading dot and no other dot has no extension).
pub open spec fn is_ext_dot(s: Seq<char>, i: int) -> bool {
    &&& 1 <= i < s.len()
    &&& s[i] == '.'
    &&& forall|j: int| i < j < s.len() ==> s[j] != '.'
}

/// Whether the name has an extension separator at all.
pub open spec fn has_ext_dot(s: Seq<char>) -> bool {
    exists|i: int| is_ext_dot(s, i)
}

/// The position of the extension separator, when there is one.
pub open spec fn ext_dot_index(s: Seq<char>) -> int {
    choose|i: int| is_ext_dot(s, i)
}

/// The filename without its final extension (the whole name when there is
/// no extension separator).
pub open spec fn stem_of(s: Seq<char>) -> Seq<char> {
    if has_ext_dot(s) {
        s.subrange(0, ext_dot_index(s))
    } else {
        s
    }
}

/// The extension after the final dot, without the dot (empty when there is
/// no extension separator).
pub open spec fn ext_of(s: Seq<char>) -> Seq<char> {
    if has_ext_dot(s) {
        s.subrange(ext_dot_index(s) + 1, s.len() as int)
    } else {
        Seq::empty()
    }
}

proof fn lemma_ext_dot_unique(s: Seq<char>, i: int)
    requires
        is_ext_dot(s, i),
    ensures
        has_ext_dot(s),
        ext_dot_index(s) == i,
{
    assert(has_ext_dot(s));
    let k = ext_dot_index(s);
    assert(is_ext_dot(s, k));
    if k < i {
        assert(s[i] == '.');
        assert(false);
    }
    if k > i {
        assert(s[k] == '.');
        assert(false);
    }
}

/// Splits a filename into stem and extension, Rust path semantics: the
/// split is at the last dot, except that a dot in the first position never
/// separates (so a bare leading-dot name is all stem), and a name without a
/// dot has an empty extension.
pub fn split_name(name: &String) -> (r: (String, String))
    ensures
        r.0@ == stem_of(name@),
        r.1@ == ext_of(name@),
{
    let ghost s = name@;
    let len = name.as_str().unicode_len();
    let mut i: usize = len;
    while i > 1
        invariant
            i <= len,
            len == s.len(),
            s == name@,
            forall|j: int| i <= j < s.len() ==> s[j] != '.',
        decreases i,
    {
        let c = name.as_str().get_char(i - 1);
        if c == '.' {
            proof {
                assert(is_ext_dot(s, i - 1));
                lemma_ext_dot_unique(s, i - 1);
            }
            let stem = name.as_str().substring_char(0, i - 1);
            let ext = name.as_str().substring_char(i, len);
            return (stem.to_owned(), ext.to_owned());
        }
        i = i - 1;
    }
    proof {
        assert(!has_ext_dot(s)) by {
            if has_ext_dot(s) {
                let k = ext_dot_index(s);
                assert(is_ext_dot(s, k));
                assert(false);
            }
        };
        assert(ext_of(s) =~= Seq::<char>::empty());
    }
    (name.clone(), String::new())
}

/// Law: stem and extension reconstruct the original filename exactly.
/// When the name has an extension separator the stem, the dot and the
/// extension concatenate back to the name; otherwise the name is all stem
/// and the extension is empty.
pub proof fn lemma_split_reconstructs(s: Seq<char>)
    ensures
        has_ext_dot(s) ==> stem_of(s) + seq!['.'] + ext_of(s) == s,
        !has_ext_dot(s) ==> stem_of(s) == s && ext_of(s) == Seq::<char>::empty(),
{
    if has_ext_dot(s) {
        let i = ext_dot_index(s);
        assert(is_ext_dot(s, i));
        assert(stem_of(s) + seq!['.'] + ext_of(s) =~= s);
    }
}

/// The auto-numbered candidate built from a stem, a counter and an
/// extension: `stem(i)` when the extension is empty, else `stem(i).ext`.
pub open spec fn numbered_spec(stem: Seq<char>, i: nat, ext: Seq<char>) -> Seq<char> {
    let base = stem + seq!['('] + dec_rep(i) + seq![')'];
    if ext.len() == 0 {
        base
    } else {
        base + seq!['.'] + ext
    }
}

/// Builds the auto-numbered candidate name.
pub fn numbered_name(stem: &String, i: u64, ext: &String) -> (r: String)
    ensures
        r@ == numbered_spec(stem@, i as nat, ext@),
{
    proof {
        reveal_strlit("(");
        reveal_strlit(")");
        reveal_strlit(".");
    }
    let mut r = stem.clone();
    r.append("(");
    let num = dec_string(i);
    r.append(num.as_str());
    r.append(")");
    if !ext.as_str().is_empty() {
        r.append(".");
        r.append(ext.as_str());
    }
    proof {
        assert(r@ =~= numbered_spec(stem@, i as nat, ext@));
    }
    r
}

/// Renders `n` in decimal.
pub fn dec_string(n: u64) -> (r: String)
    ensures
        r@ == dec_rep(n as nat),
    decreases n,
{
    let d = digit_str(n % 10);
    if n < 10 {
        let r = d.to_owned();
        proof {
            assert(r@ =~= dec_rep(n as nat));
        }
        r
    } else {
        let prefix = dec_string(n / 10);
        let r = prefix.concat(d);
        proof {
            assert(r@ =~= dec_rep(n as nat));
        }
        r
    }
}

} // verus!
