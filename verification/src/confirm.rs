//! Confirmation prompts: the question text and how an answer is read.

use vstd::prelude::*;

verus! {

use vstd::string::StringExecFns;
use crate::strutil::{lower_spec, str_eq, to_ascii_lower};

/// A whitespace character, as the standard trim sees it.
pub open spec fn is_ws_char(c: char) -> bool {
    let u = c as u32;
    (9 <= u && u <= 13) || u == 32 || u == 133 || u == 160 || u == 0x1680 || (0x2000 <= u && u
        <= 0x200A) || u == 0x2028 || u == 0x2029 || u == 0x202F || u == 0x205F || u == 0x3000
}

fn ws_char(c: char) -> (r: bool)
    ensures
        r == is_ws_char(c),
{
    let u = c as u32;
    (9 <= u && u <= 13) || u == 32 || u == 133 || u == 160 || u == 0x1680 || (0x2000 <= u && u
        <= 0x200A) || u == 0x2028 || u == 0x2029 || u == 0x202F || u == 0x205F || u == 0x3000
}

/// The string with leading and trailing whitespace removed.
pub open spec fn trim_spec(s: Seq<char>) -> Seq<char>
    decreases s.len(),
{
    if s.len() == 0 {
        s
    } else if is_ws_char(s.first()) {
        trim_spec(s.drop_first())
    } else if is_ws_char(s.last()) {
        trim_spec(s.drop_last())
    } else {
        s
    }
}

/// Removes leading and trailing whitespace.
pub fn trim(s: &str) -> (r: String)
    ensures
        r@ == trim_spec(s@),
{
    let v = crate::strutil::str_chars(s);
    let mut lo: usize = 0;
    let mut hi: usize = v.len();
    proof {
        assert(s@.subrange(0, v@.len() as int) =~= s@);
    }
    while lo < hi && ws_char(v[lo])
        invariant
            lo <= hi <= v@.len(),
            v@ == s@,
            trim_spec(s@) == trim_spec(s@.subrange(lo as int, hi as int)),
            hi == v@.len(),
        decreases hi - lo,
    {
        proof {
            let cur = s@.subrange(lo as int, hi as int);
            assert(cur.drop_first() =~= s@.subrange(lo as int + 1, hi as int));
        }
        lo = lo + 1;
    }
    while lo < hi && ws_char(v[hi - 1])
        invariant
            lo <= hi <= v@.len(),
            v@ == s@,
            trim_spec(s@) == trim_spec(s@.subrange(lo as int, hi as int)),
            lo < hi ==> !is_ws_char(s@[lo as int]),
        decreases hi,
    {
        proof {
            let cur = s@.subrange(lo as int, hi as int);
            assert(cur.first() == s@[lo as int]);
            assert(cur.drop_last() =~= s@.subrange(lo as int, hi as int - 1));
        }
        hi = hi - 1;
    }
    let mut kept: Vec<char> = Vec::new();
    let mut i = lo;
    while i < hi
        invariant
            lo <= i <= hi <= v@.len(),
            v@ == s@,
            kept@ == s@.subrange(lo as int, i as int),
        decreases hi - i,
    {
        kept.push(v[i]);
        i = i + 1;
        assert(kept@ =~= s@.subrange(lo as int, i as int));
    }
    proof {
        let cur = s@.subrange(lo as int, hi as int);
        if lo < hi {
            assert(!is_ws_char(cur.first()));
            assert(!is_ws_char(cur.last()));
        } else {
            assert(cur =~= Seq::<char>::empty());
        }
        assert(trim_spec(cur) == cur);
    }
    crate::strutil::chars_to_string(&kept)
}

/// A trimmed, case-folded answer that means yes: `y`, and also `yes`
/// where the prompt accepts the full word.
pub open spec fn affirmative_spec(input: Seq<char>, accept_word: bool) -> bool {
    let a = lower_spec(trim_spec(input));
    a == "y"@ || (accept_word && a == "yes"@)
}

/// Whether an answer line confirms the prompt.
pub fn is_affirmative(input: &str, accept_word: bool) -> (r: bool)
    ensures
        r == affirmative_spec(input@, accept_word),
{
    let t = trim(input);
    let a = to_ascii_lower(t.as_str());
    if str_eq(a.as_str(), "y") {
        true
    } else if accept_word {
        str_eq(a.as_str(), "yes")
    } else {
        false
    }
}

/// The per-entry removal question.
pub open spec fn removal_prompt_spec(path: Seq<char>, is_dir: bool) -> Seq<char> {
    "Remove "@ + (if is_dir {
        "directory"@
    } else {
        "file"@
    }) + " '"@ + path + "'? (y/N) "@
}

/// Builds the question asked before one entry is removed.
pub fn removal_prompt(path: &str, is_dir: bool) -> (r: String)
    ensures
        r@ == removal_prompt_spec(path@, is_dir),
{
    let mut s = "Remove ".to_owned();
    if is_dir {
        s.append("directory");
    } else {
        s.append("file");
    }
    s.append(" '");
    s.append(path);
    s.append("'? (y/N) ");
    proof {
        assert(s@ =~= removal_prompt_spec(path@, is_dir));
    }
    s
}

} // verus!
