//! Text rules shared by the panels: trimming what the user typed, deciding
//! whether a rename was really asked for, and shortening long labels.

use vstd::prelude::*;

verus! {

/// Characters with the Unicode `White_Space` property.
pub open spec fn is_white_space(c: char) -> bool {
    let u = c as u32;
    ||| 0x09 <= u <= 0x0D
    ||| u == 0x20
    ||| u == 0x85
    ||| u == 0xA0
    ||| u == 0x1680
    ||| 0x2000 <= u <= 0x200A
    ||| u == 0x2028
    ||| u == 0x2029
    ||| u == 0x202F
    ||| u == 0x205F
    ||| u == 0x3000
}

/// `s` without its leading and trailing white space.
pub open spec fn spec_trim(s: Seq<char>) -> Seq<char>
    decreases s.len(),
{
    if s.len() == 0 {
        s
    } else if is_white_space(s[0]) {
        spec_trim(s.drop_first())
    } else if is_white_space(s.last()) {
        spec_trim(s.drop_last())
    } else {
        s
    }
}

/// Trimming keeps a run `s[i..j]` of `s` (the result gives `i` and `j`) and
/// drops only white space around it: every dropped character is white
/// space, and a non-empty result starts and ends with a character that is
/// not.
pub proof fn lemma_trim_rules(s: Seq<char>) -> (ij: (int, int))
    ensures
        0 <= ij.0 <= ij.1 <= s.len(),
        s.subrange(ij.0, ij.1) == spec_trim(s),
        forall|k: int| 0 <= k < ij.0 ==> is_white_space(#[trigger] s[k]),
        forall|k: int| ij.1 <= k < s.len() ==> is_white_space(#[trigger] s[k]),
        ij.0 < ij.1 ==> !is_white_space(s[ij.0]) && !is_white_space(s[ij.1 - 1]),
    decreases s.len(),
{
    if s.len() == 0 {
        assert(s.subrange(0, 0) =~= spec_trim(s));
        (0, 0)
    } else if is_white_space(s[0]) {
        let t = s.drop_first();
        let (i, j) = lemma_trim_rules(t);
        assert(s.subrange(i + 1, j + 1) =~= t.subrange(i, j));
        assert forall|k: int| 0 <= k < i + 1 implies is_white_space(#[trigger] s[k]) by {
            if k > 0 {
                assert(s[k] == t[k - 1]);
            }
        }
        assert forall|k: int| j + 1 <= k < s.len() implies is_white_space(#[trigger] s[k]) by {
            assert(s[k] == t[k - 1]);
        }
        if i < j {
            assert(s[i + 1] == t[i]);
            assert(s[j] == t[j - 1]);
        }
        (i + 1, j + 1)
    } else if is_white_space(s.last()) {
        let t = s.drop_last();
        let (i, j) = lemma_trim_rules(t);
        assert(s.subrange(i, j) =~= t.subrange(i, j));
        assert forall|k: int| 0 <= k < i implies is_white_space(#[trigger] s[k]) by {
            assert(s[k] == t[k]);
        }
        assert forall|k: int| j <= k < s.len() implies is_white_space(#[trigger] s[k]) by {
            if k < t.len() {
                assert(s[k] == t[k]);
            }
        }
        if i < j {
            assert(s[i] == t[i]);
            assert(s[j - 1] == t[j - 1]);
        }
        (i, j)
    } else {
        assert(s.subrange(0, s.len() as int) =~= s);
        (0, s.len() as int)
    }
}

/// Whether `c` has the Unicode `White_Space` property.
fn white_space(c: char) -> (b: bool)
    ensures
        b == is_white_space(c),
{
    let u = c as u32;
    (0x09 <= u && u <= 0x0D) || u == 0x20 || u == 0x85 || u == 0xA0 || u == 0x1680 || (0x2000
        <= u && u <= 0x200A) || u == 0x2028 || u == 0x2029 || u == 0x202F || u == 0x205F || u
        == 0x3000
}

/// `s` without its leading and trailing white space (see `spec_trim`), as
/// the slice of `s` that remains.
pub fn trim(s: &str) -> (t: &str)
    ensures
        t@ == spec_trim(s@),
{
    let n = s.unicode_len();
    let mut start: usize = 0;
    proof {
        assert(s@.subrange(0, n as int) =~= s@);
    }
    while start < n && white_space(s.get_char(start))
        invariant
            n == s@.len(),
            start <= n,
            spec_trim(s@) == spec_trim(s@.subrange(start as int, n as int)),
        decreases n - start,
    {
        proof {
            let sub = s@.subrange(start as int, n as int);
            assert(sub[0] == s@[start as int]);
            assert(sub.drop_first() =~= s@.subrange(start + 1, n as int));
        }
        start += 1;
    }
    let mut end: usize = n;
    while end > start && white_space(s.get_char(end - 1))
        invariant
            n == s@.len(),
            start <= end <= n,
            start < n ==> !is_white_space(s@[start as int]),
            spec_trim(s@) == spec_trim(s@.subrange(start as int, end as int)),
        decreases end - start,
    {
        proof {
            let sub = s@.subrange(start as int, end as int);
            assert(sub[0] == s@[start as int]);
            assert(sub.last() == s@[end - 1]);
            assert(end - 1 > start);
            assert(sub.drop_last() =~= s@.subrange(start as int, end - 1));
        }
        end -= 1;
    }
    proof {
        let sub = s@.subrange(start as int, end as int);
        if end > start {
            assert(sub[0] == s@[start as int]);
            assert(sub.last() == s@[end - 1]);
        }
    }
    s.substring_char(start, end)
}

/// The new base name a rename field asks for: what was typed, trimmed, if
/// that is neither empty nor the current base name. `None` means nothing is
/// to be renamed.
#[verifier::opaque]
pub open spec fn spec_rename_target(typed: Seq<char>, original: Seq<char>) -> Option<Seq<char>> {
    let t = spec_trim(typed);
    if t.len() > 0 && t != original {
        Some(t)
    } else {
        None
    }
}

/// A rename asks for the trimmed text, never for an empty name nor for the
/// current one; any other trimmed text is asked for.
pub proof fn lemma_rename_target_rules(typed: Seq<char>, original: Seq<char>)
    ensures
        spec_rename_target(typed, original) matches Some(t) ==> t == spec_trim(typed) && t.len() > 0
            && t != original,
        spec_rename_target(typed, original) is None <==> (spec_trim(typed).len() == 0 || spec_trim(
            typed,
        ) == original),
{
    reveal(spec_rename_target);
}

/// Decides what a rename field that lost focus asks for (see
/// `spec_rename_target`).
pub fn rename_target(typed: &str, original: &str) -> (target: Option<String>)
    ensures
        target matches Some(t) ==> spec_rename_target(typed@, original@) == Some(t@),
        target is None ==> spec_rename_target(typed@, original@) is None,
{
    proof {
        reveal(spec_rename_target);
    }
    let t = trim(typed);
    let n = t.unicode_len();
    if n == 0 {
        return None;
    }
    let candidate = String::from_str(t);
    let orig = String::from_str(original);
    if candidate == orig {
        None
    } else {
        Some(candidate)
    }
}

/// `s` shortened for display to `max` characters: a longer one keeps its
/// first `max - 1` characters (none when `max` is 0) followed by an ellipsis.
pub open spec fn spec_truncated(s: Seq<char>, max: nat) -> Seq<char> {
    if s.len() > max {
        s.take(if max == 0 { 0 } else { max - 1 }) + seq!['…']
    } else {
        s
    }
}

/// Shortens a label for display (see `spec_truncated`); the result has at
/// most `max` characters, or just the ellipsis when `max` is 0.
pub fn truncate_label(s: &str, max: usize) -> (label: String)
    ensures
        label@ == spec_truncated(s@, max as nat),
        label@.len() <= if max == 0 { 1 } else { max as int },
{
    let n = s.unicode_len();
    if n > max {
        let keep = if max == 0 { 0 } else { max - 1 };
        let head = s.substring_char(0, keep);
        let mut label = String::from_str(head);
        label.append("…");
        proof {
            reveal_strlit("…");
            assert(label@ =~= s@.take(keep as int) + seq!['…']);
        }
        label
    } else {
        String::from_str(s)
    }
}

/// What a replace-from-URL field offers: the trimmed address, when it is not
/// empty (the replace button is disabled otherwise).
pub fn url_to_replace(url: &str) -> (target: Option<String>)
    ensures
        target matches Some(t) ==> t@ == spec_trim(url@) && t@.len() > 0,
        target is None <==> spec_trim(url@).len() == 0,
{
    let t = trim(url);
    if t.unicode_len() == 0 {
        None
    } else {
        Some(String::from_str(t))
    }
}

} // verus!
