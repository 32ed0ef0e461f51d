//! The order of the gallery grid: by name in natural order, or newest first
//! by modification time (files without a time last, ties by name). In
//! natural order a run of digits compares as the number it spells ("img2"
//! before "img10"); other characters compare one by one, by code point; a
//! name that is a prefix of another comes first.

use vstd::prelude::*;
use vstd::multiset::Multiset;
use vstd::relations::sorted_by;
use crate::gallery::{GalleryItem, GallerySort};

verus! {

broadcast use {vstd::multiset::group_multiset_axioms, vstd::seq_lib::group_to_multiset_ensures};

/// `a` comes no later than `b` character by character, by code point (a
/// prefix first).
pub open spec fn name_le(a: Seq<char>, b: Seq<char>) -> bool
    decreases a.len(),
{
    if a.len() == 0 {
        true
    } else if b.len() == 0 {
        false
    } else if a[0] != b[0] {
        (a[0] as int) < (b[0] as int)
    } else {
        name_le(a.drop_first(), b.drop_first())
    }
}

/// Every character sequence comes no later than itself.
pub proof fn lemma_name_le_reflexive(a: Seq<char>)
    ensures
        name_le(a, a),
    decreases a.len(),
{
    if a.len() > 0 {
        lemma_name_le_reflexive(a.drop_first());
    }
}

/// Any two character sequences are ordered one way or the other.
pub proof fn lemma_name_le_total(a: Seq<char>, b: Seq<char>)
    ensures
        name_le(a, b) || name_le(b, a),
    decreases a.len(),
{
    if a.len() > 0 && b.len() > 0 {
        if a[0] == b[0] {
            lemma_name_le_total(a.drop_first(), b.drop_first());
        } else {
            assert(a[0] as int != b[0] as int);
        }
    }
}

/// Character order is transitive.
pub proof fn lemma_name_le_transitive(a: Seq<char>, b: Seq<char>, c: Seq<char>)
    requires
        name_le(a, b),
        name_le(b, c),
    ensures
        name_le(a, c),
    decreases a.len(),
{
    if a.len() > 0 && b.len() > 0 && c.len() > 0 && a[0] == b[0] && b[0] == c[0] {
        lemma_name_le_transitive(a.drop_first(), b.drop_first(), c.drop_first());
    }
}

/// Two character sequences in the same order both ways are equal.
pub proof fn lemma_name_le_antisymmetric(a: Seq<char>, b: Seq<char>)
    requires
        name_le(a, b),
        name_le(b, a),
    ensures
        a == b,
    decreases a.len(),
{
    if a.len() > 0 && b.len() > 0 {
        if a[0] == b[0] {
            lemma_name_le_antisymmetric(a.drop_first(), b.drop_first());
            assert(a =~= seq![a[0]] + a.drop_first());
            assert(b =~= seq![b[0]] + b.drop_first());
        } else {
            assert(a[0] as int != b[0] as int);
        }
    } else {
        assert(a.len() == 0 && b.len() == 0);
        assert(a =~= b);
    }
}

/// An ASCII decimal digit.
pub open spec fn is_digit(c: char) -> bool {
    48 <= (c as int) <= 57
}

/// Length of the run of digits that `s` starts with.
pub open spec fn digit_run(s: Seq<char>) -> nat
    decreases s.len(),
{
    if s.len() > 0 && is_digit(s[0]) {
        1 + digit_run(s.drop_first())
    } else {
        0
    }
}

pub proof fn lemma_digit_run_bounds(s: Seq<char>)
    ensures
        digit_run(s) <= s.len(),
        s.len() > 0 && is_digit(s[0]) ==> digit_run(s) >= 1,
    decreases s.len(),
{
    if s.len() > 0 && is_digit(s[0]) {
        lemma_digit_run_bounds(s.drop_first());
    }
}

/// A run of digits without its leading zeros.
pub open spec fn strip_zeros(s: Seq<char>) -> Seq<char>
    decreases s.len(),
{
    if s.len() > 0 && s[0] == '0' {
        strip_zeros(s.drop_first())
    } else {
        s
    }
}

/// The number spelled by the digits `x` is smaller than the one spelled by
/// `y`: fewer significant digits, or as many and smaller digit by digit.
pub open spec fn number_lt(x: Seq<char>, y: Seq<char>) -> bool {
    let sx = strip_zeros(x);
    let sy = strip_zeros(y);
    sx.len() < sy.len() || (sx.len() == sy.len() && sx != sy && name_le(sx, sy))
}

proof fn lemma_number_lt_transitive(x: Seq<char>, y: Seq<char>, z: Seq<char>)
    requires
        number_lt(x, y),
        number_lt(y, z),
    ensures
        number_lt(x, z),
{
    let (sx, sy, sz) = (strip_zeros(x), strip_zeros(y), strip_zeros(z));
    if sx.len() == sy.len() && sy.len() == sz.len() {
        lemma_name_le_transitive(sx, sy, sz);
        if sx == sz {
            lemma_name_le_antisymmetric(sx, sy);
        }
    }
}

/// Neither number is smaller: they are the same number.
proof fn lemma_number_same(x: Seq<char>, y: Seq<char>)
    requires
        !number_lt(x, y),
        !number_lt(y, x),
    ensures
        strip_zeros(x) == strip_zeros(y),
{
    lemma_name_le_total(strip_zeros(x), strip_zeros(y));
}

/// `a` comes no later than `b` in natural name order.
pub open spec fn natural_le(a: Seq<char>, b: Seq<char>) -> bool
    decreases a.len() + b.len(),
{
    if a.len() == 0 {
        true
    } else if b.len() == 0 {
        false
    } else if is_digit(a[0]) && is_digit(b[0]) {
        let la = digit_run(a);
        let lb = digit_run(b);
        if number_lt(a.take(la as int), b.take(lb as int)) {
            true
        } else if number_lt(b.take(lb as int), a.take(la as int)) {
            false
        } else {
            proof {
                lemma_digit_run_bounds(a);
                lemma_digit_run_bounds(b);
            }
            natural_le(a.skip(la as int), b.skip(lb as int))
        }
    } else if a[0] != b[0] {
        (a[0] as int) < (b[0] as int)
    } else {
        natural_le(a.drop_first(), b.drop_first())
    }
}

/// Any two names are in natural order one way or the other.
pub proof fn lemma_natural_le_total(a: Seq<char>, b: Seq<char>)
    ensures
        natural_le(a, b) || natural_le(b, a),
    decreases a.len() + b.len(),
{
    if a.len() > 0 && b.len() > 0 {
        if is_digit(a[0]) && is_digit(b[0]) {
            let la = digit_run(a);
            let lb = digit_run(b);
            lemma_digit_run_bounds(a);
            lemma_digit_run_bounds(b);
            if !number_lt(a.take(la as int), b.take(lb as int)) && !number_lt(
                b.take(lb as int),
                a.take(la as int),
            ) {
                lemma_natural_le_total(a.skip(la as int), b.skip(lb as int));
            }
        } else if a[0] == b[0] {
            lemma_natural_le_total(a.drop_first(), b.drop_first());
        } else {
            assert(a[0] as int != b[0] as int);
        }
    }
}

/// Natural name order is transitive.
pub proof fn lemma_natural_le_transitive(a: Seq<char>, b: Seq<char>, c: Seq<char>)
    requires
        natural_le(a, b),
        natural_le(b, c),
    ensures
        natural_le(a, c),
    decreases a.len() + b.len() + c.len(),
{
    if a.len() == 0 || b.len() == 0 || c.len() == 0 {
        return;
    }
    let (da, db, dc) = (is_digit(a[0]), is_digit(b[0]), is_digit(c[0]));
    if da && db && dc {
        let (la, lb, lc) = (digit_run(a), digit_run(b), digit_run(c));
        lemma_digit_run_bounds(a);
        lemma_digit_run_bounds(b);
        lemma_digit_run_bounds(c);
        let (ra, rb, rc) = (a.take(la as int), b.take(lb as int), c.take(lc as int));
        if number_lt(ra, rb) && number_lt(rb, rc) {
            lemma_number_lt_transitive(ra, rb, rc);
        } else if number_lt(ra, rb) {
            lemma_number_same(rb, rc);
        } else if number_lt(rb, rc) {
            lemma_number_same(ra, rb);
        } else {
            lemma_number_same(ra, rb);
            lemma_number_same(rb, rc);
            lemma_natural_le_transitive(a.skip(la as int), b.skip(lb as int), c.skip(lc as int));
        }
    } else if !da && !db && !dc && a[0] == b[0] && b[0] == c[0] {
        lemma_natural_le_transitive(a.drop_first(), b.drop_first(), c.drop_first());
    }
}

/// `a` comes no later than `b` in the gallery order `sort`. Date order puts
/// the newest first and items without a time last; equal times, and the
/// name and manual orders, go by name.
pub open spec fn item_le<T>(sort: GallerySort, a: GalleryItem<T>, b: GalleryItem<T>) -> bool {
    match sort {
        GallerySort::DateModified => match (a.mtime, b.mtime) {
            (Some(x), Some(y)) => x > y || (x == y && natural_le(a.name@, b.name@)),
            (Some(_), None) => true,
            (None, Some(_)) => false,
            (None, None) => natural_le(a.name@, b.name@),
        },
        _ => natural_le(a.name@, b.name@),
    }
}

/// The gallery order `sort` as a relation.
pub open spec fn item_order<T>(sort: GallerySort) -> spec_fn(GalleryItem<T>, GalleryItem<T>) -> bool {
    |a: GalleryItem<T>, b: GalleryItem<T>| item_le(sort, a, b)
}

/// Any two items are ordered one way or the other.
pub proof fn lemma_item_le_total<T>(sort: GallerySort, a: GalleryItem<T>, b: GalleryItem<T>)
    ensures
        item_le(sort, a, b) || item_le(sort, b, a),
{
    lemma_natural_le_total(a.name@, b.name@);
}

/// The gallery order is transitive.
pub proof fn lemma_item_le_transitive<T>(
    sort: GallerySort,
    a: GalleryItem<T>,
    b: GalleryItem<T>,
    c: GalleryItem<T>,
)
    requires
        item_le(sort, a, b),
        item_le(sort, b, c),
    ensures
        item_le(sort, a, c),
{
    if natural_le(a.name@, b.name@) && natural_le(b.name@, c.name@) {
        lemma_natural_le_transitive(a.name@, b.name@, c.name@);
    }
}

/// Compares two character sequences (see `name_le`).
pub fn name_le_exec(a: &str, b: &str) -> (r: bool)
    ensures
        r == name_le(a@, b@),
{
    let na = a.unicode_len();
    let nb = b.unicode_len();
    let mut i: usize = 0;
    proof {
        assert(a@.skip(0) =~= a@);
        assert(b@.skip(0) =~= b@);
    }
    while i < na && i < nb
        invariant
            na == a@.len(),
            nb == b@.len(),
            i <= na,
            i <= nb,
            name_le(a@, b@) == name_le(a@.skip(i as int), b@.skip(i as int)),
        decreases na - i,
    {
        let ca = a.get_char(i);
        let cb = b.get_char(i);
        proof {
            assert(a@.skip(i as int)[0] == ca);
            assert(b@.skip(i as int)[0] == cb);
            assert(a@.skip(i as int).drop_first() =~= a@.skip(i + 1));
            assert(b@.skip(i as int).drop_first() =~= b@.skip(i + 1));
        }
        if ca != cb {
            return ca < cb;
        }
        i += 1;
    }
    i == na
}

fn digit(c: char) -> (b: bool)
    ensures
        b == is_digit(c),
{
    '0' <= c && c <= '9'
}

/// End of the run of digits of `s` that starts at `from`.
fn digit_run_end(s: &str, from: usize, n: usize) -> (e: usize)
    requires
        n == s@.len(),
        from <= n,
    ensures
        from <= e <= n,
        e - from == digit_run(s@.skip(from as int)),
{
    let mut k = from;
    while k < n && digit(s.get_char(k))
        invariant
            n == s@.len(),
            from <= k <= n,
            digit_run(s@.skip(from as int)) == (k - from) + digit_run(s@.skip(k as int)),
        decreases n - k,
    {
        proof {
            assert(s@.skip(k as int)[0] == s@[k as int]);
            assert(s@.skip(k as int).drop_first() =~= s@.skip(k + 1));
        }
        k += 1;
    }
    proof {
        if k < n {
            assert(s@.skip(k as int)[0] == s@[k as int]);
        } else {
            assert(s@.skip(k as int).len() == 0);
        }
    }
    k
}

/// First position in `from..to` of `s` after the leading zeros.
fn skip_zeros(s: &str, from: usize, to: usize) -> (z: usize)
    requires
        from <= to <= s@.len(),
    ensures
        from <= z <= to,
        strip_zeros(s@.subrange(from as int, to as int)) == s@.subrange(z as int, to as int),
{
    let mut z = from;
    while z < to && s.get_char(z) == '0'
        invariant
            from <= z <= to <= s@.len(),
            strip_zeros(s@.subrange(from as int, to as int)) == strip_zeros(
                s@.subrange(z as int, to as int),
            ),
        decreases to - z,
    {
        proof {
            let sub = s@.subrange(z as int, to as int);
            assert(sub[0] == s@[z as int]);
            assert(sub.drop_first() =~= s@.subrange(z + 1, to as int));
        }
        z += 1;
    }
    proof {
        let sub = s@.subrange(z as int, to as int);
        if z < to {
            assert(sub[0] == s@[z as int]);
        }
    }
    z
}

/// Compares the numbers spelled by the digits `a[i..ea]` and `b[j..eb]`:
/// negative when the first is smaller, positive when it is larger, zero
/// when they are the same number.
fn number_order(a: &str, i: usize, ea: usize, b: &str, j: usize, eb: usize) -> (r: i8)
    requires
        i <= ea <= a@.len(),
        j <= eb <= b@.len(),
    ensures
        (r < 0) == number_lt(a@.subrange(i as int, ea as int), b@.subrange(j as int, eb as int)),
        (r > 0) == number_lt(b@.subrange(j as int, eb as int), a@.subrange(i as int, ea as int)),
{
    let za = skip_zeros(a, i, ea);
    let zb = skip_zeros(b, j, eb);
    let ghost x = a@.subrange(i as int, ea as int);
    let ghost y = b@.subrange(j as int, eb as int);
    if ea - za < eb - zb {
        return -1;
    }
    if ea - za > eb - zb {
        return 1;
    }
    let sa = a.substring_char(za, ea);
    let sb = b.substring_char(zb, eb);
    let le_ab = name_le_exec(sa, sb);
    let le_ba = name_le_exec(sb, sa);
    proof {
        if le_ab && le_ba {
            lemma_name_le_antisymmetric(sa@, sb@);
        }
        if !le_ab && !le_ba {
            lemma_name_le_total(sa@, sb@);
        }
        if sa@ == sb@ {
            lemma_name_le_reflexive(sa@);
        }
    }
    if le_ab && !le_ba {
        -1
    } else if le_ba && !le_ab {
        1
    } else {
        0
    }
}

/// Compares two names in natural order (see `natural_le`).
pub fn natural_le_exec(a: &str, b: &str) -> (r: bool)
    ensures
        r == natural_le(a@, b@),
{
    let na = a.unicode_len();
    let nb = b.unicode_len();
    let mut i: usize = 0;
    let mut j: usize = 0;
    proof {
        assert(a@.skip(0) =~= a@);
        assert(b@.skip(0) =~= b@);
    }
    loop
        invariant
            na == a@.len(),
            nb == b@.len(),
            i <= na,
            j <= nb,
            natural_le(a@, b@) == natural_le(a@.skip(i as int), b@.skip(j as int)),
        decreases (na - i) + (nb - j),
    {
        let ghost sa = a@.skip(i as int);
        let ghost sb = b@.skip(j as int);
        if i == na {
            return true;
        }
        if j == nb {
            return false;
        }
        let ca = a.get_char(i);
        let cb = b.get_char(j);
        proof {
            assert(sa[0] == ca);
            assert(sb[0] == cb);
        }
        if digit(ca) && digit(cb) {
            let ea = digit_run_end(a, i, na);
            let eb = digit_run_end(b, j, nb);
            let r = number_order(a, i, ea, b, j, eb);
            proof {
                lemma_digit_run_bounds(sa);
                lemma_digit_run_bounds(sb);
                assert(sa.take((ea - i) as int) =~= a@.subrange(i as int, ea as int));
                assert(sb.take((eb - j) as int) =~= b@.subrange(j as int, eb as int));
                assert(sa.skip((ea - i) as int) =~= a@.skip(ea as int));
                assert(sb.skip((eb - j) as int) =~= b@.skip(eb as int));
            }
            if r < 0 {
                return true;
            }
            if r > 0 {
                return false;
            }
            i = ea;
            j = eb;
        } else if ca != cb {
            return ca < cb;
        } else {
            proof {
                assert(sa.drop_first() =~= a@.skip(i + 1));
                assert(sb.drop_first() =~= b@.skip(j + 1));
            }
            i += 1;
            j += 1;
        }
    }
}

/// Compares two items in the gallery order `sort` (see `item_le`).
pub fn item_le_exec<T>(sort: GallerySort, a: &GalleryItem<T>, b: &GalleryItem<T>) -> (r: bool)
    ensures
        r == item_le(sort, *a, *b),
{
    match sort {
        GallerySort::DateModified => match (a.mtime, b.mtime) {
            (Some(x), Some(y)) => x > y || (x == y && natural_le_exec(a.name.as_str(), b.name.as_str())),
            (Some(_), None) => true,
            (None, Some(_)) => false,
            (None, None) => natural_le_exec(a.name.as_str(), b.name.as_str()),
        },
        _ => natural_le_exec(a.name.as_str(), b.name.as_str()),
    }
}

/// Items that are tied in the order `sort` (each no later than the other)
/// keep in `after` the relative order they had in `before`.
pub open spec fn keeps_ties_in_order<T>(
    before: Seq<GalleryItem<T>>,
    after: Seq<GalleryItem<T>>,
    sort: GallerySort,
) -> bool {
    forall|i: int, j: int|
        0 <= i < j < after.len() && #[trigger] item_le(sort, after[j], after[i]) ==> exists|
            p: int,
            q: int,
        |
            0 <= p < q < before.len() && #[trigger] before[p] == after[i] && #[trigger] before[q]
                == after[j]
}

/// `items` put in the gallery order `sort`: the same items, each one no
/// later than every item after it, tied items in their previous order.
pub fn sort_items<T>(items: Vec<GalleryItem<T>>, sort: GallerySort) -> (r: Vec<GalleryItem<T>>)
    ensures
        r@.to_multiset() == items@.to_multiset(),
        r@.len() == items@.len(),
        sorted_by(r@, item_order::<T>(sort)),
        keeps_ties_in_order(items@, r@, sort),
{
    let ghost input = items@;
    let ghost all = items@.to_multiset();
    let ghost mut origin: Seq<int> = Seq::empty();
    let mut rest = items;
    let mut out: Vec<GalleryItem<T>> = Vec::new();
    proof {
        assert(out@ =~= Seq::<GalleryItem<T>>::empty());
        assert(out@.to_multiset() =~= Multiset::empty());
        assert(out@.to_multiset().add(rest@.to_multiset()) =~= all);
        assert(rest@ =~= input.subrange(0, input.len() as int));
    }
    while rest.len() > 0
        invariant
            out@.to_multiset().add(rest@.to_multiset()) == all,
            sorted_by(out@, item_order::<T>(sort)),
            out@.len() + rest@.len() == input.len(),
            rest@ == input.subrange(out@.len() as int, input.len() as int),
            origin.len() == out@.len(),
            forall|k: int|
                0 <= k < out@.len() ==> 0 <= #[trigger] origin[k] < out@.len() && out@[k]
                    == input[origin[k]],
            forall|k: int, l: int|
                0 <= k < l < out@.len() && #[trigger] item_le(sort, out@[l], out@[k]) ==> origin[k]
                    < origin[l],
        decreases rest.len(),
    {
        let ghost rest0 = rest@;
        let ghost d = out@.len() as int;
        let x = rest.remove(0);
        proof {
            vstd::seq_lib::to_multiset_remove(rest0, 0);
            assert(rest0.remove(0) =~= rest@);
            assert(rest0.to_multiset().count(x) > 0) by {
                vstd::seq_lib::to_multiset_contains(rest0, x);
                assert(rest0.contains(x)) by {
                    assert(rest0[0] == x);
                }
            }
            assert(x == input[d]);
            assert(rest@ =~= input.subrange(d + 1, input.len() as int));
        }
        let n = out.len();
        let mut p: usize = 0;
        while p < n && item_le_exec(sort, &out[p], &x)
            invariant
                n == out@.len(),
                p <= n,
                forall|k: int| 0 <= k < p ==> #[trigger] item_le(sort, out@[k], x),
            decreases n - p,
        {
            p += 1;
        }
        let ghost out0 = out@;
        let ghost origin0 = origin;
        proof {
            assert(p < n ==> !item_le(sort, out0[p as int], x));
        }
        out.insert(p, x);
        proof {
            origin = origin0.insert(p as int, d);
            vstd::seq_lib::to_multiset_insert(out0, p as int, x);
            assert(out@ =~= out0.insert(p as int, x));
            assert(out@.to_multiset().add(rest@.to_multiset()) =~= all);
            assert forall|i: int, j: int| 0 <= i < j < out@.len() implies #[trigger] item_order::<T>(
                sort,
            )(out@[i], out@[j]) by {
                if j < p {
                    assert(item_order::<T>(sort)(out0[i], out0[j]));
                } else if j == p {
                    assert(item_le(sort, out0[i], x));
                } else if i < p {
                    assert(item_order::<T>(sort)(out0[i], out0[j - 1]));
                } else if i == p {
                    assert(p < n);
                    lemma_item_le_total(sort, out0[p as int], x);
                    if j - 1 > p {
                        assert(item_order::<T>(sort)(out0[p as int], out0[j - 1]));
                        lemma_item_le_transitive(sort, x, out0[p as int], out0[j - 1]);
                    }
                } else {
                    assert(item_order::<T>(sort)(out0[i - 1], out0[j - 1]));
                }
            }
            assert forall|k: int| 0 <= k < out@.len() implies 0 <= #[trigger] origin[k]
                < out@.len() && out@[k] == input[origin[k]] by {
                if k < p {
                    assert(origin[k] == origin0[k]);
                } else if k > p {
                    assert(origin[k] == origin0[k - 1]);
                }
            }
            assert forall|k: int, l: int|
                0 <= k < l < out@.len() && #[trigger] item_le(
                    sort,
                    out@[l],
                    out@[k],
                ) implies origin[k] < origin[l] by {
                if l < p {
                    assert(item_le(sort, out0[l], out0[k]));
                } else if l == p {
                    assert(origin[k] == origin0[k]);
                } else if k < p {
                    assert(item_le(sort, out0[l - 1], out0[k]));
                } else if k == p {
                    assert(p < n);
                    if l - 1 > p {
                        assert(item_order::<T>(sort)(out0[p as int], out0[l - 1]));
                        lemma_item_le_transitive(sort, out0[p as int], out0[l - 1], x);
                    }
                    assert(false);
                } else {
                    assert(item_le(sort, out0[l - 1], out0[k - 1]));
                }
            }
        }
    }
    proof {
        assert(rest@ =~= Seq::<GalleryItem<T>>::empty());
        assert(rest@.to_multiset() =~= Multiset::empty());
        assert(out@.to_multiset() =~= all);
        vstd::seq_lib::to_multiset_len(out@);
        vstd::seq_lib::to_multiset_len(input);
        assert forall|i: int, j: int|
            0 <= i < j < out@.len() && #[trigger] item_le(sort, out@[j], out@[i]) implies exists|
                p: int,
                q: int,
            |
                0 <= p < q < input.len() && #[trigger] input[p] == out@[i] && #[trigger] input[q]
                    == out@[j] by {
            assert(input[origin[i]] == out@[i]);
            assert(input[origin[j]] == out@[j]);
        }
    }
    out
}

/// Folder names put in natural order (see `natural_le`): the same names,
/// each no later than every name after it.
pub fn sort_names(names: Vec<String>) -> (r: Vec<String>)
    ensures
        r@.to_multiset() == names@.to_multiset(),
        r@.len() == names@.len(),
        forall|i: int, j: int| 0 <= i < j < r@.len() ==> natural_le(#[trigger] r@[i]@, #[trigger] r@[j]@),
{
    let ghost input = names@;
    let ghost all = names@.to_multiset();
    let mut rest = names;
    let mut out: Vec<String> = Vec::new();
    proof {
        assert(out@ =~= Seq::<String>::empty());
        assert(out@.to_multiset() =~= Multiset::empty());
        assert(out@.to_multiset().add(rest@.to_multiset()) =~= all);
    }
    while rest.len() > 0
        invariant
            out@.to_multiset().add(rest@.to_multiset()) == all,
            forall|i: int, j: int| 0 <= i < j < out@.len() ==> natural_le(#[trigger] out@[i]@, #[trigger] out@[j]@),
        decreases rest.len(),
    {
        let ghost rest0 = rest@;
        let x = rest.remove(0);
        proof {
            vstd::seq_lib::to_multiset_remove(rest0, 0);
            assert(rest0.remove(0) =~= rest@);
            assert(rest0.to_multiset().count(x) > 0) by {
                vstd::seq_lib::to_multiset_contains(rest0, x);
                assert(rest0.contains(x)) by {
                    assert(rest0[0] == x);
                }
            }
        }
        let n = out.len();
        let mut p: usize = 0;
        while p < n && natural_le_exec(out[p].as_str(), x.as_str())
            invariant
                n == out@.len(),
                p <= n,
                forall|k: int| 0 <= k < p ==> natural_le(#[trigger] out@[k]@, x@),
            decreases n - p,
        {
            p += 1;
        }
        let ghost out0 = out@;
        proof {
            assert(p < n ==> !natural_le(out0[p as int]@, x@));
        }
        out.insert(p, x);
        proof {
            vstd::seq_lib::to_multiset_insert(out0, p as int, x);
            assert(out@ =~= out0.insert(p as int, x));
            assert(out@.to_multiset().add(rest@.to_multiset()) =~= all);
            assert forall|i: int, j: int| 0 <= i < j < out@.len() implies natural_le(
                #[trigger] out@[i]@,
                #[trigger] out@[j]@,
            ) by {
                if j < p {
                    assert(natural_le(out0[i]@, out0[j]@));
                } else if j == p {
                    assert(natural_le(out0[i]@, x@));
                } else if i < p {
                    assert(natural_le(out0[i]@, out0[j - 1]@));
                } else if i == p {
                    lemma_natural_le_total(out0[p as int]@, x@);
                    if j - 1 > p {
                        assert(natural_le(out0[p as int]@, out0[j - 1]@));
                        lemma_natural_le_transitive(x@, out0[p as int]@, out0[j - 1]@);
                    }
                } else {
                    assert(natural_le(out0[i - 1]@, out0[j - 1]@));
                }
            }
        }
    }
    proof {
        assert(rest@ =~= Seq::<String>::empty());
        assert(rest@.to_multiset() =~= Multiset::empty());
        assert(out@.to_multiset() =~= all);
        vstd::seq_lib::to_multiset_len(out@);
        vstd::seq_lib::to_multiset_len(input);
    }
    out
}

} // verus!
