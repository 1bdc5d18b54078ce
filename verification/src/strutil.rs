//! String helpers shared by the planning code: concatenation, substring
//! search (used for readiness markers) and separator splitting (used for
//! the search path and for line-oriented command output).
use vstd::prelude::*;

verus! {

/// Concatenation of two pieces.
pub fn cat2(a: &str, b: &str) -> (r: String)
    ensures
        r@ == a@ + b@,
{
    let mut s: String = a.to_owned();
    s.append(b);
    s
}

/// Concatenation of three pieces.
pub fn cat3(a: &str, b: &str, c: &str) -> (r: String)
    ensures
        r@ == a@ + b@ + c@,
{
    let mut s: String = a.to_owned();
    s.append(b);
    s.append(c);
    s
}

/// Concatenation of four pieces.
pub fn cat4(a: &str, b: &str, c: &str, d: &str) -> (r: String)
    ensures
        r@ == a@ + b@ + c@ + d@,
{
    let mut s: String = a.to_owned();
    s.append(b);
    s.append(c);
    s.append(d);
    s
}

/// The needle occurs in the haystack starting at position `i`.
pub open spec fn is_match_at(h: Seq<char>, m: Seq<char>, i: int) -> bool {
    0 <= i && i + m.len() <= h.len() && (forall|j: int| 0 <= j < m.len() ==> h[i + j] == m[j])
}

/// The needle occurs somewhere in the haystack.
pub open spec fn contains_seq(h: Seq<char>, m: Seq<char>) -> bool {
    exists|i: int| is_match_at(h, m, i)
}

/// Substring search: does `h` contain `m`?
pub fn contains_str(h: &str, m: &str) -> (r: bool)
    ensures
        r == contains_seq(h@, m@),
{
    let hl = h.unicode_len();
    let ml = m.unicode_len();
    if ml > hl {
        assert(forall|i: int| !is_match_at(h@, m@, i));
        return false;
    }
    let mut i: usize = 0;
    while i <= hl - ml
        invariant
            ml <= hl,
            hl == h@.len(),
            ml == m@.len(),
            i <= hl - ml + 1,
            forall|k: int| 0 <= k < i ==> !is_match_at(h@, m@, k),
        decreases hl - ml - i + 1,
    {
        let mut j: usize = 0;
        let mut all_match = true;
        while j < ml
            invariant
                ml <= hl,
                hl == h@.len(),
                ml == m@.len(),
                i <= hl - ml,
                j <= ml,
                all_match <==> (forall|t: int| 0 <= t < j ==> h@[i + t] == m@[t]),
            decreases ml - j,
        {
            if h.get_char(i + j) != m.get_char(j) {
                all_match = false;
                j = ml;
            } else {
                assert(all_match <==> (forall|t: int| 0 <= t <= j ==> h@[i + t] == m@[t]));
                j = j + 1;
            }
        }
        if all_match {
            assert(is_match_at(h@, m@, i as int));
            return true;
        }
        i = i + 1;
    }
    assert(forall|k: int| is_match_at(h@, m@, k) ==> 0 <= k <= hl - ml);
    false
}

/// What joining segments back with the separator yields.
pub open spec fn joined(parts: Seq<Seq<char>>, sep: char) -> Seq<char>
    decreases parts.len(),
{
    if parts.len() == 0 {
        Seq::empty()
    } else if parts.len() == 1 {
        parts[0]
    } else {
        parts[0] + seq![sep] + joined(parts.drop_first(), sep)
    }
}

/// A split result is exact: no segment holds the separator, and joining
/// the segments with the separator restores the input.
pub open spec fn is_split_of(parts: Seq<Seq<char>>, s: Seq<char>, sep: char) -> bool {
    &&& joined(parts, sep) == s
    &&& forall|k: int| 0 <= k < parts.len() ==> !(#[trigger] parts[k]).contains(sep)
}

proof fn lemma_joined_push(parts: Seq<Seq<char>>, sep: char, last: Seq<char>)
    requires
        parts.len() >= 1,
    ensures
        joined(parts.push(last), sep) == joined(parts, sep) + seq![sep] + last,
    decreases parts.len(),
{
    if parts.len() == 1 {
        let p = parts.push(last);
        assert(p.drop_first() =~= seq![last]);
        assert(joined(seq![last], sep) == last);
        assert(joined(p, sep) == p[0] + seq![sep] + joined(p.drop_first(), sep));
        assert(p[0] == parts[0]);
        assert(joined(parts, sep) == parts[0]);
    } else {
        lemma_joined_push(parts.drop_first(), sep, last);
        assert(parts.push(last).drop_first() =~= parts.drop_first().push(last));
        assert(joined(parts.push(last), sep) == parts[0] + seq![sep] + joined(
            parts.drop_first().push(last),
            sep,
        ));
        assert(joined(parts, sep) + seq![sep] + last == parts[0] + seq![sep] + (joined(
            parts.drop_first(),
            sep,
        ) + seq![sep] + last));
        assert(joined(parts.push(last), sep) =~= joined(parts, sep) + seq![sep] + last);
    }
}

/// A split result is unique: there is at most one sequence of
/// separator-free segments that joins back to a given input, so the
/// splitting contract pins a single result.
pub proof fn lemma_split_unique(xs: Seq<Seq<char>>, ys: Seq<Seq<char>>, s: Seq<char>, sep: char)
    requires
        is_split_of(xs, s, sep),
        is_split_of(ys, s, sep),
        xs.len() >= 1,
        ys.len() >= 1,
    ensures
        xs =~~= ys,
    decreases xs.len(),
{
    if xs.len() == 1 && ys.len() == 1 {
        assert(xs[0] == s);
        assert(ys[0] == s);
        assert(xs =~~= ys);
    } else if xs.len() == 1 {
        lemma_split_head_mismatch(xs, ys, s, sep);
    } else if ys.len() == 1 {
        lemma_split_head_mismatch(ys, xs, s, sep);
    } else {
        let a = xs[0];
        let b = ys[0];
        assert(joined(xs, sep) == a + seq![sep] + joined(xs.drop_first(), sep));
        assert(joined(ys, sep) == b + seq![sep] + joined(ys.drop_first(), sep));
        if a.len() < b.len() {
            assert(s[a.len() as int] == sep);
            assert(s[a.len() as int] == b[a.len() as int]);
            assert(b.contains(sep));
            assert(false);
        } else if b.len() < a.len() {
            assert(s[b.len() as int] == sep);
            assert(s[b.len() as int] == a[b.len() as int]);
            assert(a.contains(sep));
            assert(false);
        }
        assert forall|j: int| 0 <= j < a.len() implies a[j] == b[j] by {
            assert(a[j] == s[j]);
            assert(b[j] == s[j]);
        }
        assert(a =~= b);
        let s2 = s.subrange(a.len() as int + 1, s.len() as int);
        assert(joined(xs.drop_first(), sep) =~= s2);
        assert(joined(ys.drop_first(), sep) =~= s2);
        assert forall|k: int| 0 <= k < xs.drop_first().len() implies !(
        #[trigger] xs.drop_first()[k]).contains(sep) by {
            assert(xs.drop_first()[k] == xs[k + 1]);
        }
        assert forall|k: int| 0 <= k < ys.drop_first().len() implies !(
        #[trigger] ys.drop_first()[k]).contains(sep) by {
            assert(ys.drop_first()[k] == ys[k + 1]);
        }
        assert(is_split_of(xs.drop_first(), s2, sep));
        assert(is_split_of(ys.drop_first(), s2, sep));
        lemma_split_unique(xs.drop_first(), ys.drop_first(), s2, sep);
        assert forall|k: int| 0 <= k < xs.len() implies xs[k] == ys[k] by {
            if k >= 1 {
                assert(xs.drop_first()[k - 1] == ys.drop_first()[k - 1]);
            }
        }
        assert(xs =~~= ys);
    }
}

/// A one-segment split and a many-segment split of the same input
/// cannot both exist: the single segment would hold the separator.
proof fn lemma_split_head_mismatch(xs: Seq<Seq<char>>, ys: Seq<Seq<char>>, s: Seq<char>, sep: char)
    requires
        is_split_of(xs, s, sep),
        is_split_of(ys, s, sep),
        xs.len() == 1,
    ensures
        ys.len() >= 2 ==> xs =~~= ys,
{
    if ys.len() >= 2 {
        assert(xs[0] == s);
        assert(joined(ys, sep) == ys[0] + seq![sep] + joined(ys.drop_first(), sep));
        let l = ys[0].len() as int;
        assert(s[l] == sep);
        assert(s.contains(sep));
        assert(!xs[0].contains(sep));
    }
}

/// The segments already closed, plus the one still being collected, joined.
spec fn joined_partial(acc: Seq<Seq<char>>, cur: Seq<char>, sep: char) -> Seq<char> {
    if acc.len() == 0 {
        cur
    } else {
        joined(acc, sep) + seq![sep] + cur
    }
}

/// Splits `s` on the separator. An empty input yields no segments;
/// otherwise the result is the unique sequence of separator-free
/// segments that joins back to `s`.
pub fn split_on(s: &str, sep: char) -> (r: Vec<String>)
    ensures
        s@.len() == 0 ==> r@.len() == 0,
        s@.len() > 0 ==> is_split_of(r@.map_values(|p: String| p@), s@, sep),
        s@.len() > 0 ==> r@.len() >= 1,
{
    let n = s.unicode_len();
    if n == 0 {
        let r: Vec<String> = Vec::new();
        return r;
    }
    let mut acc: Vec<String> = Vec::new();
    let mut cur: String = String::new();
    let mut i: usize = 0;
    while i < n
        invariant
            n == s@.len(),
            i <= n,
            joined_partial(acc@.map_values(|p: String| p@), cur@, sep) == s@.take(i as int),
            !cur@.contains(sep),
            forall|k: int| 0 <= k < acc@.len() ==> !(#[trigger] acc@[k])@.contains(sep),
        decreases n - i,
    {
        let ghost prev_acc = acc@.map_values(|p: String| p@);
        let ghost prev_cur = cur@;
        let c = s.get_char(i);
        if c == sep {
            acc.push(cur);
            cur = String::new();
            proof {
                assert(acc@.map_values(|p: String| p@) =~= prev_acc.push(prev_cur));
                if prev_acc.len() >= 1 {
                    lemma_joined_push(prev_acc, sep, prev_cur);
                }
                assert(joined(prev_acc.push(prev_cur), sep) == joined_partial(
                    prev_acc,
                    prev_cur,
                    sep,
                ));
                assert(s@.take(i + 1) =~= s@.take(i as int) + seq![c]);
                assert(joined_partial(acc@.map_values(|p: String| p@), cur@, sep) =~= s@.take(
                    i + 1,
                ));
            }
        } else {
            let piece = s.substring_char(i, i + 1);
            assert(piece@ =~= seq![c]);
            cur.append(piece);
            proof {
                assert(cur@ =~= prev_cur.push(c));
                assert(forall|t: int| 0 <= t < cur@.len() ==> cur@[t] != sep);
                assert(!cur@.contains(sep));
                assert(s@.take(i + 1) =~= s@.take(i as int) + seq![c]);
                assert(joined_partial(prev_acc, cur@, sep) =~= s@.take(i + 1));
            }
        }
        i = i + 1;
    }
    let ghost prev_acc = acc@.map_values(|p: String| p@);
    let ghost prev_cur = cur@;
    acc.push(cur);
    proof {
        assert(acc@.map_values(|p: String| p@) =~= prev_acc.push(prev_cur));
        if prev_acc.len() >= 1 {
            lemma_joined_push(prev_acc, sep, prev_cur);
        }
        assert(joined(prev_acc.push(prev_cur), sep) == joined_partial(prev_acc, prev_cur, sep));
        assert(s@.take(n as int) =~= s@);
    }
    acc
}

} // verus!
