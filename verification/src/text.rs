//! Substring containment and literal replacement over character sequences.
//!
//! All state inference in this system is textual: a capability is "present"
//! when a marker string occurs in some captured command output, and the
//! generated cluster configuration is patched by replacing every occurrence
//! of a literal address.  Both operations are specified here over `Seq<char>`
//! and implemented on `&str`.

use vstd::prelude::*;

verus! {

/// `needle` occurs in `hay` starting exactly at position `i`.
pub open spec fn matches_at(hay: Seq<char>, needle: Seq<char>, i: int) -> bool {
    0 <= i && i + needle.len() <= hay.len() && hay.subrange(i, i + needle.len() as int) == needle
}

/// `needle` occurs somewhere in `hay`.
pub open spec fn contains_seq(hay: Seq<char>, needle: Seq<char>) -> bool {
    exists|i: int| matches_at(hay, needle, i)
}

/// `hay` with every occurrence of `from` replaced by `to`, scanning left to
/// right and never rescanning replaced text.
pub open spec fn replace_all(s: Seq<char>, from: Seq<char>, to: Seq<char>) -> Seq<char>
    decreases s.len(),
{
    if from.len() == 0 || s.len() < from.len() {
        s
    } else if s.subrange(0, from.len() as int) == from {
        to + replace_all(s.skip(from.len() as int), from, to)
    } else {
        seq![s[0]] + replace_all(s.skip(1), from, to)
    }
}

/// Whether `needle` occurs in `hay` at position `i`.
fn match_at(hay: &str, needle: &str, i: usize) -> (b: bool)
    requires
        i + needle@.len() <= hay@.len(),
        hay@.len() <= usize::MAX,
    ensures
        b == matches_at(hay@, needle@, i as int),
{
    let n = needle.unicode_len();
    let mut j: usize = 0;
    while j < n
        invariant
            n == needle@.len(),
            i + n <= hay@.len() <= usize::MAX,
            j <= n,
            forall|k: int| 0 <= k < j ==> hay@[i + k] == needle@[k],
        decreases n - j,
    {
        if hay.get_char(i + j) != needle.get_char(j) {
            assert(hay@.subrange(i as int, i + needle@.len() as int)[j as int] == hay@[i + j]);
            return false;
        }
        j += 1;
    }
    assert(hay@.subrange(i as int, i + needle@.len() as int) =~= needle@);
    true
}

/// Whether `needle` occurs anywhere in `hay`.
pub fn contains_str(hay: &str, needle: &str) -> (b: bool)
    ensures
        b == contains_seq(hay@, needle@),
{
    let h = hay.unicode_len();
    let n = needle.unicode_len();
    if n > h {
        assert forall|i: int| !matches_at(hay@, needle@, i) by {}
        return false;
    }
    if n == 0 {
        assert(hay@.subrange(0, 0) =~= needle@);
        assert(matches_at(hay@, needle@, 0));
        return true;
    }
    let mut i: usize = 0;
    while i <= h - n
        invariant
            h == hay@.len(),
            n == needle@.len(),
            0 < n <= h,
            i <= h - n + 1,
            forall|k: int| 0 <= k < i ==> !matches_at(hay@, needle@, k),
        decreases h - n - i + 1,
    {
        if match_at(hay, needle, i) {
            assert(matches_at(hay@, needle@, i as int));
            return true;
        }
        i += 1;
    }
    assert forall|k: int| !matches_at(hay@, needle@, k) by {
        if 0 <= k < i {
        } else {
        }
    }
    false
}

/// `hay` with every occurrence of `from` replaced by `to`.  An empty `from`
/// is ruled out: replacing the empty string is not meaningful here.
pub fn replace_all_str(s: &str, from: &str, to: &str) -> (r: String)
    requires
        from@.len() > 0,
    ensures
        r@ == replace_all(s@, from@, to@),
{
    let sl = s.unicode_len();
    let fl = from.unicode_len();
    let mut out = String::new();
    let mut i: usize = 0;
    proof {
        assert(s@.skip(0) =~= s@);
        assert(Seq::<char>::empty() + replace_all(s@, from@, to@) =~= replace_all(s@, from@, to@));
    }
    while i < sl
        invariant
            sl == s@.len(),
            fl == from@.len(),
            0 < fl,
            i <= sl,
            replace_all(s@, from@, to@) == out@ + replace_all(s@.skip(i as int), from@, to@),
        decreases sl - i,
    {
        let ghost rest = s@.skip(i as int);
        if fl <= sl - i && match_at(s, from, i) {
            proof {
                assert(rest.subrange(0, fl as int) =~= s@.subrange(i as int, i + fl));
                assert(rest.subrange(0, fl as int) == from@);
                assert(rest.skip(fl as int) =~= s@.skip(i + fl));
                assert(replace_all(rest, from@, to@) == to@ + replace_all(s@.skip(i + fl), from@, to@));
                assert(out@ + replace_all(rest, from@, to@) =~= (out@ + to@) + replace_all(
                    s@.skip(i + fl),
                    from@,
                    to@,
                ));
            }
            out.append(to);
            i += fl;
        } else {
            proof {
                if fl <= sl - i {
                    assert(!matches_at(s@, from@, i as int));
                    assert(rest.subrange(0, fl as int) =~= s@.subrange(i as int, i + fl));
                    assert(rest.subrange(0, fl as int) != from@);
                    assert(rest.skip(1) =~= s@.skip(i + 1));
                    assert(replace_all(rest, from@, to@) == seq![s@[i as int]] + replace_all(
                        s@.skip(i + 1),
                        from@,
                        to@,
                    ));
                    assert(out@ + replace_all(rest, from@, to@) =~= (out@ + s@.subrange(
                        i as int,
                        i + 1,
                    )) + replace_all(s@.skip(i + 1), from@, to@));
                } else {
                    assert(rest.len() < fl);
                    assert(replace_all(rest, from@, to@) == rest);
                    assert(rest.skip(1) =~= s@.skip(i + 1));
                    assert(replace_all(s@.skip(i + 1), from@, to@) == s@.skip(i + 1));
                    assert(rest =~= s@.subrange(i as int, i + 1) + s@.skip(i + 1));
                    assert(out@ + rest =~= (out@ + s@.subrange(i as int, i + 1)) + s@.skip(i + 1));
                }
            }
            let piece = s.substring_char(i, i + 1);
            out.append(piece);
            i += 1;
        }
    }
    proof {
        assert(s@.skip(i as int) =~= Seq::<char>::empty());
        assert(replace_all(s@.skip(i as int), from@, to@) == Seq::<char>::empty());
        assert(out@ + Seq::<char>::empty() =~= out@);
    }
    out
}

} // verus!
