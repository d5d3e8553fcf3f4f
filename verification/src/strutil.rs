//! String helpers shared by the path and command-line machinery: equality,
//! ASCII case folding, and searching, all specified over `Seq<char>` views.

use vstd::prelude::*;

verus! {

/// Equality of two string slices, by their character sequences.
pub fn str_eq(a: &str, b: &str) -> (r: bool)
    ensures
        r == (a@ == b@),
{
    let sa = String::from_str(a);
    let sb = String::from_str(b);
    sa == sb
}

/// ASCII case folding of one character: `'A'..='Z'` map to `'a'..='z'`,
/// every other character is left alone.
pub open spec fn lower_char(c: char) -> char {
    if 'A' as u32 <= c as u32 && c as u32 <= 'Z' as u32 {
        ((c as u32 + 32) as char)
    } else {
        c
    }
}

/// ASCII case folding of a whole character sequence.
pub open spec fn lower(s: Seq<char>) -> Seq<char> {
    s.map_values(|c: char| lower_char(c))
}

/// Compares two string slices up to ASCII case.
pub fn eq_ignore_case(a: &str, b: &str) -> (r: bool)
    ensures
        r == (lower(a@) == lower(b@)),
{
    let len_a = a.unicode_len();
    let len_b = b.unicode_len();
    if len_a != len_b {
        assert(lower(a@).len() != lower(b@).len());
        return false;
    }
    let mut i: usize = 0;
    while i < len_a
        invariant
            i <= len_a,
            len_a == a@.len(),
            len_a == b@.len(),
            forall|j: int| 0 <= j < i ==> lower(a@)[j] == lower(b@)[j],
        decreases len_a - i,
    {
        let ca = a.get_char(i);
        let cb = b.get_char(i);
        let ua = ca as u32;
        let ub = cb as u32;
        let la = if 65 <= ua && ua <= 90 { ua + 32 } else { ua };
        let lb = if 65 <= ub && ub <= 90 { ub + 32 } else { ub };
        if la != lb {
            assert(lower(a@)[i as int] != lower(b@)[i as int]);
            return false;
        }
        assert(lower(a@)[i as int] == lower(b@)[i as int]);
        i = i + 1;
    }
    proof {
        assert(lower(a@) =~= lower(b@));
    }
    true
}

/// Every element of `items`, with `prefix` glued in front.
pub open spec fn prefixed(prefix: Seq<char>, items: Seq<Seq<char>>) -> Seq<Seq<char>> {
    items.map_values(|s: Seq<char>| prefix + s)
}

/// Builds one argument per item: the prefix immediately followed by the item
/// (the `-DNAME`, `-Idir`, `-Ldir`, `-lname` grammar).
pub fn prefix_each(prefix: &str, items: &Vec<String>) -> (r: Vec<String>)
    ensures
        r.deep_view() == prefixed(prefix@, items.deep_view()),
{
    let mut r: Vec<String> = Vec::new();
    let n = items.len();
    let mut i: usize = 0;
    while i < n
        invariant
            i <= n,
            n == items.len(),
            r.deep_view() =~= prefixed(prefix@, items.deep_view()).take(i as int),
        decreases n - i,
    {
        let ghost prev = r.deep_view();
        r.push(String::from_str(prefix).concat(items[i].as_str()));
        proof {
            assert(prev.len() == i);
            assert(r@.len() == i + 1);
            assert forall|j: int| 0 <= j <= i implies r.deep_view()[j]
                == prefixed(prefix@, items.deep_view())[j] by {
                if j < i {
                    assert(r.deep_view()[j] == prev[j]);
                } else {
                    assert(r.deep_view()[j] == r@[j]@);
                    assert(r@[j]@ == prefix@ + items@[j]@);
                }
            }
            assert(r.deep_view() =~= prefixed(prefix@, items.deep_view()).take(i + 1));
        }
        i = i + 1;
    }
    proof {
        assert(prefixed(prefix@, items.deep_view()).take(n as int) =~= prefixed(
            prefix@,
            items.deep_view(),
        ));
    }
    r
}

/// The pieces of `s` between its spaces, in order; adjacent spaces yield
/// empty pieces, and the empty string is one empty piece.
pub open spec fn split_sp(s: Seq<char>) -> Seq<Seq<char>>
    decreases s.len(),
{
    if s.len() == 0 {
        seq![Seq::<char>::empty()]
    } else if s.last() == ' ' {
        split_sp(s.drop_last()).push(Seq::<char>::empty())
    } else {
        let r = split_sp(s.drop_last());
        r.update(r.len() - 1, r.last().push(s.last()))
    }
}

pub proof fn lemma_split_sp_len(s: Seq<char>)
    ensures
        split_sp(s).len() >= 1,
    decreases s.len(),
{
    if s.len() > 0 {
        lemma_split_sp_len(s.drop_last());
    }
}

/// Splits `s` at each space, the grammar multi-token flag strings use.
pub fn split_ws(s: &str) -> (r: Vec<String>)
    ensures
        r.deep_view() == split_sp(s@),
{
    let len = s.unicode_len();
    let mut parts: Vec<String> = Vec::new();
    let mut start: usize = 0;
    let mut i: usize = 0;
    proof {
        assert(s@.take(0) =~= Seq::<char>::empty());
        assert(s@.subrange(0, 0) =~= Seq::<char>::empty());
    }
    while i < len
        invariant
            start <= i <= len,
            len == s@.len(),
            split_sp(s@.take(i as int)) == parts.deep_view().push(
                s@.subrange(start as int, i as int),
            ),
        decreases len - i,
    {
        let c = s.get_char(i);
        proof {
            assert(s@.take(i + 1).drop_last() =~= s@.take(i as int));
            assert(s@.take(i + 1).last() == c);
            lemma_split_sp_len(s@.take(i as int));
        }
        if c == ' ' {
            let ghost prev = parts.deep_view();
            let piece = String::from_str(s.substring_char(start, i));
            parts.push(piece);
            proof {
                assert forall|j: int| 0 <= j < prev.len() + 1 implies parts.deep_view()[j]
                    == prev.push(s@.subrange(start as int, i as int))[j] by {
                    if j < prev.len() {
                        assert(parts.deep_view()[j] == prev[j]);
                    } else {
                        assert(parts.deep_view()[j] == parts@[j]@);
                    }
                }
                assert(parts.deep_view() =~= prev.push(s@.subrange(start as int, i as int)));
                assert(s@.subrange(i + 1, i + 1) =~= Seq::<char>::empty());
                assert(split_sp(s@.take(i + 1)) == split_sp(s@.take(i as int)).push(
                    Seq::<char>::empty(),
                ));
                assert(split_sp(s@.take(i + 1)) =~= parts.deep_view().push(
                    s@.subrange(i + 1, i + 1),
                ));
            }
            start = i + 1;
        } else {
            proof {
                let pre = split_sp(s@.take(i as int));
                assert(split_sp(s@.take(i + 1)) == pre.update(pre.len() - 1, pre.last().push(c)));
                assert(pre.last() == s@.subrange(start as int, i as int));
                assert(s@.subrange(start as int, i as int).push(c) =~= s@.subrange(
                    start as int,
                    i + 1,
                ));
                assert(split_sp(s@.take(i + 1)) =~= parts.deep_view().push(
                    s@.subrange(start as int, i + 1),
                ));
            }
        }
        i = i + 1;
    }
    let last_piece = String::from_str(s.substring_char(start, len));
    let ghost prev = parts.deep_view();
    parts.push(last_piece);
    proof {
        assert(s@.take(len as int) =~= s@);
        assert forall|j: int| 0 <= j < prev.len() + 1 implies parts.deep_view()[j] == prev.push(
            s@.subrange(start as int, len as int),
        )[j] by {
            if j < prev.len() {
                assert(parts.deep_view()[j] == prev[j]);
            } else {
                assert(parts.deep_view()[j] == parts@[j]@);
            }
        }
        assert(parts.deep_view() =~= prev.push(s@.subrange(start as int, len as int)));
    }
    parts
}

/// Appends clones of every element of `src` to `dst`, in order.
pub fn append_all(dst: &mut Vec<String>, src: &Vec<String>)
    ensures
        final(dst).deep_view() == old(dst).deep_view() + src.deep_view(),
{
    let n = src.len();
    let mut i: usize = 0;
    while i < n
        invariant
            i <= n,
            n == src.len(),
            dst.deep_view() =~= old(dst).deep_view() + src.deep_view().take(i as int),
        decreases n - i,
    {
        let ghost prev = dst.deep_view();
        dst.push(src[i].clone());
        proof {
            assert forall|j: int| 0 <= j < prev.len() + 1 implies dst.deep_view()[j] == prev.push(
                src.deep_view()[i as int],
            )[j] by {
                if j < prev.len() {
                    assert(dst.deep_view()[j] == prev[j]);
                } else {
                    assert(dst.deep_view()[j] == dst@[j]@);
                    assert(dst@[j] == src@[i as int]);
                }
            }
            assert(dst.deep_view() =~= old(dst).deep_view() + src.deep_view().take(i + 1));
        }
        i = i + 1;
    }
    proof {
        assert(src.deep_view().take(n as int) =~= src.deep_view());
    }
}

} // verus!
