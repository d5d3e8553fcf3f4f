//! A character-level model of filesystem paths: `/`-separated components,
//! with the extension of the last component introduced by its final dot.
//! A dot that starts a component (a hidden file) introduces no extension.

use vstd::prelude::*;

verus! {

/// Index of the dot that introduces the extension of the last path
/// component, or `-1` when the path has no extension: no dot after the last
/// separator, a trailing separator, or a dot in leading position of the
/// component.
pub open spec fn ext_dot(p: Seq<char>) -> int
    decreases p.len(),
{
    if p.len() == 0 {
        -1
    } else if p[p.len() - 1] == '/' {
        -1
    } else if p[p.len() - 1] == '.' {
        if p.len() >= 2 && p[p.len() - 2] != '/' {
            p.len() - 1
        } else {
            -1
        }
    } else {
        ext_dot(p.drop_last())
    }
}

/// The extension of the last component, without its dot.
pub open spec fn extension_of(p: Seq<char>) -> Option<Seq<char>> {
    if ext_dot(p) >= 0 {
        Some(p.subrange(ext_dot(p) + 1, p.len() as int))
    } else {
        None
    }
}

/// The path with its extension replaced by `e`; with an empty `e` the
/// extension (dot included) is removed.
pub open spec fn replace_extension(p: Seq<char>, e: Seq<char>) -> Seq<char> {
    let stem = if ext_dot(p) >= 0 {
        p.subrange(0, ext_dot(p))
    } else {
        p
    };
    if e.len() == 0 {
        stem
    } else {
        stem + seq!['.'] + e
    }
}

/// The path with `.e` appended after whatever extension it already has;
/// an empty `e` leaves the path unchanged.
pub open spec fn added_extension(p: Seq<char>, e: Seq<char>) -> Seq<char> {
    if e.len() == 0 {
        p
    } else {
        p + seq!['.'] + e
    }
}

/// `base` and `rel` joined with a single separator. An absolute `rel`
/// replaces `base`, as the standard path join does.
pub open spec fn joined(base: Seq<char>, rel: Seq<char>) -> Seq<char> {
    if rel.len() > 0 && rel[0] == '/' {
        rel
    } else if base.len() == 0 {
        rel
    } else if base[base.len() - 1] == '/' {
        base + rel
    } else {
        base + seq!['/'] + rel
    }
}

/// A verbatim prefix (`\\?\`), stripped by [`normalize_path`].
pub open spec fn normalized(p: Seq<char>) -> Seq<char> {
    if p.len() >= 4 && p[0] == '\\' && p[1] == '\\' && p[2] == '?' && p[3] == '\\' {
        p.subrange(4, p.len() as int)
    } else {
        p
    }
}

/// Finds the dot that introduces the extension of the last component.
pub fn find_ext_dot(p: &str) -> (r: Option<usize>)
    ensures
        match r {
            Some(d) => ext_dot(p@) == d && d < p@.len(),
            None => ext_dot(p@) == -1,
        },
{
    let len = p.unicode_len();
    let mut i: usize = len;
    proof {
        assert(p@.take(len as int) =~= p@);
    }
    while i > 0
        invariant
            i <= len,
            len == p@.len(),
            ext_dot(p@) == ext_dot(p@.take(i as int)),
        decreases i,
    {
        let c = p.get_char(i - 1);
        proof {
            assert(p@.take(i as int).len() == i);
            assert(p@.take(i as int)[i - 1] == c);
        }
        if c == '/' {
            return None;
        } else if c == '.' {
            if i >= 2 {
                let c2 = p.get_char(i - 2);
                proof {
                    assert(p@.take(i as int)[i - 2] == c2);
                }
                if c2 != '/' {
                    return Some(i - 1);
                } else {
                    return None;
                }
            } else {
                return None;
            }
        }
        proof {
            assert(p@.take(i as int).drop_last() =~= p@.take(i - 1));
        }
        i = i - 1;
    }
    None
}

/// The extension of the last component of `p`, without its dot.
pub fn extension_str(p: &str) -> (r: Option<String>)
    ensures
        match r {
            Some(e) => extension_of(p@) == Some(e@),
            None => extension_of(p@) is None,
        },
{
    match find_ext_dot(p) {
        Some(d) => {
            let len = p.unicode_len();
            Some(String::from_str(p.substring_char(d + 1, len)))
        },
        None => None,
    }
}

/// Replaces the extension of `p` by `e` (or removes it when `e` is empty).
pub fn set_extension_str(p: &str, e: &str) -> (r: String)
    ensures
        r@ == replace_extension(p@, e@),
{
    let stem = match find_ext_dot(p) {
        Some(d) => String::from_str(p.substring_char(0, d)),
        None => String::from_str(p),
    };
    if e.unicode_len() == 0 {
        stem
    } else {
        proof {
            reveal_strlit(".");
            assert("."@ =~= seq!['.']);
        }
        stem.concat(".").concat(e)
    }
}

/// Appends `.e` to `p`; an empty `e` leaves `p` unchanged.
pub fn add_extension_str(p: &str, e: &str) -> (r: String)
    ensures
        r@ == added_extension(p@, e@),
{
    if e.unicode_len() == 0 {
        String::from_str(p)
    } else {
        proof {
            reveal_strlit(".");
            assert("."@ =~= seq!['.']);
        }
        String::from_str(p).concat(".").concat(e)
    }
}

/// Joins `base` and `rel` with a single separator.
pub fn join_str(base: &str, rel: &str) -> (r: String)
    ensures
        r@ == joined(base@, rel@),
{
    let rel_len = rel.unicode_len();
    if rel_len > 0 && rel.get_char(0) == '/' {
        return String::from_str(rel);
    }
    let base_len = base.unicode_len();
    if base_len == 0 {
        return String::from_str(rel);
    }
    if base.get_char(base_len - 1) == '/' {
        String::from_str(base).concat(rel)
    } else {
        proof {
            reveal_strlit("/");
            assert("/"@ =~= seq!['/']);
        }
        String::from_str(base).concat("/").concat(rel)
    }
}

/// Strips the verbatim prefix `\\?\` that canonicalization leaves on some
/// platforms; any other path is returned unchanged.
pub fn normalize_path(p: &str) -> (r: String)
    ensures
        r@ == normalized(p@),
{
    let len = p.unicode_len();
    if len >= 4 && p.get_char(0) == '\\' && p.get_char(1) == '\\' && p.get_char(2) == '?'
        && p.get_char(3) == '\\' {
        String::from_str(p.substring_char(4, len))
    } else {
        String::from_str(p)
    }
}

} // verus!
