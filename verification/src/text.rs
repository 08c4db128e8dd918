use vstd::prelude::*;

verus! {

/// std's `String::push` appends one character at the end.
pub assume_specification[ String::push ](s: &mut String, ch: char)
    ensures
        final(s)@ == old(s)@.push(ch),
;

/// The position of the first occurrence of `needle` in `haystack` at or
/// after position `i`, if there is one.
pub open spec fn find_from(haystack: Seq<char>, needle: Seq<char>, i: int) -> Option<int>
    decreases haystack.len() - i + 1,
{
    if i < 0 || i + needle.len() > haystack.len() {
        None
    } else if haystack.subrange(i, i + needle.len() as int) == needle {
        Some(i)
    } else {
        find_from(haystack, needle, i + 1)
    }
}

/// Whether `needle` occurs anywhere in `haystack`.
pub open spec fn contains_sub(haystack: Seq<char>, needle: Seq<char>) -> bool {
    find_from(haystack, needle, 0) is Some
}

/// A found occurrence is a real one: the needle stands at the reported
/// position, and at no earlier position from the search start.
pub proof fn lemma_find_from_some(haystack: Seq<char>, needle: Seq<char>, i: int, j: int)
    requires
        find_from(haystack, needle, i) == Some(j),
    ensures
        i <= j,
        j + needle.len() <= haystack.len(),
        haystack.subrange(j, j + needle.len() as int) == needle,
    decreases haystack.len() - i + 1,
{
    if !(i < 0 || i + needle.len() > haystack.len())
        && haystack.subrange(i, i + needle.len() as int) != needle {
        lemma_find_from_some(haystack, needle, i + 1, j);
    }
}

/// Searches `haystack` for the first occurrence of `needle`.
pub fn find_sub(haystack: &str, needle: &str) -> (r: Option<usize>)
    ensures
        match r {
            Some(j) => find_from(haystack@, needle@, 0) == Some(j as int),
            None => find_from(haystack@, needle@, 0) is None,
        },
{
    let hl = haystack.unicode_len();
    let nl = needle.unicode_len();
    if nl > hl {
        return None;
    }
    if nl == 0 {
        proof {
            assert(haystack@.subrange(0, 0) =~= needle@);
        }
        return Some(0);
    }
    let mut i: usize = 0;
    while i <= hl - nl
        invariant
            1 <= nl <= hl,
            hl == haystack@.len(),
            nl == needle@.len(),
            0 <= i <= hl - nl + 1,
            find_from(haystack@, needle@, 0) == find_from(haystack@, needle@, i as int),
        decreases hl - nl - i + 1,
    {
        let mut j: usize = 0;
        let mut mismatch = false;
        while j < nl
            invariant
                nl <= hl,
                hl == haystack@.len(),
                nl == needle@.len(),
                0 <= i <= hl - nl,
                0 <= j <= nl,
                !mismatch ==> forall|k: int|
                    0 <= k < j ==> haystack@[i + k] == needle@[k],
                mismatch ==> haystack@.subrange(i as int, i + nl as int) != needle@,
            decreases nl - j,
        {
            if haystack.get_char(i + j) != needle.get_char(j) {
                proof {
                    assert(haystack@.subrange(i as int, i + nl as int)[j as int]
                        != needle@[j as int]);
                }
                mismatch = true;
                j = nl;
            } else {
                j = j + 1;
            }
        }
        if !mismatch {
            proof {
                assert(haystack@.subrange(i as int, i + nl as int) =~= needle@);
            }
            return Some(i);
        }
        i = i + 1;
    }
    None
}

/// Whether `haystack` holds `needle` as a contiguous part.
pub fn contains_str(haystack: &str, needle: &str) -> (r: bool)
    ensures
        r == contains_sub(haystack@, needle@),
{
    find_sub(haystack, needle).is_some()
}

/// The position of the last `.` strictly before position `i`, if any.
pub open spec fn last_dot_before(name: Seq<char>, i: int) -> Option<int>
    decreases i,
{
    if i <= 0 || i > name.len() {
        None
    } else if name[i - 1] == '.' {
        Some(i - 1)
    } else {
        last_dot_before(name, i - 1)
    }
}

/// The extension of a file name: the text after the last `.`, provided
/// that dot is not the leading character. A name without such a dot has
/// no extension.
pub open spec fn ext_of(name: Seq<char>) -> Option<Seq<char>> {
    match last_dot_before(name, name.len() as int) {
        Some(j) => if j > 0 {
            Some(name.subrange(j + 1, name.len() as int))
        } else {
            None
        },
        None => None,
    }
}

/// Extracts the extension of a file name, if it has one.
pub fn extension_of(name: &str) -> (r: Option<String>)
    ensures
        match r {
            Some(e) => ext_of(name@) == Some(e@),
            None => ext_of(name@) is None,
        },
{
    let len = name.unicode_len();
    let mut i: usize = len;
    while i > 0
        invariant
            0 <= i <= len,
            len == name@.len(),
            last_dot_before(name@, len as int) == last_dot_before(name@, i as int),
        decreases i,
    {
        if name.get_char(i - 1) == '.' {
            if i - 1 > 0 {
                let e = name.substring_char(i, len);
                return Some(e.to_owned());
            } else {
                return None;
            }
        }
        i = i - 1;
    }
    None
}

/// Each space of the input replaced by `+`; every other character kept.
pub open spec fn plus_escaped(q: Seq<char>) -> Seq<char> {
    q.map_values(|c: char| if c == ' ' { '+' } else { c })
}

/// Rewrites a free-text query into its URL-safe form: every space
/// becomes a `+`.
pub fn escape_spaces(q: &str) -> (r: String)
    ensures
        r@ == plus_escaped(q@),
{
    let len = q.unicode_len();
    let mut out = String::new();
    let mut i: usize = 0;
    while i < len
        invariant
            0 <= i <= len,
            len == q@.len(),
            out@ == plus_escaped(q@.subrange(0, i as int)),
        decreases len - i,
    {
        let c = q.get_char(i);
        if c == ' ' {
            out.push('+');
        } else {
            out.push(c);
        }
        proof {
            assert(q@.subrange(0, i + 1).drop_last() =~= q@.subrange(0, i as int));
            assert(plus_escaped(q@.subrange(0, i + 1)) =~= plus_escaped(
                q@.subrange(0, i as int),
            ).push(if q@[i as int] == ' ' { '+' } else { q@[i as int] }));
        }
        i = i + 1;
    }
    proof {
        assert(q@.subrange(0, len as int) =~= q@);
    }
    out
}

/// The escape keeps the length, turns exactly the spaces into `+`, and
/// leaves every other character in place; in particular no space is
/// left in the result.
pub proof fn lemma_plus_escaped(q: Seq<char>)
    ensures
        plus_escaped(q).len() == q.len(),
        forall|i: int|
            0 <= i < q.len() ==> plus_escaped(q)[i] == (if q[i] == ' ' {
                '+'
            } else {
                q[i]
            }),
        forall|i: int| 0 <= i < q.len() ==> plus_escaped(q)[i] != ' ',
{
}

/// Whether `s` ends with `suffix`.
pub open spec fn ends_with(s: Seq<char>, suffix: Seq<char>) -> bool {
    s.len() >= suffix.len() && s.subrange(s.len() - suffix.len(), s.len() as int)
        == suffix
}

/// Anything concatenated in front of a string keeps that string as a
/// suffix.
pub proof fn lemma_concat_ends_with(prefix: Seq<char>, suffix: Seq<char>)
    ensures
        ends_with(prefix + suffix, suffix),
{
    assert((prefix + suffix).subrange(
        (prefix + suffix).len() - suffix.len(),
        (prefix + suffix).len() as int,
    ) =~= suffix);
}

} // verus!
