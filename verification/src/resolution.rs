use vstd::prelude::*;
use crate::text::{find_from, find_sub, lemma_find_from_some};

verus! {

/// The whitespace characters the display-utility output may hold
/// between the dimensions label and its value.
pub open spec fn is_space(c: char) -> bool {
    c == ' ' || c == '\t' || c == '\n' || c == '\r'
}

/// The first position at or after `i` holding a non-space character;
/// the length when only spaces remain.
pub open spec fn skip_spaces(s: Seq<char>, i: int) -> int
    decreases s.len() - i + 1,
{
    if i < 0 || i >= s.len() {
        i
    } else if is_space(s[i]) {
        skip_spaces(s, i + 1)
    } else {
        i
    }
}

/// The end of the run of non-space characters starting at `i`.
pub open spec fn token_end(s: Seq<char>, i: int) -> int
    decreases s.len() - i + 1,
{
    if i < 0 || i >= s.len() {
        i
    } else if !is_space(s[i]) {
        token_end(s, i + 1)
    } else {
        i
    }
}

/// The resolution the display utility reported: the first run of
/// non-space characters after the first `dimensions:` label that is
/// followed by at least one space. Output of any other shape yields
/// nothing.
pub open spec fn resolution_of(s: Seq<char>) -> Option<Seq<char>> {
    match find_from(s, "dimensions:"@, 0) {
        Some(i) => {
            let after = i + "dimensions:"@.len();
            if after < s.len() && is_space(s[after]) {
                let start = skip_spaces(s, after);
                let end = token_end(s, start);
                if start < end {
                    Some(s.subrange(start, end))
                } else {
                    None
                }
            } else {
                None
            }
        },
        None => None,
    }
}

/// Parses the display utility's free-text output for the screen
/// resolution it reports.
pub fn parse_resolution(output: &str) -> (r: Option<String>)
    ensures
        match r {
            Some(v) => resolution_of(output@) == Some(v@),
            None => resolution_of(output@) is None,
        },
{
    let len = output.unicode_len();
    let label = "dimensions:";
    let label_len = label.unicode_len();
    proof {
        reveal_strlit("dimensions:");
    }
    let found = find_sub(output, label);
    let i = match found {
        Some(i) => i,
        None => {
            return None;
        },
    };
    proof {
        lemma_find_from_some(output@, "dimensions:"@, 0, i as int);
    }
    let after = i + label_len;
    if !(after < len && char_is_space(output.get_char(after))) {
        return None;
    }
    let mut start: usize = after;
    while start < len && char_is_space(output.get_char(start))
        invariant
            0 <= after <= start <= len,
            len == output@.len(),
            skip_spaces(output@, after as int) == skip_spaces(output@, start as int),
        decreases len - start,
    {
        start = start + 1;
    }
    let mut end: usize = start;
    while end < len && !char_is_space(output.get_char(end))
        invariant
            0 <= start <= end <= len,
            len == output@.len(),
            token_end(output@, start as int) == token_end(output@, end as int),
        decreases len - end,
    {
        end = end + 1;
    }
    if start < end {
        let token = output.substring_char(start, end);
        Some(token.to_owned())
    } else {
        None
    }
}

/// Whether one character is whitespace for the purpose of the
/// dimensions scan.
pub fn char_is_space(c: char) -> (r: bool)
    ensures
        r == is_space(c),
{
    c == ' ' || c == '\t' || c == '\n' || c == '\r'
}

} // verus!
