//! Title validation: a candidate title is rejected when, after trimming
//! surrounding spaces, it is empty, longer than the maximum, or contains a
//! custom-emoji token — an inline marker of the form `<:name:id>` or
//! `<a:name:id>` standing alone as a whitespace-delimited piece.

use vstd::prelude::*;
use crate::text::is_digit;
use crate::text::trim_spaces;
use crate::text::trimmed;

verus! {

/// The longest accepted title, in characters, after trimming.
pub const MAX_TITLE_LENGTH: usize = 128;

/// Why a candidate title was rejected. Rejection is a normal outcome of
/// validation, not a failure.
#[derive(Clone, Copy, PartialEq, Eq, Structural, Debug)]
pub enum TitleError {
    /// Nothing is left of the candidate once surrounding spaces go.
    Empty,
    /// The trimmed candidate runs past the maximum length.
    TooLong,
    /// A whitespace-delimited piece of the candidate is a custom-emoji
    /// token.
    ContainsCustomEmoji,
}

/// `b` has the shape `name:id`: a non-empty name holding no colon, one
/// colon, and a non-empty id of decimal digits.
pub open spec fn is_name_colon_id(b: Seq<char>) -> bool {
    exists|m: int|
        #![auto]
        1 <= m <= b.len() - 2 && b[m] == ':' && (forall|i: int| 0 <= i < m ==> b[i] != ':') && (
        forall|i: int| m < i < b.len() ==> is_digit(b[i]))
}

/// A custom-emoji token: `<:name:id>`, or `<a:name:id>` for an animated
/// emoji.
pub open spec fn is_emoji_token(t: Seq<char>) -> bool {
    &&& t.len() >= 2
    &&& t[0] == '<'
    &&& t.last() == '>'
    &&& {
        let inner = t.subrange(1, t.len() - 1);
        ||| (inner.len() >= 1 && inner[0] == ':' && is_name_colon_id(inner.drop_first()))
        ||| (inner.len() >= 2 && inner[0] == 'a' && inner[1] == ':' && is_name_colon_id(
            inner.subrange(2, inner.len() as int),
        ))
    }
}

/// The run `s[i..j]` is one whole whitespace-delimited piece of `s`: it is
/// non-empty, holds no space, and touches a space or an end of `s` on each
/// side.
pub open spec fn piece_at(s: Seq<char>, i: int, j: int) -> bool {
    &&& 0 <= i < j <= s.len()
    &&& (i == 0 || s[i - 1] == ' ')
    &&& (j == s.len() || s[j] == ' ')
    &&& (forall|k: int| i <= k < j ==> s[k] != ' ')
}

/// Some whitespace-delimited piece of `s` is a custom-emoji token.
pub open spec fn has_emoji_piece(s: Seq<char>) -> bool {
    exists|i: int, j: int|
        #![trigger piece_at(s, i, j)]
        piece_at(s, i, j) && is_emoji_token(s.subrange(i, j))
}

/// Check one whitespace-delimited piece for the custom-emoji shape.
#[verifier::loop_isolation(false)]
fn is_emoji_piece(p: &str) -> (r: bool)
    ensures
        r == is_emoji_token(p@),
{
    let n = p.unicode_len();
    if n < 2 {
        return false;
    }
    if p.get_char(0) != '<' || p.get_char(n - 1) != '>' {
        return false;
    }
    let ghost t = p@;
    let ghost inner = t.subrange(1, n - 1);
    let c1 = p.get_char(1);
    let bs: usize;
    if c1 == ':' {
        bs = 2;
    } else if c1 == 'a' && n >= 4 && p.get_char(2) == ':' {
        bs = 3;
    } else {
        return false;
    }
    let ghost b = t.subrange(bs as int, n - 1);
    proof {
        if bs == 2 {
            assert(inner.drop_first() =~= b);
        } else {
            assert(inner.subrange(2, inner.len() as int) =~= b);
        }
    }
    // Find the colon that ends the name.
    let mut k: usize = bs;
    while k < n - 1 && p.get_char(k) != ':'
        invariant
            bs <= k <= n - 1,
            forall|i: int| bs <= i < k ==> t[i] != ':',
        decreases n - 1 - k,
    {
        k = k + 1;
    }
    if k == n - 1 {
        // No colon at all after the name's first character.
        proof {
            if is_name_colon_id(b) {
                let m = choose|m: int|
                    1 <= m <= b.len() - 2 && b[m] == ':' && (forall|i: int|
                        0 <= i < m ==> b[i] != ':') && (forall|i: int|
                        m < i < b.len() ==> is_digit(b[i]));
                assert(t[bs + m] == ':');
                assert(false);
            }
        }
        return false;
    }
    if k == bs {
        // The name would be empty.
        proof {
            if is_name_colon_id(b) {
                let m = choose|m: int|
                    1 <= m <= b.len() - 2 && b[m] == ':' && (forall|i: int|
                        0 <= i < m ==> b[i] != ':') && (forall|i: int|
                        m < i < b.len() ==> is_digit(b[i]));
                assert(b[0] != ':');
                assert(t[bs as int] != ':');
                assert(false);
            }
        }
        return false;
    }
    let ghost f = k - bs;
    proof {
        assert(b[f] == ':');
    }
    if k + 1 == n - 1 {
        // The id would be empty.
        proof {
            if is_name_colon_id(b) {
                let m = choose|m: int|
                    1 <= m <= b.len() - 2 && b[m] == ':' && (forall|i: int|
                        0 <= i < m ==> b[i] != ':') && (forall|i: int|
                        m < i < b.len() ==> is_digit(b[i]));
                if m < f {
                    assert(t[bs + m] == ':');
                } else {
                    assert(b[f] != ':');
                }
                assert(false);
            }
        }
        return false;
    }
    // Every character of the id must be a digit.
    let mut q: usize = k + 1;
    while q < n - 1
        invariant
            k + 1 <= q <= n - 1,
            forall|i: int| k + 1 <= i < q ==> is_digit(t[i]),
        decreases n - 1 - q,
    {
        let c = p.get_char(q) as u32;
        if c < 48 || c > 57 {
            proof {
                if is_name_colon_id(b) {
                    let m = choose|m: int|
                        1 <= m <= b.len() - 2 && b[m] == ':' && (forall|i: int|
                            0 <= i < m ==> b[i] != ':') && (forall|i: int|
                            m < i < b.len() ==> is_digit(b[i]));
                    if m < f {
                        assert(t[bs + m] == ':');
                    } else if m > f {
                        assert(b[f] != ':');
                    }
                    assert(m == f);
                    assert(is_digit(b[q - bs]));
                    assert(false);
                }
            }
            return false;
        }
        q = q + 1;
    }
    proof {
        assert(1 <= f <= b.len() - 2 && b[f] == ':' && (forall|i: int|
            0 <= i < f ==> b[i] != ':') && (forall|i: int| f < i < b.len() ==> is_digit(b[i])));
        assert(is_name_colon_id(b));
        assert(inner[0] == t[1]);
        if bs == 3 {
            assert(inner[1] == t[2]);
        }
    }
    true
}

/// Does any whitespace-delimited piece of `title` form a custom-emoji
/// token?
#[verifier::loop_isolation(false)]
pub fn has_custom_emoji(title: &str) -> (r: bool)
    ensures
        r == has_emoji_piece(title@),
{
    let ghost s = title@;
    let n = title.unicode_len();
    let mut pos: usize = 0;
    while pos < n
        invariant
            0 <= pos <= n,
            pos == 0 || pos == n || s[pos - 1] == ' ' || s[pos as int] == ' ',
            forall|i: int, j: int|
                #![trigger piece_at(s, i, j)]
                piece_at(s, i, j) && i < pos ==> !is_emoji_token(s.subrange(i, j)),
        decreases n - pos,
    {
        if title.get_char(pos) == ' ' {
            proof {
                assert forall|i: int, j: int|
                    #![trigger piece_at(s, i, j)]
                    piece_at(s, i, j) && i < pos + 1 implies !is_emoji_token(
                    s.subrange(i, j),
                ) by {
                    if i == pos {
                        assert(s[i] != ' ');
                    }
                };
            }
            pos = pos + 1;
        } else {
            let mut end: usize = pos;
            while end < n && title.get_char(end) != ' '
                invariant
                    pos <= end <= n,
                    forall|k: int| pos <= k < end ==> s[k] != ' ',
                decreases n - end,
            {
                end = end + 1;
            }
            let piece = title.substring_char(pos, end);
            if is_emoji_piece(piece) {
                proof {
                    assert(piece_at(s, pos as int, end as int));
                    assert(is_emoji_token(s.subrange(pos as int, end as int)));
                }
                return true;
            }
            proof {
                assert forall|i: int, j: int|
                    #![trigger piece_at(s, i, j)]
                    piece_at(s, i, j) && i < end implies !is_emoji_token(s.subrange(i, j)) by {
                    if pos <= i {
                        if i > pos {
                            assert(s[i - 1] != ' ');
                        }
                        assert(i == pos);
                        if j < end {
                            assert(s[j] != ' ');
                        }
                        if j > end {
                            assert(s[end as int] != ' ');
                        }
                        assert(j == end);
                    }
                };
            }
            pos = end;
        }
    }
    proof {
        assert(!has_emoji_piece(s)) by {
            if has_emoji_piece(s) {
                let (i, j) = choose|i: int, j: int|
                    #![trigger piece_at(s, i, j)]
                    piece_at(s, i, j) && is_emoji_token(s.subrange(i, j));
                assert(i < pos);
                assert(!is_emoji_token(s.subrange(i, j)));
            }
        }
    }
    false
}

/// Validate a candidate title: trim surrounding spaces, then reject it
/// when nothing is left, when more than the maximum length remains, or
/// when a whitespace-delimited piece of it is a custom-emoji token; accept
/// the trimmed title otherwise.
pub fn validate_title(candidate: &str) -> (r: Result<String, TitleError>)
    ensures
        ({
            let t = trim_spaces(candidate@);
            match r {
                Ok(out) => out@ == t && 0 < t.len() <= MAX_TITLE_LENGTH && !has_emoji_piece(t),
                Err(e) => match e {
                    TitleError::Empty => t.len() == 0,
                    TitleError::TooLong => t.len() > MAX_TITLE_LENGTH,
                    TitleError::ContainsCustomEmoji => 0 < t.len() <= MAX_TITLE_LENGTH
                        && has_emoji_piece(t),
                },
            }
        }),
{
    let t = trimmed(candidate);
    let len = t.as_str().unicode_len();
    if len == 0 {
        return Err(TitleError::Empty);
    }
    if len > MAX_TITLE_LENGTH {
        return Err(TitleError::TooLong);
    }
    if has_custom_emoji(t.as_str()) {
        return Err(TitleError::ContainsCustomEmoji);
    }
    Ok(t)
}

} // verus!
