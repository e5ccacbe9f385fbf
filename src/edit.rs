use vstd::prelude::*;
use vstd::string::*;

verus! {

/// The character has the Unicode `White_Space` property.
pub open spec fn is_white_space(c: char) -> bool {
    let u = c as u32;
    (0x9 <= u <= 0xD) || u == 0x20 || u == 0x85 || u == 0xA0 || u == 0x1680
        || (0x2000 <= u <= 0x200A) || u == 0x2028 || u == 0x2029 || u == 0x202F
        || u == 0x205F || u == 0x3000
}

pub fn white_space(c: char) -> (r: bool)
    ensures
        r == is_white_space(c),
{
    let u = c as u32;
    (0x9 <= u && u <= 0xD) || u == 0x20 || u == 0x85 || u == 0xA0 || u == 0x1680
        || (0x2000 <= u && u <= 0x200A) || u == 0x2028 || u == 0x2029 || u == 0x202F
        || u == 0x205F || u == 0x3000
}

/// The index of the last character before `end` that is white space
/// (`want`) or is not (`!want`); -1 where there is none.
pub open spec fn last_before(s: Seq<char>, end: int, want: bool) -> int
    decreases end,
{
    if end <= 0 {
        -1
    } else if is_white_space(s[end - 1]) == want {
        end - 1
    } else {
        last_before(s, end - 1, want)
    }
}

/// The span, as start and length in characters, that deleting the word
/// before the cursor at `cursor` removes from `s`. Back from the cursor to
/// the last white space before it; from there, back over the white space
/// that precedes it, up to the last other character. With no white space
/// before the cursor, everything before it.
pub open spec fn word_span(s: Seq<char>, cursor: int) -> (int, int) {
    let p = last_before(s, cursor, true);
    if p < 0 {
        (0, cursor)
    } else {
        let q = last_before(s, p, false);
        if q < 0 {
            (p, cursor - p)
        } else {
            (q + 1, cursor - q - 1)
        }
    }
}

proof fn lemma_last_before_range(s: Seq<char>, end: int, want: bool)
    ensures
        -1 <= last_before(s, end, want) < end || (end <= 0 && last_before(s, end, want) == -1),
    decreases end,
{
    if end > 0 {
        lemma_last_before_range(s, end - 1, want);
    }
}

/// Searches `text` back from `end` for the last character that is white
/// space (`want`) or is not (`!want`).
fn find_last_before(text: &str, end: usize, want: bool) -> (r: Option<usize>)
    requires
        end <= text@.len(),
    ensures
        match r {
            Some(i) => i == last_before(text@, end as int, want),
            None => last_before(text@, end as int, want) == -1,
        },
{
    let mut k: usize = end;
    while k > 0
        invariant
            k <= end <= text@.len(),
            last_before(text@, end as int, want) == last_before(text@, k as int, want),
        decreases k,
    {
        let c = text.get_char(k - 1);
        if white_space(c) == want {
            return Some(k - 1);
        }
        k = k - 1;
    }
    None
}

/// The span, as start and length in characters, that deleting the word
/// before the cursor removes from `text`; `cursor_position` counts
/// characters.
pub fn delete_word_backwards(text: &str, cursor_position: usize) -> (r: (usize, usize))
    requires
        cursor_position <= text@.len(),
    ensures
        (r.0 as int, r.1 as int) == word_span(text@, cursor_position as int),
        r.0 + r.1 == cursor_position,
{
    match find_last_before(text, cursor_position, true) {
        None => (0, cursor_position),
        Some(position) => {
            proof {
                lemma_last_before_range(text@, cursor_position as int, true);
            }
            match find_last_before(text, position, false) {
                Some(q) => {
                    proof {
                        lemma_last_before_range(text@, position as int, false);
                    }
                    (q + 1, cursor_position - q - 1)
                },
                None => (position, cursor_position - position),
            }
        },
    }
}

} // verus!
