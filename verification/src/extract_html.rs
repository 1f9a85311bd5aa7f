//! Extraction of the text that stands between two markers.
use vstd::prelude::*;
use crate::text::{matches_at, chars_of, find, find_exec, lemma_find_from, starts_with, ends_with, sub_vec};
use vstd::string::*;

verus! {

/// The characters `<p>`.
pub open spec fn paragraph_open() -> Seq<char> {
    seq!['<', 'p', '>']
}

/// The characters `</p>`.
pub open spec fn paragraph_close() -> Seq<char> {
    seq!['<', '/', 'p', '>']
}

/// `v` without a surrounding `<p>` ... `</p>` pair, where it has one.
pub open spec fn strip_paragraph(v: Seq<char>) -> Seq<char> {
    if starts_with(v, paragraph_open()) && ends_with(v, paragraph_close()) {
        v.subrange(3, v.len() - 4)
    } else {
        v
    }
}

/// The text of `s` between the first `start` and the first `end` after it, without a
/// surrounding paragraph; empty when either marker is missing.
pub open spec fn extract_spec(s: Seq<char>, start: Seq<char>, end: Seq<char>) -> Seq<char> {
    match find(s, start) {
        None => Seq::empty(),
        Some(ps) => {
            let rest = s.subrange(ps + start.len(), s.len() as int);
            match find(rest, end) {
                None => Seq::empty(),
                Some(pe) => strip_paragraph(rest.subrange(0, pe)),
            }
        },
    }
}

/// Given an input str, a start pattern & an end pattern extracts & returns the str, if any,
/// between the two.
/// If either the start pattern or the end pattern is not found, returns an empty str.
/// If the return pattern starts with "\<p>" & ends with "\</p>", these are removed.
pub fn extract<'a>(input_str: &'a str, start: &str, end: &str) -> (r: &'a str)
    ensures
        r@ == extract_spec(input_str@, start@, end@),
{
    let s = chars_of(input_str);
    let sp = chars_of(start);
    let ep = chars_of(end);
    let found_start = find_exec(&s, &sp);
    if found_start.is_none() {
        return input_str.substring_char(0, 0);
    }
    let position_start = found_start.unwrap();
    assert(find(s@, sp@) == Some(position_start as int));
    proof {
        lemma_find_from(s@, sp@, 0);
        assert(matches_at(s@, sp@, position_start as int));
    }
    assert(position_start + sp@.len() <= s@.len());
    let s_len = s.len();
    let offset = position_start + sp.len();
    let rest = sub_vec(&s, offset, s_len);
    let found_end = find_exec(&rest, &ep);
    if found_end.is_none() {
        return input_str.substring_char(0, 0);
    }
    let position_end = found_end.unwrap();
    assert(find(rest@, ep@) == Some(position_end as int));
    proof {
        lemma_find_from(rest@, ep@, 0);
        assert(matches_at(rest@, ep@, position_end as int));
    }
    let ghost v = rest@.subrange(0, position_end as int);
    assert(v =~= s@.subrange(offset as int, offset + position_end));
    let starts = position_end >= 3 && s[offset] == '<' && s[offset + 1] == 'p' && s[offset + 2] == '>';
    let ends = position_end >= 4 && s[offset + position_end - 4] == '<' && s[offset + position_end - 3] == '/'
        && s[offset + position_end - 2] == 'p' && s[offset + position_end - 1] == '>';
    assert(starts == starts_with(v, paragraph_open())) by {
        if starts {
            assert(v.subrange(0, 3) =~= paragraph_open());
        }
        if starts_with(v, paragraph_open()) {
            assert(v.subrange(0, 3)[0] == '<');
            assert(v.subrange(0, 3)[1] == 'p');
            assert(v.subrange(0, 3)[2] == '>');
        }
    }
    assert(ends == ends_with(v, paragraph_close())) by {
        if ends {
            assert(v.subrange(v.len() - 4, v.len() as int) =~= paragraph_close());
        }
        if ends_with(v, paragraph_close()) {
            let t = v.subrange(v.len() - 4, v.len() as int);
            assert(t[0] == '<' && t[1] == '/' && t[2] == 'p' && t[3] == '>');
        }
    }
    if starts && ends {
        assert(position_end >= 7) by {
            if position_end < 7 {
                assert(s@[offset + position_end - 4] == '<');
            }
        }
        let r = input_str.substring_char(offset + 3, offset + position_end - 4);
        assert(r@ =~= extract_spec(input_str@, start@, end@));
        r
    } else {
        let r = input_str.substring_char(offset, offset + position_end);
        assert(r@ =~= extract_spec(input_str@, start@, end@));
        r
    }
}

} // verus!
