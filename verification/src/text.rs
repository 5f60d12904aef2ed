use vstd::prelude::*;
use vstd::string::*;

verus! {

/// The characters with Unicode's `White_Space` property.
pub open spec fn is_white_space(c: char) -> bool {
    let v = c as u32;
    ||| 0x09 <= v <= 0x0D
    ||| v == 0x20
    ||| v == 0x85
    ||| v == 0xA0
    ||| v == 0x1680
    ||| 0x2000 <= v <= 0x200A
    ||| v == 0x2028
    ||| v == 0x2029
    ||| v == 0x202F
    ||| v == 0x205F
    ||| v == 0x3000
}

/// A text is blank when nothing is left of it once surrounding white space is
/// trimmed: every character in it is white space.
pub open spec fn is_blank_text(s: Seq<char>) -> bool {
    forall|i: int| 0 <= i < s.len() ==> #[trigger] is_white_space(s[i])
}

/// `char::is_whitespace`, which std documents as true exactly for the
/// characters with the `White_Space` property.
#[verifier::external_body]
fn char_is_whitespace(c: char) -> (r: bool)
    ensures
        r == is_white_space(c),
{
    c.is_whitespace()
}

/// Whether `s` is empty after trimming white space from both ends.
pub fn is_blank(s: &str) -> (r: bool)
    ensures
        r == is_blank_text(s@),
{
    for c in it: s.chars()
        invariant
            it.seq() == s@,
            forall|i: int| 0 <= i < it.index() ==> #[trigger] is_white_space(s@[i]),
    {
        if !char_is_whitespace(c) {
            return false;
        }
    }
    true
}

/// Position of the first comma in `s`, or its length when it holds none.
pub open spec fn comma_index(s: Seq<char>) -> nat
    decreases s.len(),
{
    if s.len() == 0 {
        0
    } else if s[0] == ',' {
        0
    } else {
        1 + comma_index(s.drop_first())
    }
}

/// What `split(',').next()` yields: the text before the first comma, or the
/// whole text when it holds none.
pub open spec fn first_segment(s: Seq<char>) -> Seq<char> {
    s.take(comma_index(s) as int)
}

proof fn lemma_comma_index(s: Seq<char>, j: int)
    requires
        0 <= j <= s.len(),
        forall|k: int| 0 <= k < j ==> s[k] != ',',
        j == s.len() || s[j] == ',',
    ensures
        comma_index(s) == j,
    decreases s.len(),
{
    if s.len() > 0 && j > 0 {
        assert(s[0] != ',');
        assert forall|k: int| 0 <= k < j - 1 implies s.drop_first()[k] != ',' by {
            assert(s.drop_first()[k] == s[k + 1]);
        }
        lemma_comma_index(s.drop_first(), j - 1);
    }
}

/// The text of `s` before its first comma (all of `s` if there is none).
pub fn first_segment_of(s: &str) -> (r: String)
    ensures
        r@ == first_segment(s@),
{
    let len: usize = s.unicode_len();
    let mut idx: usize = 0;
    for c in it: s.chars()
        invariant_except_break
            it.seq() == s@,
            len == s@.len(),
            idx == it.index(),
            forall|k: int| 0 <= k < idx ==> s@[k] != ',',
        ensures
            it.seq() == s@,
            idx <= s@.len(),
            forall|k: int| 0 <= k < idx ==> s@[k] != ',',
            idx == s@.len() || s@[idx as int] == ',',
    {
        if c == ',' {
            break;
        }
        idx = idx + 1;
    }
    proof {
        lemma_comma_index(s@, idx as int);
    }
    String::from_str(s.substring_char(0, idx))
}

/// The first comma comes at `comma_index(s)`, after no other comma.
pub proof fn lemma_comma_index_bounds(s: Seq<char>)
    ensures
        comma_index(s) <= s.len(),
        forall|k: int| 0 <= k < comma_index(s) ==> s[k] != ',',
        comma_index(s) == s.len() || s[comma_index(s) as int] == ',',
    decreases s.len(),
{
    if s.len() > 0 && s[0] != ',' {
        lemma_comma_index_bounds(s.drop_first());
        assert forall|k: int| 0 <= k < comma_index(s) implies s[k] != ',' by {
            if k > 0 {
                assert(s[k] == s.drop_first()[k - 1]);
            }
        }
        if comma_index(s) < s.len() {
            assert(s[comma_index(s) as int] == s.drop_first()[comma_index(s.drop_first()) as int]);
        }
    }
}

} // verus!
