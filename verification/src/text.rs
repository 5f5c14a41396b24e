//! Character-level operations on strings.

use vstd::prelude::*;

verus! {

/// `index` is the position of the first occurrence of `mark` in `text`.
pub open spec fn is_first_index(text: Seq<char>, mark: char, index: int) -> bool {
    &&& 0 <= index < text.len()
    &&& text[index] == mark
    &&& forall|j: int| 0 <= j < index ==> text[j] != mark
}

/// The position of the first occurrence of `mark` in `text`, if there is one.
pub open spec fn first_index(text: Seq<char>, mark: char) -> Option<int> {
    if text.contains(mark) {
        Some(choose|index: int| is_first_index(text, mark, index))
    } else {
        None
    }
}

/// A first occurrence is the one that `first_index` names.
pub proof fn lemma_first_index_unique(text: Seq<char>, mark: char, index: int)
    requires
        is_first_index(text, mark, index),
    ensures
        first_index(text, mark) == Some(index),
{
    assert(text.contains(mark));
    let chosen = choose|i: int| is_first_index(text, mark, i);
    assert(is_first_index(text, mark, chosen));
    if chosen < index {
        assert(text[chosen] != mark);
    } else if index < chosen {
        assert(text[index] != mark);
    }
}

/// Where `mark` occurs, `first_index` names its first occurrence.
pub proof fn lemma_first_index_found(text: Seq<char>, mark: char)
    requires
        text.contains(mark),
    ensures
        first_index(text, mark) is Some,
        is_first_index(text, mark, first_index(text, mark)->0),
{
    let some = choose|i: int| 0 <= i < text.len() && text[i] == mark;
    lemma_least_occurrence(text, mark, some);
}

proof fn lemma_least_occurrence(text: Seq<char>, mark: char, bound: int)
    requires
        0 <= bound < text.len(),
        text[bound] == mark,
    ensures
        exists|i: int| is_first_index(text, mark, i),
    decreases bound,
{
    if forall|j: int| 0 <= j < bound ==> text[j] != mark {
        assert(is_first_index(text, mark, bound));
    } else {
        let earlier = choose|j: int| 0 <= j < bound && text[j] == mark;
        lemma_least_occurrence(text, mark, earlier);
    }
}

/// `count` spaces.
pub open spec fn blanks(count: nat) -> Seq<char>
    decreases count,
{
    if count == 0 {
        Seq::empty()
    } else {
        blanks((count - 1) as nat) + " "@
    }
}

/// `text` begins with `prefix`.
pub open spec fn has_prefix(text: Seq<char>, prefix: Seq<char>) -> bool {
    prefix.len() <= text.len() && text.subrange(0, prefix.len() as int) == prefix
}

/// The text that `str::to_lowercase` makes of a text.
pub uninterp spec fn lowercase_of(text: Seq<char>) -> Seq<char>;

/// The text that `str::trim` leaves of a text.
pub uninterp spec fn trimmed(text: Seq<char>) -> Seq<char>;

/// `str::to_lowercase`: the text with each character replaced by its Unicode
/// lowercase form.
#[verifier::external_body]
pub(crate) fn lowercase(text: &str) -> (lowered: String)
    ensures
        lowered@ == lowercase_of(text@),
{
    text.to_lowercase()
}

/// `str::trim`: the text without its leading and trailing Unicode whitespace.
#[verifier::external_body]
pub(crate) fn trim<'a>(text: &'a str) -> (rest: &'a str)
    ensures
        rest@ == trimmed(text@),
{
    text.trim()
}

/// Whether two strings hold the same characters.
pub fn text_equal(left: &str, right: &str) -> (same: bool)
    ensures
        same == (left@ == right@),
{
    let length = left.unicode_len();
    if right.unicode_len() != length {
        return false;
    }
    let mut index: usize = 0;
    while index < length
        invariant
            index <= length,
            length == left@.len(),
            length == right@.len(),
            forall|j: int| 0 <= j < index ==> left@[j] == right@[j],
        decreases length - index,
    {
        if left.get_char(index) != right.get_char(index) {
            return false;
        }
        index += 1;
    }
    assert(left@ =~= right@);
    true
}

/// The position of the first occurrence of `mark` in `text`.
pub fn find_char(text: &str, mark: char) -> (found: Option<usize>)
    ensures
        match found {
            Some(index) => first_index(text@, mark) == Some(index as int),
            None => first_index(text@, mark) is None,
        },
{
    let length = text.unicode_len();
    let mut index: usize = 0;
    while index < length
        invariant
            index <= length,
            length == text@.len(),
            forall|j: int| 0 <= j < index ==> text@[j] != mark,
        decreases length - index,
    {
        if text.get_char(index) == mark {
            proof {
                lemma_first_index_unique(text@, mark, index as int);
            }
            return Some(index);
        }
        index += 1;
    }
    None
}

/// Whether `text` begins with `prefix`.
pub fn starts_with(text: &str, prefix: &str) -> (begins: bool)
    ensures
        begins == has_prefix(text@, prefix@),
{
    let length = prefix.unicode_len();
    if text.unicode_len() < length {
        return false;
    }
    let mut index: usize = 0;
    while index < length
        invariant
            index <= length,
            length == prefix@.len(),
            length <= text@.len(),
            forall|j: int| 0 <= j < index ==> text@[j] == prefix@[j],
        decreases length - index,
    {
        if text.get_char(index) != prefix.get_char(index) {
            assert(text@.subrange(0, length as int)[index as int] == text@[index as int]);
            return false;
        }
        index += 1;
    }
    assert(text@.subrange(0, length as int) =~= prefix@);
    true
}

/// A string of `count` spaces.
pub fn spaces(count: usize) -> (padding: String)
    ensures
        padding@ == blanks(count as nat),
{
    let mut padding = String::new();
    let mut made: usize = 0;
    while made < count
        invariant
            made <= count,
            padding@ == blanks(made as nat),
        decreases count - made,
    {
        padding.append(" ");
        made += 1;
    }
    padding
}

} // verus!
