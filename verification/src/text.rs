//! Small operations on texts.

use vstd::prelude::*;

verus! {

/// A text in kebab case: its words in lowercase, with hyphens between them.
pub uninterp spec fn kebab_text(text: Seq<char>) -> Seq<char>;

/// `heck::ToKebabCase::to_kebab_case`: the text in kebab case.
#[verifier::external_body]
pub(crate) fn kebab_case(text: &str) -> (kebab: String)
    ensures
        kebab@ == kebab_text(text@),
{
    heck::ToKebabCase::to_kebab_case(text)
}

/// The characters of each text of a list.
pub open spec fn texts(list: Seq<String>) -> Seq<Seq<char>> {
    list.map_values(|text: String| text@)
}

/// Whether two texts hold the same characters.
pub fn same_text(left: &str, right: &str) -> (same: bool)
    ensures
        same == (left@ == right@),
{
    left.to_owned() == right.to_owned()
}

/// A copy of a text.
pub fn copy_text(text: &String) -> (copy: String)
    ensures
        copy == *text,
        copy@ == text@,
{
    text.clone()
}

/// A copy of a text that may be absent.
pub fn copy_optional_text(text: &Option<String>) -> (copy: Option<String>)
    ensures
        copy == *text,
{
    match text {
        Some(text) => Some(text.clone()),
        None => None,
    }
}

/// A copy of a list of texts.
pub fn copy_texts(list: &Vec<String>) -> (copy: Vec<String>)
    ensures
        copy@ == list@,
{
    let mut copy: Vec<String> = Vec::new();
    let mut i: usize = 0;
    while i < list.len()
        invariant
            i <= list.len(),
            copy@ == list@.take(i as int),
        decreases list.len() - i,
    {
        copy.push(list[i].clone());
        assert(list@.take(i + 1) == list@.take(i as int).push(list@[i as int]));
        i += 1;
    }
    assert(list@.take(list.len() as int) == list@);
    copy
}

/// Two texts, one after the other.
pub fn join2(first: &str, second: &str) -> (joined: String)
    ensures
        joined@ == first@ + second@,
{
    String::from_str(first).concat(second)
}

/// Three texts, one after the other.
pub fn join3(first: &str, second: &str, third: &str) -> (joined: String)
    ensures
        joined@ == first@ + second@ + third@,
{
    String::from_str(first).concat(second).concat(third)
}

/// `String::push`: the text with one more character at its end.
#[verifier::external_body]
pub(crate) fn push_char(text: &mut String, c: char)
    ensures
        final(text)@ == old(text)@.push(c),
{
    text.push(c)
}

/// The pieces of a text between the occurrences of a separator. There is
/// one piece more than there are separators; a piece may be empty.
pub open spec fn pieces(text: Seq<char>, separator: char) -> Seq<Seq<char>>
    decreases text.len(),
{
    if text.len() == 0 {
        seq![Seq::empty()]
    } else {
        let before = pieces(text.drop_last(), separator);
        if text.last() == separator {
            before.push(Seq::empty())
        } else {
            before.update(before.len() - 1, before.last().push(text.last()))
        }
    }
}

/// Split a text at each occurrence of a separator.
pub fn split(text: &str, separator: char) -> (parts: Vec<String>)
    ensures
        texts(parts@) == pieces(text@, separator),
{
    let length = text.unicode_len();
    let mut parts: Vec<String> = Vec::new();
    let mut start: usize = 0;
    let mut i: usize = 0;
    assert(text@.take(0) =~= Seq::empty());
    assert(texts(parts@).push(text@.subrange(0, 0)) =~= seq![Seq::<char>::empty()]);
    while i < length
        invariant
            length == text@.len(),
            start <= i <= length,
            texts(parts@).push(text@.subrange(start as int, i as int)) == pieces(
                text@.take(i as int),
                separator,
            ),
        decreases length - i,
    {
        let ghost done = texts(parts@);
        let ghost current = text@.subrange(start as int, i as int);
        assert(text@.take(i + 1).drop_last() =~= text@.take(i as int));
        assert(text@.take(i + 1).last() == text@[i as int]);
        let c = text.get_char(i);
        if c == separator {
            parts.push(String::from_str(text.substring_char(start, i)));
            assert(texts(parts@) =~= done.push(current));
            start = i + 1;
            assert(text@.subrange(start as int, i + 1) =~= Seq::empty());
        } else {
            assert(text@.subrange(start as int, i + 1) =~= current.push(text@[i as int]));
            assert(done.push(current).update(done.len() as int, current.push(text@[i as int]))
                =~= done.push(current.push(text@[i as int])));
        }
        i += 1;
    }
    assert(text@.take(length as int) =~= text@);
    let ghost done = texts(parts@);
    parts.push(String::from_str(text.substring_char(start, length)));
    assert(texts(parts@) =~= done.push(text@.subrange(start as int, length as int)));
    parts
}

/// Whether a text begins with another.
pub fn starts_with(text: &str, prefix: &str) -> (yes: bool)
    ensures
        yes == prefix@.is_prefix_of(text@),
{
    let length = text.unicode_len();
    let wanted = prefix.unicode_len();
    if wanted > length {
        return false;
    }
    let head = text.substring_char(0, wanted);
    let yes = same_text(head, prefix);
    proof {
        if yes {
            assert(text@.subrange(0, wanted as int) == prefix@);
        }
        if prefix@.is_prefix_of(text@) {
            assert(text@.subrange(0, wanted as int) =~= prefix@);
        }
    }
    yes
}

/// The lowercase form of an ASCII capital letter; any other character is
/// left as it is.
pub open spec fn lower(c: char) -> char {
    if 'A' <= c <= 'Z' {
        ((c as u8) + 32) as char
    } else {
        c
    }
}

/// A text with its ASCII capital letters in lowercase.
pub open spec fn lowercase(text: Seq<char>) -> Seq<char> {
    text.map_values(|c: char| lower(c))
}

/// Turn the ASCII capital letters of a text into lowercase.
pub fn to_lowercase(text: &str) -> (lowered: String)
    ensures
        lowered@ == lowercase(text@),
{
    let length = text.unicode_len();
    let mut lowered = String::new();
    let mut i: usize = 0;
    while i < length
        invariant
            length == text@.len(),
            i <= length,
            lowered@ == lowercase(text@.take(i as int)),
        decreases length - i,
    {
        let c = text.get_char(i);
        let small = if 'A' <= c && c <= 'Z' {
            ((c as u8) + 32) as char
        } else {
            c
        };
        push_char(&mut lowered, small);
        assert(lowercase(text@.take(i + 1)) =~= lowercase(text@.take(i as int)).push(lower(c)));
        i += 1;
    }
    assert(text@.take(length as int) =~= text@);
    lowered
}

/// The texts of a list, one after the other, with a separator between each
/// two.
pub open spec fn joined(list: Seq<Seq<char>>, separator: Seq<char>) -> Seq<char>
    decreases list.len(),
{
    if list.len() == 0 {
        Seq::empty()
    } else if list.len() == 1 {
        list[0]
    } else {
        joined(list.drop_last(), separator) + separator + list.last()
    }
}

/// Join the texts of a list with a separator between each two.
pub fn join(list: &Vec<String>, separator: &str) -> (text: String)
    ensures
        text@ == joined(texts(list@), separator@),
{
    let mut text = String::new();
    let mut i: usize = 0;
    assert(texts(list@).take(0) =~= Seq::empty());
    while i < list.len()
        invariant
            i <= list@.len(),
            text@ == joined(texts(list@).take(i as int), separator@),
        decreases list@.len() - i,
    {
        assert(texts(list@).take(i + 1).drop_last() =~= texts(list@).take(i as int));
        assert(texts(list@).take(i + 1).last() == list@[i as int]@);
        if i > 0 {
            text.append(separator);
        } else {
            assert(text@ =~= Seq::empty());
        }
        text.append(list[i].as_str());
        i += 1;
    }
    assert(texts(list@).take(list@.len() as int) =~= texts(list@));
    text
}

/// Where a character first occurs in a text.
pub open spec fn position_of(text: Seq<char>, wanted: char) -> Option<int>
    decreases text.len(),
{
    if text.len() == 0 {
        None
    } else {
        match position_of(text.drop_last(), wanted) {
            Some(at) => Some(at),
            None => if text.last() == wanted {
                Some(text.len() - 1)
            } else {
                None
            },
        }
    }
}

/// A first occurrence within the beginning of a text is the first
/// occurrence in the text.
pub proof fn lemma_position_of_prefix(text: Seq<char>, wanted: char, upto: int, at: int)
    requires
        0 <= upto <= text.len(),
        position_of(text.take(upto), wanted) == Some(at),
    ensures
        position_of(text, wanted) == Some(at),
    decreases text.len() - upto,
{
    if upto < text.len() {
        assert(text.take(upto + 1).drop_last() =~= text.take(upto));
        lemma_position_of_prefix(text, wanted, upto + 1, at);
    } else {
        assert(text.take(upto) =~= text);
    }
}

/// Find the first occurrence of a character in a text.
pub fn find_char(text: &str, wanted: char) -> (found: Option<usize>)
    ensures
        found is Some == position_of(text@, wanted) is Some,
        found matches Some(at) ==> position_of(text@, wanted) == Some(at as int) && at
            < text@.len() && text@[at as int] == wanted,
{
    let length = text.unicode_len();
    let mut i: usize = 0;
    assert(text@.take(0) =~= Seq::empty());
    while i < length
        invariant
            length == text@.len(),
            i <= length,
            position_of(text@.take(i as int), wanted) is None,
        decreases length - i,
    {
        assert(text@.take(i + 1).drop_last() =~= text@.take(i as int));
        assert(text@.take(i + 1).last() == text@[i as int]);
        if text.get_char(i) == wanted {
            proof {
                lemma_position_of_prefix(text@, wanted, i + 1, i as int);
            }
            return Some(i);
        }
        i += 1;
    }
    assert(text@.take(length as int) =~= text@);
    None
}

/// Whether two byte strings are equal.
pub fn same_bytes(left: &[u8], right: &[u8]) -> (same: bool)
    ensures
        same == (left@ == right@),
{
    if left.len() != right.len() {
        return false;
    }
    let mut i: usize = 0;
    while i < left.len()
        invariant
            left@.len() == right@.len(),
            i <= left@.len(),
            forall|j: int| 0 <= j < i ==> left@[j] == right@[j],
        decreases left@.len() - i,
    {
        if left[i] != right[i] {
            return false;
        }
        i += 1;
    }
    assert(left@ =~= right@);
    true
}

/// The texts of a list that are not empty, in their order.
pub open spec fn nonempty(list: Seq<Seq<char>>) -> Seq<Seq<char>>
    decreases list.len(),
{
    if list.len() == 0 {
        Seq::empty()
    } else {
        let before = nonempty(list.drop_last());
        if list.last().len() > 0 {
            before.push(list.last())
        } else {
            before
        }
    }
}

/// The words of a text: what stands between its spaces.
pub open spec fn words(text: Seq<char>) -> Seq<Seq<char>> {
    nonempty(pieces(text, ' '))
}

/// Split a text into its words.
pub fn split_words(text: &str) -> (list: Vec<String>)
    ensures
        texts(list@) == words(text@),
{
    let parts = split(text, ' ');
    let mut list: Vec<String> = Vec::new();
    let mut i: usize = 0;
    assert(texts(parts@).take(0) =~= Seq::empty());
    assert(texts(list@) =~= Seq::empty());
    while i < parts.len()
        invariant
            i <= parts@.len(),
            texts(list@) == nonempty(texts(parts@).take(i as int)),
        decreases parts@.len() - i,
    {
        let ghost before = texts(list@);
        assert(texts(parts@).take(i + 1).drop_last() =~= texts(parts@).take(i as int));
        assert(texts(parts@).take(i + 1).last() == parts@[i as int]@);
        if parts[i].as_str().unicode_len() > 0 {
            list.push(copy_text(&parts[i]));
            assert(texts(list@) =~= before.push(parts@[i as int]@));
        }
        i += 1;
    }
    assert(texts(parts@).take(parts@.len() as int) =~= texts(parts@));
    list
}

/// Whether a text is in a list.
pub fn has_text(list: &Vec<String>, wanted: &str) -> (yes: bool)
    ensures
        yes == texts(list@).contains(wanted@),
{
    let mut i: usize = 0;
    while i < list.len()
        invariant
            i <= list@.len(),
            forall|j: int| 0 <= j < i ==> texts(list@)[j] != wanted@,
        decreases list@.len() - i,
    {
        if same_text(list[i].as_str(), wanted) {
            assert(texts(list@)[i as int] == wanted@);
            return true;
        }
        i += 1;
    }
    false
}

/// The characters that are no line feed.
pub open spec fn no_line_feed() -> spec_fn(char) -> bool {
    |c: char| c != '\n'
}

/// A text without its line feeds: what is kept of a line that was typed.
pub fn without_line_feeds(text: &str) -> (kept: String)
    ensures
        kept@ == text@.filter(no_line_feed()),
{
    let length = text.unicode_len();
    let mut kept = String::new();
    let mut i: usize = 0;
    proof {
        reveal(Seq::filter);
        assert(text@.take(0) =~= Seq::empty());
    }
    while i < length
        invariant
            length == text@.len(),
            i <= length,
            kept@ == text@.take(i as int).filter(no_line_feed()),
        decreases length - i,
    {
        proof {
            crate::table::lemma_filter_step(text@, no_line_feed(), i as int);
        }
        let c = text.get_char(i);
        if c != '\n' {
            push_char(&mut kept, c);
        }
        i += 1;
    }
    assert(text@.take(length as int) =~= text@);
    kept
}

} // verus!
