//! Small helpers on text.
use vstd::prelude::*;

verus! {

/// The characters of the text.
pub fn characters(text: &str) -> (chars: Vec<char>)
    ensures
        chars@ == text@,
{
    let mut chars: Vec<char> = Vec::new();
    for c in iter: text.chars()
        invariant
            iter.seq() == text@,
            chars@ == text@.take(iter.index()),
    {
        chars.push(c);
    }
    chars
}

/// Whether both texts have the same characters.
pub fn same_text(a: &str, b: &str) -> (same: bool)
    ensures
        same == (a@ == b@),
{
    a.to_owned() == b.to_owned()
}

/// An upper-case letter of the ASCII alphabet.
pub open spec fn ascii_upper(c: char) -> bool {
    'A' as u32 <= c as u32 <= 'Z' as u32
}

/// The characters are equal up to the case of ASCII letters.
pub open spec fn same_letter(a: char, b: char) -> bool {
    ||| a == b
    ||| ascii_upper(a) && b as u32 == a as u32 + 32
    ||| ascii_upper(b) && a as u32 == b as u32 + 32
}

/// The texts are equal up to the case of ASCII letters.
pub open spec fn same_letters(a: Seq<char>, b: Seq<char>) -> bool {
    a.len() == b.len() && forall|i: int| 0 <= i < a.len() ==> same_letter(#[trigger] a[i], b[i])
}

/// Whether both texts are equal up to the case of ASCII letters.
pub fn equals_ignoring_ascii_case(a: &str, b: &str) -> (same: bool)
    ensures
        same == same_letters(a@, b@),
{
    let first = characters(a);
    let second = characters(b);
    if first.len() != second.len() {
        return false;
    }
    let mut i: usize = 0;
    while i < first.len()
        invariant
            first.len() == second.len(),
            first@ == a@,
            second@ == b@,
            i <= first.len(),
            forall|k: int| 0 <= k < i ==> same_letter(#[trigger] a@[k], b@[k]),
        decreases first.len() - i,
    {
        let x: u32 = first[i] as u32;
        let y: u32 = second[i] as u32;
        let same = first[i] == second[i] || (0x41 <= x && x <= 0x5a && y == x + 32) || (0x41 <= y
            && y <= 0x5a && x == y + 32);
        if !same {
            assert(!same_letter(a@[i as int], b@[i as int]));
            return false;
        }
        i += 1;
    }
    true
}

/// A character of Unicode's `White_Space` property.
pub open spec fn white_space(c: char) -> bool {
    let code = c as u32;
    ||| 0x09 <= code <= 0x0d
    ||| code == 0x20
    ||| code == 0x85
    ||| code == 0xa0
    ||| code == 0x1680
    ||| 0x2000 <= code <= 0x200a
    ||| code == 0x2028
    ||| code == 0x2029
    ||| code == 0x202f
    ||| code == 0x205f
    ||| code == 0x3000
}

pub fn is_white_space(c: char) -> (white: bool)
    ensures
        white == white_space(c),
{
    let code: u32 = c as u32;
    (0x09 <= code && code <= 0x0d) || code == 0x20 || code == 0x85 || code == 0xa0 || code == 0x1680
        || (0x2000 <= code && code <= 0x200a) || code == 0x2028 || code == 0x2029 || code == 0x202f
        || code == 0x205f || code == 0x3000
}

/// The words that white space has ended, and the one that is still open.
pub open spec fn split_words(text: Seq<char>) -> (Seq<Seq<char>>, Seq<char>)
    decreases text.len(),
{
    if text.len() == 0 {
        (seq![], seq![])
    } else {
        let (ended, open_word) = split_words(text.drop_last());
        if !white_space(text.last()) {
            (ended, open_word.push(text.last()))
        } else if open_word.len() > 0 {
            (ended.push(open_word), seq![])
        } else {
            (ended, open_word)
        }
    }
}

/// The words of a text: its longest runs of characters that are no white space.
pub open spec fn words(text: Seq<char>) -> Seq<Seq<char>> {
    let (ended, open_word) = split_words(text);
    if open_word.len() > 0 {
        ended.push(open_word)
    } else {
        ended
    }
}

/// The texts as sequences of characters.
pub open spec fn texts(strings: Seq<String>) -> Seq<Seq<char>> {
    strings.map_values(|string: String| string@)
}

/// Appends the words of a text.
pub fn append_words(list: &mut Vec<String>, text: &str)
    ensures
        texts(final(list)@) == texts(old(list)@) + words(text@),
{
    let chars = characters(text);
    let ghost before = texts(list@);
    let mut word = String::new();
    let mut length: usize = 0;
    let mut i: usize = 0;
    assert(text@.take(0) =~= seq![]);
    while i < chars.len()
        invariant
            chars@ == text@,
            i <= chars.len(),
            length <= i,
            length == word@.len(),
            word@ == split_words(text@.take(i as int)).1,
            texts(list@) =~= before + split_words(text@.take(i as int)).0,
        decreases chars.len() - i,
    {
        assert(text@.take(i + 1).drop_last() =~= text@.take(i as int));
        let c: char = chars[i];
        if !is_white_space(c) {
            word.push(c);
            length += 1;
        } else if length > 0 {
            let ghost pushed = texts(list@).push(word@);
            list.push(word);
            assert(texts(list@) =~= pushed);
            word = String::new();
            length = 0;
        }
        i += 1;
    }
    assert(text@.take(text@.len() as int) =~= text@);
    if length > 0 {
        let ghost pushed = texts(list@).push(word@);
        list.push(word);
        assert(texts(list@) =~= pushed);
    }
}

/// The text holds no white space.
pub open spec fn unbroken(text: Seq<char>) -> bool {
    forall|k: int| 0 <= k < text.len() ==> !white_space(#[trigger] text[k])
}

/// No word is empty or holds white space.
pub proof fn law_words_hold_no_white_space(text: Seq<char>, i: int)
    requires
        0 <= i < words(text).len(),
    ensures
        words(text)[i].len() > 0,
        unbroken(words(text)[i]),
{
    lemma_split_words(text);
}

proof fn lemma_split_words(text: Seq<char>)
    ensures
        unbroken(split_words(text).1),
        forall|i: int|
            0 <= i < split_words(text).0.len() ==> (#[trigger] split_words(text).0[i]).len() > 0
                && unbroken(split_words(text).0[i]),
    decreases text.len(),
{
    if text.len() > 0 {
        let front = text.drop_last();
        lemma_split_words(front);
        let (ended, open_word) = split_words(front);
        if !white_space(text.last()) {
            assert(unbroken(open_word.push(text.last())));
        } else if open_word.len() > 0 {
            assert forall|i: int| 0 <= i < ended.push(open_word).len() implies (
            #[trigger] ended.push(open_word)[i]).len() > 0 && unbroken(
                ended.push(open_word)[i],
            ) by {
                if i < ended.len() {
                    assert(split_words(front).0[i].len() > 0);
                }
            }
        }
    }
}

/// The texts with a separator between them.
pub open spec fn joined(list: Seq<Seq<char>>, separator: Seq<char>) -> Seq<char>
    decreases list.len(),
{
    if list.len() == 0 {
        seq![]
    } else if list.len() == 1 {
        list[0]
    } else {
        joined(list.drop_last(), separator) + separator + list.last()
    }
}

/// Joins the texts with a separator between them.
pub fn join(list: &Vec<String>, separator: &str) -> (text: String)
    ensures
        text@ == joined(texts(list@), separator@),
{
    let mut text = String::new();
    let ghost all = texts(list@);
    let mut i: usize = 0;
    while i < list.len()
        invariant
            i <= list.len(),
            all == texts(list@),
            text@ == joined(all.take(i as int), separator@),
        decreases list.len() - i,
    {
        assert(all.take(i + 1).drop_last() =~= all.take(i as int));
        if i > 0 {
            text.append(separator);
        }
        text.append(list[i].as_str());
        assert(all.take(i + 1).last() == list@[i as int]@);
        assert(i == 0 ==> text@ =~= list@[0]@);
        i += 1;
    }
    assert(all.take(all.len() as int) =~= all);
    text
}

/// The texts in the order in which each first occurs.
pub open spec fn distinct(list: Seq<Seq<char>>) -> Seq<Seq<char>>
    decreases list.len(),
{
    if list.len() == 0 {
        seq![]
    } else if distinct(list.drop_last()).contains(list.last()) {
        distinct(list.drop_last())
    } else {
        distinct(list.drop_last()).push(list.last())
    }
}

/// Whether the list holds the text.
pub fn holds_text(list: &Vec<String>, text: &str) -> (found: bool)
    ensures
        found == texts(list@).contains(text@),
{
    let mut i: usize = 0;
    while i < list.len()
        invariant
            i <= list.len(),
            forall|k: int| 0 <= k < i ==> #[trigger] texts(list@)[k] != text@,
        decreases list.len() - i,
    {
        if same_text(list[i].as_str(), text) {
            assert(texts(list@)[i as int] == text@);
            return true;
        }
        assert(texts(list@)[i as int] != text@);
        i += 1;
    }
    false
}

/// The text in upper case, by the rules of Unicode.
pub uninterp spec fn uppercased(text: Seq<char>) -> Seq<char>;

/// `str::to_uppercase` of the standard library: the upper-case equivalent of
/// the text, which depends on the text alone. Which characters it holds is not
/// said.
#[verifier::external_body]
pub(crate) fn uppercase(text: &str) -> (upper: String)
    ensures
        upper@ == uppercased(text@),
{
    text.to_uppercase()
}

/// `String::from_utf8` of the standard library: the text that the bytes encode,
/// exactly if they are valid UTF-8.
#[verifier::external_body]
pub(crate) fn utf8_text(bytes: Vec<u8>) -> (text: Option<String>)
    ensures
        match text {
            Some(text) => vstd::utf8::valid_utf8(bytes@) && vstd::utf8::encode_utf8(text@)
                == bytes@,
            None => !vstd::utf8::valid_utf8(bytes@),
        },
{
    String::from_utf8(bytes).ok()
}

/// `String::push` of the standard library: it appends the given character to
/// the end of the string.
pub assume_specification[ String::push ](text: &mut String, c: char)
    ensures
        final(text)@ == old(text)@.push(c),
;

/// A character is equal to another up to case exactly if both have the same code
/// once the capital letters of the ASCII alphabet are moved to the small ones.
pub proof fn law_case_is_all_that_may_differ(a: char, b: char)
    ensures
        same_letter(a, b) <==> {
            let small_a = if 65 <= a as int <= 90 {
                a as int + 32
            } else {
                a as int
            };
            let small_b = if 65 <= b as int <= 90 {
                b as int + 32
            } else {
                b as int
            };
            small_a == small_b
        },
{
}

/// Within ASCII, white space is the space and the five characters from the tab to
/// the carriage return.
pub proof fn law_ascii_white_space(c: char)
    requires
        (c as u32) < 0x80,
    ensures
        white_space(c) <==> c as u32 == 0x20 || 0x09 <= c as u32 <= 0x0d,
{
}

proof fn lemma_split_unbroken(text: Seq<char>)
    requires
        unbroken(text),
    ensures
        split_words(text) == (Seq::<Seq<char>>::empty(), text),
    decreases text.len(),
{
    if text.len() > 0 {
        let front = text.drop_last();
        assert forall|k: int| 0 <= k < front.len() implies !white_space(#[trigger] front[k]) by {
            assert(!white_space(text[k]));
        }
        lemma_split_unbroken(front);
        assert(!white_space(text[text.len() - 1]));
        assert(front.push(text.last()) =~= text);
    }
}

/// A text without white space is a word by itself; an empty one has no words.
pub proof fn law_unbroken_texts_are_words(text: Seq<char>)
    requires
        unbroken(text),
    ensures
        text.len() == 0 ==> words(text).len() == 0,
        text.len() > 0 ==> words(text) == seq![text],
{
    lemma_split_unbroken(text);
    assert(Seq::<Seq<char>>::empty().push(text) =~= seq![text]);
}

/// White space parts a text: its words are those before it and those after it.
pub proof fn law_white_space_parts_texts(before: Seq<char>, c: char, after: Seq<char>)
    requires
        white_space(c),
    ensures
        words(before.push(c) + after) == words(before) + words(after),
{
    lemma_split_parted(before, c, after);
    let (ended, open_word) = split_words(after);
    assert(words(before.push(c) + after) =~= words(before) + words(after));
}

proof fn lemma_split_parted(before: Seq<char>, c: char, after: Seq<char>)
    requires
        white_space(c),
    ensures
        split_words(before.push(c) + after).0 == words(before) + split_words(after).0,
        split_words(before.push(c) + after).1 == split_words(after).1,
    decreases after.len(),
{
    let text = before.push(c) + after;
    if after.len() == 0 {
        assert(text =~= before.push(c));
        assert(text.drop_last() =~= before);
        assert(words(before) + Seq::<Seq<char>>::empty() =~= words(before));
    } else {
        let front = after.drop_last();
        lemma_split_parted(before, c, front);
        assert(text.drop_last() =~= before.push(c) + front);
        let (ended, open_word) = split_words(front);
        assert((words(before) + ended).push(open_word) =~= words(before) + ended.push(open_word));
    }
}

/// A single text is joined to itself, and lists of texts are joined by joining
/// each and putting one separator between them.
pub proof fn law_separators_stand_between(
    before: Seq<Seq<char>>,
    after: Seq<Seq<char>>,
    separator: Seq<char>,
)
    requires
        before.len() > 0,
        after.len() > 0,
    ensures
        before.len() == 1 ==> joined(before, separator) == before[0],
        joined(before + after, separator) == joined(before, separator) + separator + joined(
            after,
            separator,
        ),
    decreases after.len(),
{
    let all = before + after;
    assert(all.last() == after.last());
    if after.len() == 1 {
        assert(all.drop_last() =~= before);
    } else {
        let front = after.drop_last();
        law_separators_stand_between(before, front, separator);
        assert(all.drop_last() =~= before + front);
        assert(joined(all, separator) =~= joined(before, separator) + separator + joined(
            after,
            separator,
        ));
    }
}

/// The distinct texts are the first occurrences, in order.
pub proof fn law_texts_are_kept_once(list: Seq<Seq<char>>) -> (places: Seq<int>)
    ensures
        crate::selection::selects(
            places,
            list.len() as int,
            |i: int| crate::selection::first_occurrence(list, i),
        ),
        distinct(list).len() == places.len(),
        forall|k: int| 0 <= k < places.len() ==> #[trigger] distinct(list)[k] == list[places[k]],
    decreases list.len(),
{
    if list.len() == 0 {
        Seq::empty()
    } else {
        let front = list.drop_last();
        let n = front.len() as int;
        let before = law_texts_are_kept_once(front);
        crate::selection::lemma_first_occurrences(list);
        let places = crate::selection::lemma_select_next(
            before,
            n,
            |i: int| crate::selection::first_occurrence(front, i),
            |i: int| crate::selection::first_occurrence(list, i),
        );
        assert(distinct(front).contains(list.last()) <==> front.contains(list.last())) by {
            if distinct(front).contains(list.last()) {
                let k = choose|k: int|
                    0 <= k < distinct(front).len() && distinct(front)[k] == list.last();
                assert(front[before[k]] == list.last());
            }
            if front.contains(list.last()) {
                lemma_distinct_holds(front, list.last());
            }
        }
        assert forall|k: int| 0 <= k < places.len() implies #[trigger] distinct(list)[k]
            == list[places[k]] by {
            if k < before.len() {
                assert(distinct(front)[k] == front[before[k]]);
                assert(0 <= before[k] < n);
            }
        }
        places
    }
}

proof fn lemma_distinct_holds(list: Seq<Seq<char>>, text: Seq<char>)
    requires
        list.contains(text),
    ensures
        distinct(list).contains(text),
    decreases list.len(),
{
    let front = list.drop_last();
    if front.contains(text) {
        lemma_distinct_holds(front, text);
        let k = choose|k: int| 0 <= k < distinct(front).len() && distinct(front)[k] == text;
        assert(distinct(list)[k] == text);
    } else {
        let k = choose|k: int| 0 <= k < list.len() && list[k] == text;
        if k < front.len() {
            assert(front[k] == text);
        }
        if !distinct(front).contains(text) {
            assert(distinct(list)[distinct(front).len() as int] == text);
        }
    }
}

} // verus!
