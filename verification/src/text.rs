//! Rendering of values as text, and the transcript that the demonstrations
//! write their lines to.
use vstd::prelude::*;
use vstd::string::*;

verus! {

/// `String::push` appends one character to the end of the string and leaves
/// the characters before it as they were.
pub assume_specification[ String::push ](s: &mut String, ch: char)
    ensures
        final(s)@ == old(s)@.push(ch),
;

/// `String::clear` removes all the characters and leaves the empty string.
pub assume_specification[ String::clear ](s: &mut String)
    ensures
        final(s)@ == Seq::<char>::empty(),
;

/// The character that stands for the digit `d`.
pub open spec fn digit(d: nat) -> char {
    (48 + d) as char
}

/// The decimal numeral of a natural number, without leading zeros.
pub open spec fn decimal(n: nat) -> Seq<char>
    decreases n,
{
    if n < 10 {
        seq![digit(n)]
    } else {
        decimal(n / 10).push(digit(n % 10))
    }
}

/// The decimal numeral of an integer, with a minus sign before a negative one.
pub open spec fn integer(i: int) -> Seq<char> {
    if i < 0 {
        seq!['-'] + decimal((-i) as nat)
    } else {
        decimal(i as nat)
    }
}

/// The items in order, with `separator` between each two neighbours.
pub open spec fn joined(items: Seq<Seq<char>>, separator: Seq<char>) -> Seq<char>
    decreases items.len(),
{
    if items.len() == 0 {
        Seq::empty()
    } else if items.len() == 1 {
        items[0]
    } else {
        joined(items.drop_last(), separator) + separator + items.last()
    }
}

/// The items as a bracketed list: `[a, b, c]`.
pub open spec fn list(items: Seq<Seq<char>>) -> Seq<char> {
    seq!['['] + joined(items, seq![',', ' ']) + seq![']']
}

/// The numerals of the values, one item each.
pub open spec fn numerals(values: Seq<i32>) -> Seq<Seq<char>> {
    values.map_values(|v: i32| integer(v as int))
}

/// The values as a bracketed list of numerals: `[1, 2, 3]`.
pub open spec fn number_list(values: Seq<i32>) -> Seq<char> {
    list(numerals(values))
}

/// Appends the numeral of `n`.
pub fn push_unsigned(s: &mut String, n: u64)
    ensures
        final(s)@ == old(s)@ + decimal(n as nat),
    decreases n,
{
    if n >= 10 {
        push_unsigned(s, n / 10);
    }
    let d: u8 = (n % 10) as u8;
    s.push((48u8 + d) as char);
    assert(s@ =~= old(s)@ + decimal(n as nat));
}

/// Appends the numeral of `i`.
pub fn push_integer(s: &mut String, i: i64)
    ensures
        final(s)@ == old(s)@ + integer(i as int),
{
    if i < 0 {
        s.push('-');
        let magnitude: u64 = (-(i as i128)) as u64;
        push_unsigned(s, magnitude);
        assert(s@ =~= old(s)@ + integer(i as int));
    } else {
        push_unsigned(s, i as u64);
    }
}

/// Appends the items, with `separator` between each two neighbours.
pub fn push_joined(s: &mut String, items: &Vec<String>, separator: &str)
    ensures
        final(s)@ == old(s)@ + joined(items.deep_view(), separator@),
{
    let mut k: usize = 0;
    while k < items.len()
        invariant
            k <= items.len(),
            s@ == old(s)@ + joined(items.deep_view().take(k as int), separator@),
        decreases items.len() - k,
    {
        if k > 0 {
            s.append(separator);
        }
        s.append(items[k].as_str());
        proof {
            let done = items.deep_view().take(k as int);
            let next = items.deep_view().take(k + 1);
            assert(next.drop_last() =~= done);
            assert(next.last() == items[k as int]@);
            assert(s@ =~= old(s)@ + joined(next, separator@));
        }
        k += 1;
    }
    assert(items.deep_view().take(k as int) =~= items.deep_view());
}

/// Appends the items as a bracketed list.
pub fn push_list(s: &mut String, items: &Vec<String>)
    ensures
        final(s)@ == old(s)@ + list(items.deep_view()),
{
    s.push('[');
    push_joined(s, items, ", ");
    s.push(']');
    proof {
        reveal_strlit(", ");
        assert(", "@ =~= seq![',', ' ']);
        assert(s@ =~= old(s)@ + list(items.deep_view()));
    }
}

/// The numerals of the values, one item each.
pub fn numerals_of(values: &[i32]) -> (items: Vec<String>)
    ensures
        items.deep_view() == numerals(values@),
{
    let mut items: Vec<String> = Vec::new();
    let mut k: usize = 0;
    while k < values.len()
        invariant
            k <= values.len(),
            items.len() == k,
            forall|j: int| 0 <= j < k ==> (#[trigger] items[j])@ == integer(values[j] as int),
        decreases values.len() - k,
    {
        let mut item = String::new();
        push_integer(&mut item, values[k] as i64);
        items.push(item);
        k += 1;
    }
    assert(items.deep_view() =~= numerals(values@));
    items
}

/// Appends the values as a bracketed list of numerals.
pub fn push_numbers(s: &mut String, values: &[i32])
    ensures
        final(s)@ == old(s)@ + number_list(values@),
{
    let items = numerals_of(values);
    push_list(s, &items);
}

/// How a truth value is written.
pub open spec fn truth(b: bool) -> Seq<char> {
    if b {
        "true"@
    } else {
        "false"@
    }
}

/// Appends `true` or `false`.
pub fn push_truth(s: &mut String, b: bool)
    ensures
        final(s)@ == old(s)@ + truth(b),
{
    if b {
        s.append("true");
    } else {
        s.append("false");
    }
}

/// The text between double quotes.
pub open spec fn quoted(text: Seq<char>) -> Seq<char> {
    seq!['"'] + text + seq!['"']
}

/// Appends the text between double quotes.
pub fn push_quoted(s: &mut String, text: &str)
    ensures
        final(s)@ == old(s)@ + quoted(text@),
{
    s.push('"');
    s.append(text);
    s.push('"');
    assert(s@ =~= old(s)@ + quoted(text@));
}

/// Each item between double quotes.
pub open spec fn quotations(items: Seq<Seq<char>>) -> Seq<Seq<char>> {
    items.map_values(|item: Seq<char>| quoted(item))
}

/// Each item between double quotes.
pub fn quote_each(items: &Vec<String>) -> (marked: Vec<String>)
    ensures
        marked.deep_view() == quotations(items.deep_view()),
{
    let mut marked: Vec<String> = Vec::new();
    let mut k: usize = 0;
    while k < items.len()
        invariant
            k <= items.len(),
            marked.len() == k,
            forall|j: int| 0 <= j < k ==> (#[trigger] marked[j])@ == quoted(items[j]@),
        decreases items.len() - k,
    {
        let mut item = String::new();
        push_quoted(&mut item, items[k].as_str());
        marked.push(item);
        k += 1;
    }
    assert(marked.deep_view() =~= quotations(items.deep_view()));
    marked
}

/// Whether the character is white space, which separates words.
pub open spec fn is_space(c: char) -> bool {
    let code = c as int;
    ||| 0x9 <= code <= 0xd
    ||| code == 0x20
    ||| code == 0x85
    ||| code == 0xa0
    ||| code == 0x1680
    ||| 0x2000 <= code <= 0x200a
    ||| code == 0x2028
    ||| code == 0x2029
    ||| code == 0x202f
    ||| code == 0x205f
    ||| code == 0x3000
}

/// The words of a text: its runs of characters that are not white space,
/// each as long as it can be, in the order in which they stand.
pub open spec fn words(text: Seq<char>) -> Seq<Seq<char>>
    decreases text.len(),
{
    if text.len() == 0 {
        Seq::empty()
    } else if is_space(text.last()) {
        words(text.drop_last())
    } else if text.len() > 1 && !is_space(text[text.len() - 2]) {
        let before = words(text.drop_last());
        before.drop_last().push(before.last().push(text.last()))
    } else {
        words(text.drop_last()).push(seq![text.last()])
    }
}

/// Every word has a character, and no word has white space in it. A text
/// that ends in another character than white space ends in a word.
pub proof fn lemma_words_hold_no_space(text: Seq<char>)
    ensures
        forall|i: int| 0 <= i < words(text).len() ==> (#[trigger] words(text)[i]).len() > 0,
        forall|i: int, j: int|
            0 <= i < words(text).len() && 0 <= j < words(text)[i].len() ==> !is_space(
                #[trigger] words(text)[i][j],
            ),
        text.len() > 0 && !is_space(text.last()) ==> words(text).len() > 0 && words(
            text,
        ).last().last() == text.last(),
    decreases text.len(),
{
    if text.len() > 0 {
        lemma_words_hold_no_space(text.drop_last());
        if !is_space(text.last()) && text.len() > 1 && !is_space(text[text.len() - 2]) {
            assert(text.drop_last().last() == text[text.len() - 2]);
        }
    }
}

/// A text without white space is one word, unless it is empty.
pub proof fn lemma_text_without_space_is_one_word(text: Seq<char>)
    requires
        text.len() > 0,
        forall|j: int| 0 <= j < text.len() ==> !is_space(#[trigger] text[j]),
    ensures
        words(text) == seq![text],
    decreases text.len(),
{
    if text.len() == 1 {
        assert(words(text.drop_last()) =~= Seq::<Seq<char>>::empty());
        assert(seq![text.last()] =~= text);
        assert(words(text) =~= seq![text]);
    } else {
        lemma_text_without_space_is_one_word(text.drop_last());
        assert(text.drop_last().push(text.last()) =~= text);
        assert(words(text) =~= seq![text]);
    }
}

/// White space at the end of a text, or between two words of it, changes
/// nothing about its words but that it parts them.
pub proof fn lemma_space_parts_words(before: Seq<char>, space: char, after: Seq<char>)
    requires
        is_space(space),
    ensures
        words(before.push(space) + after) == words(before) + words(after),
    decreases after.len(),
{
    let spaced = before.push(space);
    if after.len() == 0 {
        assert(spaced + after =~= spaced);
        assert(spaced.drop_last() =~= before);
        assert(words(before) + words(after) =~= words(before));
    } else {
        let whole = spaced + after;
        assert(whole.drop_last() =~= spaced + after.drop_last());
        assert(whole.last() == after.last());
        lemma_space_parts_words(before, space, after.drop_last());
        if !is_space(after.last()) {
            if after.len() > 1 && !is_space(after[after.len() - 2]) {
                assert(whole[whole.len() - 2] == after[after.len() - 2]);
                lemma_words_hold_no_space(after.drop_last());
                assert(after.drop_last().last() == after[after.len() - 2]);
                let left = words(before);
                let right = words(after.drop_last());
                assert((left + right).drop_last() =~= left + right.drop_last());
            } else if after.len() > 1 {
                assert(whole[whole.len() - 2] == after[after.len() - 2]);
            } else {
                assert(whole[whole.len() - 2] == space);
            }
            assert(words(whole) =~= words(before) + words(after));
        }
    }
}

/// Whether the character is white space.
pub fn separates(c: char) -> (space: bool)
    ensures
        space == is_space(c),
{
    let code: u32 = c as u32;
    (0x9 <= code && code <= 0xd) || code == 0x20 || code == 0x85 || code == 0xa0 || code == 0x1680
        || (0x2000 <= code && code <= 0x200a) || code == 0x2028 || code == 0x2029 || code
        == 0x202f || code == 0x205f || code == 0x3000
}

/// The words of the text, in order.
pub fn split_words(text: &str) -> (found: Vec<String>)
    ensures
        found.deep_view() == words(text@),
{
    let mut found: Vec<String> = Vec::new();
    let mut word = String::new();
    for c in it: text.chars()
        invariant
            it.seq() == text@,
            word@.len() > 0 <==> it.index() > 0 && !is_space(text@[it.index() - 1]),
            words(text@.take(it.index() as int)) == if word@.len() > 0 {
                found.deep_view().push(word@)
            } else {
                found.deep_view()
            },
    {
        let ghost k = it.index() as int;
        let ghost before = text@.take(k);
        let ghost now = text@.take(k + 1);
        let ghost items = found.deep_view();
        let ghost letters = word@;
        assert(now.drop_last() =~= before);
        assert(now.last() == c);
        if separates(c) {
            if !word.as_str().is_empty() {
                add_item(&mut found, word);
                word = String::new();
            }
            assert(words(now) == words(before));
        } else {
            word.push(c);
            proof {
                if letters.len() > 0 {
                    assert(now[now.len() - 2] == text@[k - 1]);
                    let earlier = items.push(letters);
                    assert(earlier.drop_last() =~= items);
                    assert(earlier.last() == letters);
                    assert(words(now) == items.push(letters.push(c)));
                } else {
                    assert(letters =~= Seq::<char>::empty());
                    assert(words(now) == items.push(seq![c]));
                }
            }
        }
    }
    assert(text@.take(text@.len() as int) =~= text@);
    if !word.as_str().is_empty() {
        add_item(&mut found, word);
    }
    found
}

/// Adds one item to the end of a list of items.
pub fn add_item(items: &mut Vec<String>, item: String)
    ensures
        final(items).deep_view() == old(items).deep_view().push(item@),
{
    items.push(item);
    assert(items.deep_view() =~= old(items).deep_view().push(item@));
}

/// Writes one line to the transcript.
pub fn emit(out: &mut Vec<String>, line: String)
    ensures
        final(out).deep_view() == old(out).deep_view() + seq![line@],
{
    out.push(line);
    assert(out.deep_view() =~= old(out).deep_view() + seq![line@]);
}

} // verus!
