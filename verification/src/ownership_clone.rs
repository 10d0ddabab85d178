//! Clones: duplicates that are asked for by name, and may cost an allocation.
use std::collections::BTreeMap;
use vstd::prelude::*;
use vstd::std_specs::cmp::OrdSpec;
use vstd::std_specs::iter::IteratorSpec;
use vstd::string::*;
use crate::text::{
    decimal, emit, integer, joined, number_list, push_integer, push_joined, push_numbers,
    push_quoted, push_unsigned, quoted,
};

verus! {

/// What the demonstration with the given number writes.
pub open spec fn lines(number: int) -> Seq<Seq<char>> {
    if number == 1 {
        seq!["Original: hello, Clone: hello"@]
    } else if number == 2 {
        seq!["Original: [1, 2, 3, 4, 5], Clone: [1, 2, 3, 4, 5]"@]
    } else if number == 3 {
        seq![
            "Original: [1, 1, 1, 1, 1, 1, 1, 1, 1, 1], Clone: [1, 1, 1, 1, 1, 1, 1, 1, 1, 1]"@,
        ]
    } else if number == 4 {
        seq![
            "Original: Person { name: \"Alice\", age: 30 }, Clone: Person { name: \"Alice\", age: 30 }"@,
        ]
    } else if number == 5 {
        seq!["Original: (\"Hello\", 42), Clone: (\"Hello\", 42)"@]
    } else if number == 6 {
        seq![
            "Original: {1: \"One\", 2: \"Two\", 3: \"Three\"}, Clone: {1: \"One\", 2: \"Two\", 3: \"Three\"}"@,
        ]
    } else if number == 7 {
        seq!["Original: 5, Clone: 6"@]
    } else if number == 8 {
        seq!["Original: 10, Clone: 10"@]
    } else if number == 9 {
        seq!["Original Rc count: 2, Clone Rc count: 2"@]
    } else if number == 10 {
        seq![
            "Original: ComplexStruct { data: [1, 2, 3], name: \"ComplexStruct\" }, Clone: ComplexStruct { data: [1, 2, 3], name: \"ComplexStruct\" }"@,
        ]
    } else {
        Seq::empty()
    }
}

/// What the ten demonstrations write, one after the other.
pub open spec fn output() -> Seq<Seq<char>> {
    lines(1) + lines(2) + lines(3) + lines(4) + lines(5) + lines(6) + lines(7) + lines(8) + lines(9)
        + lines(10)
}

/// A person, with a name that is owned.
#[derive(Debug)]
pub struct Person {
    pub name: String,
    pub age: i32,
}

impl Clone for Person {
    /// A person with a copy of the name and the same age.
    fn clone(&self) -> (copy: Person)
        ensures
            copy == *self,
    {
        Person { name: self.name.clone(), age: self.age }
    }
}

impl Person {
    /// The person written with the names of the fields.
    pub open spec fn shown(self) -> Seq<char> {
        "Person { name: "@ + quoted(self.name@) + ", age: "@ + integer(self.age as int) + " }"@
    }

    /// Appends the person as `shown` writes it.
    pub fn push_shown(&self, s: &mut String)
        ensures
            final(s)@ == old(s)@ + self.shown(),
    {
        s.append("Person { name: ");
        push_quoted(s, self.name.as_str());
        s.append(", age: ");
        push_integer(s, self.age as i64);
        s.append(" }");
        assert(s@ =~= old(s)@ + self.shown());
    }
}

/// A value whose clone is not its equal: it counts one further.
#[derive(Debug)]
pub struct CustomCloneable {
    pub value: i32,
}

impl CustomCloneable {
    /// A value that starts at `value`.
    pub fn new(value: i32) -> (made: CustomCloneable)
        ensures
            made.value == value,
    {
        CustomCloneable { value }
    }

    /// A clone that holds the next number.
    pub fn clone(&self) -> (next: CustomCloneable)
        requires
            self.value < i32::MAX,
        ensures
            next.value == self.value + 1,
    {
        CustomCloneable { value: self.value + 1 }
    }
}

/// A text that several holders share, with the count of its holders.
#[derive(Debug)]
pub struct SharedText {
    text: String,
    holders: usize,
}

impl SharedText {
    /// The text that is shared.
    pub closed spec fn text(self) -> Seq<char> {
        self.text@
    }

    /// The number of holders.
    pub closed spec fn holders(self) -> nat {
        self.holders as nat
    }

    /// A text with one holder.
    pub fn new(text: String) -> (shared: SharedText)
        ensures
            shared.text() == text@,
            shared.holders() == 1,
    {
        SharedText { text, holders: 1 }
    }

    /// Admits one more holder of the same text: nothing is duplicated.
    pub fn share(&mut self)
        requires
            old(self).holders() < usize::MAX,
        ensures
            final(self).text() == old(self).text(),
            final(self).holders() == old(self).holders() + 1,
    {
        self.holders = self.holders + 1;
    }

    /// The number of holders.
    pub fn strong_count(&self) -> (count: usize)
        ensures
            count == self.holders(),
    {
        self.holders
    }
}

/// A struct of a vector and a text, both on the heap.
#[derive(Debug)]
pub struct ComplexStruct {
    pub data: Vec<i32>,
    pub name: String,
}

impl Clone for ComplexStruct {
    /// A struct with copies of the vector and of the text.
    fn clone(&self) -> (copy: ComplexStruct)
        ensures
            copy.data@ == self.data@,
            copy.name@ == self.name@,
    {
        let data: Vec<i32> = self.data.clone();
        assert(data@ =~= self.data@);
        ComplexStruct { data, name: self.name.clone() }
    }
}

impl ComplexStruct {
    /// The struct written with the names of the fields.
    pub open spec fn shown(self) -> Seq<char> {
        "ComplexStruct { data: "@ + number_list(self.data@) + ", name: "@ + quoted(self.name@)
            + " }"@
    }

    /// Appends the struct as `shown` writes it.
    pub fn push_shown(&self, s: &mut String)
        ensures
            final(s)@ == old(s)@ + self.shown(),
    {
        s.append("ComplexStruct { data: ");
        push_numbers(s, self.data.as_slice());
        s.append(", name: ");
        push_quoted(s, self.name.as_str());
        s.append(" }");
        assert(s@ =~= old(s)@ + self.shown());
    }
}

/// Whether `entries` lists the map: each of its pairs once, by rising key.
pub open spec fn lists(map: Map<i32, &'static str>, entries: Seq<(i32, Seq<char>)>) -> bool {
    &&& entries.len() == map.dom().len()
    &&& forall|i: int, j: int| 0 <= i < j < entries.len() ==> entries[i].0 < entries[j].0
    &&& forall|i: int|
        0 <= i < entries.len() ==> map.contains_key(#[trigger] entries[i].0) && map[entries[i].0]@
            == entries[i].1
}

/// The pairs with their texts as plain values.
pub open spec fn plain(entries: Seq<(i32, String)>) -> Seq<(i32, Seq<char>)> {
    entries.map_values(|entry: (i32, String)| (entry.0, entry.1@))
}

/// The pairs of the map, by rising key.
pub fn entries_of(map: &BTreeMap<i32, &'static str>) -> (entries: Vec<(i32, String)>)
    ensures
        lists(map@, plain(entries@)),
{
    broadcast use vstd::std_specs::btree::group_btree_axioms;
    broadcast use vstd::laws_cmp::group_laws_cmp;

    let mut entries: Vec<(i32, String)> = Vec::new();
    let walk = map.iter();
    proof {
        let keys = walk.remaining().map_values(|kv: (&i32, &&'static str)| *kv.0);
        assert forall|i: int, j: int| 0 <= i < j < keys.len() implies keys[i] < keys[j] by {
            assert(keys[i].cmp_spec(&keys[j]) is Less);
        }
        assert forall|i: int, j: int| 0 <= i < j < walk.remaining().len() implies *walk.remaining()[i].0
            < *walk.remaining()[j].0 by {
            assert(keys[i] < keys[j]);
        }
    }
    for pair in it: walk
        invariant
            entries.len() == it.index(),
            it.seq().len() == map@.dom().len(),
            forall|i: int, j: int| 0 <= i < j < it.seq().len() ==> *it.seq()[i].0 < *it.seq()[j].0,
            forall|i: int|
                0 <= i < it.seq().len() ==> map@.contains_key(*(#[trigger] it.seq()[i]).0)
                    && map@[*it.seq()[i].0] == *it.seq()[i].1,
            forall|i: int|
                0 <= i < entries.len() ==> (#[trigger] entries[i]).0 == *it.seq()[i].0
                    && entries[i].1@ == (*it.seq()[i].1)@,
    {
        let (key, value) = pair;
        entries.push((*key, String::from_str(*value)));
    }
    assert(lists(map@, plain(entries@)));
    entries
}

/// One pair of a map: the key, a colon and the text between quotes.
pub open spec fn pair_text(entry: (i32, Seq<char>)) -> Seq<char> {
    integer(entry.0 as int) + seq![':', ' '] + quoted(entry.1)
}

/// The pairs as a map is written: in braces, with commas between them.
pub open spec fn map_text(entries: Seq<(i32, Seq<char>)>) -> Seq<char> {
    seq!['{'] + joined(entries.map_values(|entry: (i32, Seq<char>)| pair_text(entry)), seq![',', ' '])
        + seq!['}']
}

/// Appends the pairs as `map_text` writes them.
pub fn push_map(s: &mut String, entries: &Vec<(i32, String)>)
    ensures
        final(s)@ == old(s)@ + map_text(plain(entries@)),
{
    let mut items: Vec<String> = Vec::new();
    let mut k: usize = 0;
    while k < entries.len()
        invariant
            k <= entries.len(),
            items.len() == k,
            forall|j: int| 0 <= j < k ==> (#[trigger] items[j])@ == pair_text(plain(entries@)[j]),
        decreases entries.len() - k,
    {
        let mut item = String::new();
        push_integer(&mut item, entries[k].0 as i64);
        item.push(':');
        item.push(' ');
        push_quoted(&mut item, entries[k].1.as_str());
        assert(item@ =~= pair_text(plain(entries@)[k as int]));
        items.push(item);
        k += 1;
    }
    assert(items.deep_view() =~= plain(entries@).map_values(
        |entry: (i32, Seq<char>)| pair_text(entry),
    ));
    s.push('{');
    push_joined(s, &items, ", ");
    s.push('}');
    proof {
        reveal_strlit(", ");
        assert(", "@ =~= seq![',', ' ']);
        assert(s@ =~= old(s)@ + map_text(plain(entries@)));
    }
}

/// A text and its clone.
fn example1(out: &mut Vec<String>)
    ensures
        final(out).deep_view() == old(out).deep_view() + lines(1),
{
    let s: String = String::from_str("hello");
    let s_clone: String = s.clone();
    let mut line = String::from_str("Original: ");
    line.append(s.as_str());
    line.append(", Clone: ");
    line.append(s_clone.as_str());
    proof {
        reveal_strlit("hello");
        reveal_strlit("Original: ");
        reveal_strlit(", Clone: ");
        reveal_strlit("Original: hello, Clone: hello");
        assert(line@ =~= "Original: hello, Clone: hello"@);
    }
    emit(out, line);
}

/// A vector and its clone.
fn example2(out: &mut Vec<String>)
    ensures
        final(out).deep_view() == old(out).deep_view() + lines(2),
{
    let v: Vec<i32> = vec![1, 2, 3, 4, 5];
    let v_clone: Vec<i32> = v.clone();
    assert(v_clone@ =~= v@);
    let mut line = String::from_str("Original: ");
    push_numbers(&mut line, v.as_slice());
    line.append(", Clone: ");
    push_numbers(&mut line, v_clone.as_slice());
    proof {
        reveal_strlit("Original: ");
        reveal_strlit(", Clone: ");
        reveal_strlit("Original: [1, 2, 3, 4, 5], Clone: [1, 2, 3, 4, 5]");
        reveal_with_fuel(joined, 6);
        assert(line@ =~= "Original: [1, 2, 3, 4, 5], Clone: [1, 2, 3, 4, 5]"@);
    }
    emit(out, line);
}

/// An array and its clone; an array of numbers could be copied as well.
fn example3(out: &mut Vec<String>)
    ensures
        final(out).deep_view() == old(out).deep_view() + lines(3),
{
    let arr: [i32; 10] = [1; 10];
    let arr_clone: [i32; 10] = arr.clone();
    assert(arr_clone@ =~= arr@);
    let mut line = String::from_str("Original: ");
    push_numbers(&mut line, arr.as_slice());
    line.append(", Clone: ");
    push_numbers(&mut line, arr_clone.as_slice());
    proof {
        reveal_strlit("Original: ");
        reveal_strlit(", Clone: ");
        reveal_strlit(
            "Original: [1, 1, 1, 1, 1, 1, 1, 1, 1, 1], Clone: [1, 1, 1, 1, 1, 1, 1, 1, 1, 1]",
        );
        reveal_with_fuel(joined, 11);
        assert(line@
            =~= "Original: [1, 1, 1, 1, 1, 1, 1, 1, 1, 1], Clone: [1, 1, 1, 1, 1, 1, 1, 1, 1, 1]"@);
    }
    emit(out, line);
}

/// A struct and its clone.
fn example4(out: &mut Vec<String>)
    ensures
        final(out).deep_view() == old(out).deep_view() + lines(4),
{
    let person = Person { name: String::from_str("Alice"), age: 30 };
    let person_clone: Person = person.clone();
    let mut line = String::from_str("Original: ");
    person.push_shown(&mut line);
    line.append(", Clone: ");
    person_clone.push_shown(&mut line);
    proof {
        reveal_strlit("Alice");
        reveal_strlit("Person { name: ");
        reveal_strlit(", age: ");
        reveal_strlit(" }");
        reveal_strlit("Original: ");
        reveal_strlit(", Clone: ");
        reveal_strlit(
            "Original: Person { name: \"Alice\", age: 30 }, Clone: Person { name: \"Alice\", age: 30 }",
        );
        reveal_with_fuel(decimal, 2);
        assert(line@
            =~= "Original: Person { name: \"Alice\", age: 30 }, Clone: Person { name: \"Alice\", age: 30 }"@);
    }
    emit(out, line);
}

/// Appends a pair of a text and a number, in round brackets.
fn push_pair(s: &mut String, pair: &(String, i32))
    ensures
        final(s)@ == old(s)@ + seq!['('] + quoted(pair.0@) + seq![',', ' '] + integer(
            pair.1 as int,
        ) + seq![')'],
{
    s.push('(');
    push_quoted(s, pair.0.as_str());
    s.push(',');
    s.push(' ');
    push_integer(s, pair.1 as i64);
    s.push(')');
    assert(s@ =~= old(s)@ + seq!['('] + quoted(pair.0@) + seq![',', ' '] + integer(pair.1 as int)
        + seq![')']);
}

/// A tuple of a text, which is cloned, and a number, which is copied.
fn example5(out: &mut Vec<String>)
    ensures
        final(out).deep_view() == old(out).deep_view() + lines(5),
{
    let tuple: (String, i32) = (String::from_str("Hello"), 42);
    let tuple_clone: (String, i32) = (tuple.0.clone(), tuple.1);
    let mut line = String::from_str("Original: ");
    push_pair(&mut line, &tuple);
    line.append(", Clone: ");
    push_pair(&mut line, &tuple_clone);
    proof {
        reveal_strlit("Hello");
        reveal_strlit("Original: ");
        reveal_strlit(", Clone: ");
        reveal_strlit("Original: (\"Hello\", 42), Clone: (\"Hello\", 42)");
        reveal_with_fuel(decimal, 2);
        assert(line@ =~= "Original: (\"Hello\", 42), Clone: (\"Hello\", 42)"@);
    }
    emit(out, line);
}

/// A map and its clone, each written by rising key.
fn example6(out: &mut Vec<String>)
    ensures
        final(out).deep_view() == old(out).deep_view() + lines(6),
{
    broadcast use vstd::laws_cmp::group_laws_cmp;

    let mut map: BTreeMap<i32, &'static str> = BTreeMap::new();
    map.insert(1, "One");
    map.insert(2, "Two");
    map.insert(3, "Three");
    let map_clone: BTreeMap<i32, &'static str> = map.clone();
    let entries: Vec<(i32, String)> = entries_of(&map);
    let entries_clone: Vec<(i32, String)> = entries_of(&map_clone);
    proof {
        lemma_three_pairs(map@, plain(entries@));
        lemma_three_pairs(map@, plain(entries_clone@));
    }
    let mut line = String::from_str("Original: ");
    push_map(&mut line, &entries);
    line.append(", Clone: ");
    push_map(&mut line, &entries_clone);
    proof {
        reveal_strlit("One");
        reveal_strlit("Two");
        reveal_strlit("Three");
        reveal_strlit("Original: ");
        reveal_strlit(", Clone: ");
        reveal_strlit(
            "Original: {1: \"One\", 2: \"Two\", 3: \"Three\"}, Clone: {1: \"One\", 2: \"Two\", 3: \"Three\"}",
        );
        reveal_with_fuel(joined, 4);
        assert(line@
            =~= "Original: {1: \"One\", 2: \"Two\", 3: \"Three\"}, Clone: {1: \"One\", 2: \"Two\", 3: \"Three\"}"@);
    }
    emit(out, line);
}

/// A map of the keys 1, 2 and 3 is listed in one way only.
proof fn lemma_three_pairs(map: Map<i32, &'static str>, entries: Seq<(i32, Seq<char>)>)
    requires
        map == Map::<i32, &'static str>::empty().insert(1, "One").insert(2, "Two").insert(
            3,
            "Three",
        ),
        lists(map, entries),
    ensures
        entries == seq![(1i32, "One"@), (2i32, "Two"@), (3i32, "Three"@)],
{
    assert(map.dom() =~= set![1i32, 2i32, 3i32]);
    assert(map.dom().len() == 3);
    assert(map.contains_key(entries[0].0));
    assert(map.contains_key(entries[1].0));
    assert(map.contains_key(entries[2].0));
    assert(entries =~= seq![(1i32, "One"@), (2i32, "Two"@), (3i32, "Three"@)]);
}

/// A clone written by hand may differ from the value it was made from.
fn example7(out: &mut Vec<String>)
    ensures
        final(out).deep_view() == old(out).deep_view() + lines(7),
{
    let custom = CustomCloneable::new(5);
    let custom_clone: CustomCloneable = custom.clone();
    let mut line = String::from_str("Original: ");
    push_integer(&mut line, custom.value as i64);
    line.append(", Clone: ");
    push_integer(&mut line, custom_clone.value as i64);
    proof {
        reveal_strlit("Original: ");
        reveal_strlit(", Clone: ");
        reveal_strlit("Original: 5, Clone: 6");
        assert(line@ =~= "Original: 5, Clone: 6"@);
    }
    emit(out, line);
}

/// A boxed number and its clone, in a box of its own.
fn example8(out: &mut Vec<String>)
    ensures
        final(out).deep_view() == old(out).deep_view() + lines(8),
{
    let boxed: Box<i32> = Box::new(10);
    let boxed_clone: Box<i32> = boxed.clone();
    let mut line = String::from_str("Original: ");
    push_integer(&mut line, *boxed as i64);
    line.append(", Clone: ");
    push_integer(&mut line, *boxed_clone as i64);
    proof {
        reveal_strlit("Original: ");
        reveal_strlit(", Clone: ");
        reveal_strlit("Original: 10, Clone: 10");
        reveal_with_fuel(decimal, 2);
        assert(line@ =~= "Original: 10, Clone: 10"@);
    }
    emit(out, line);
}

/// Sharing a text raises the count of its holders, and both see the count.
fn example9(out: &mut Vec<String>)
    ensures
        final(out).deep_view() == old(out).deep_view() + lines(9),
{
    let mut rc_example = SharedText::new(String::from_str("Rust"));
    rc_example.share();
    let mut line = String::from_str("Original Rc count: ");
    push_unsigned(&mut line, rc_example.strong_count() as u64);
    line.append(", Clone Rc count: ");
    push_unsigned(&mut line, rc_example.strong_count() as u64);
    proof {
        reveal_strlit("Original Rc count: ");
        reveal_strlit(", Clone Rc count: ");
        reveal_strlit("Original Rc count: 2, Clone Rc count: 2");
        assert(line@ =~= "Original Rc count: 2, Clone Rc count: 2"@);
    }
    emit(out, line);
}

/// A struct with two fields on the heap, and its clone.
fn example10(out: &mut Vec<String>)
    ensures
        final(out).deep_view() == old(out).deep_view() + lines(10),
{
    let complex_struct = ComplexStruct {
        data: vec![1, 2, 3],
        name: String::from_str("ComplexStruct"),
    };
    let complex_clone: ComplexStruct = complex_struct.clone();
    let mut line = String::from_str("Original: ");
    complex_struct.push_shown(&mut line);
    line.append(", Clone: ");
    complex_clone.push_shown(&mut line);
    proof {
        reveal_strlit("ComplexStruct");
        reveal_strlit("ComplexStruct { data: ");
        reveal_strlit(", name: ");
        reveal_strlit(" }");
        reveal_strlit("Original: ");
        reveal_strlit(", Clone: ");
        reveal_strlit(
            "Original: ComplexStruct { data: [1, 2, 3], name: \"ComplexStruct\" }, Clone: ComplexStruct { data: [1, 2, 3], name: \"ComplexStruct\" }",
        );
        reveal_with_fuel(joined, 4);
        assert(complex_struct.shown() =~= complex_clone.shown());
        assert(line@
            =~= "Original: ComplexStruct { data: [1, 2, 3], name: \"ComplexStruct\" }, Clone: ComplexStruct { data: [1, 2, 3], name: \"ComplexStruct\" }"@);
    }
    emit(out, line);
}

/// Runs the demonstration with the given number, from 1 to 10; any other
/// number writes nothing.
pub fn run_example(number: u8, out: &mut Vec<String>)
    ensures
        final(out).deep_view() == old(out).deep_view() + lines(number as int),
{
    match number {
        1 => example1(out),
        2 => example2(out),
        3 => example3(out),
        4 => example4(out),
        5 => example5(out),
        6 => example6(out),
        7 => example7(out),
        8 => example8(out),
        9 => example9(out),
        10 => example10(out),
        _ => {
            assert(out.deep_view() =~= old(out).deep_view() + lines(number as int));
        },
    }
}

/// Runs the ten demonstrations in order and returns what they wrote.
pub fn run_examples() -> (written: Vec<String>)
    ensures
        written.deep_view() == output(),
{
    let mut out: Vec<String> = Vec::new();
    example1(&mut out);
    example2(&mut out);
    example3(&mut out);
    example4(&mut out);
    example5(&mut out);
    example6(&mut out);
    example7(&mut out);
    example8(&mut out);
    example9(&mut out);
    example10(&mut out);
    assert(out.deep_view() =~= output());
    out
}

} // verus!
