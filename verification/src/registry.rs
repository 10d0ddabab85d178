//! The registry: which routines run under which topic.
//!
//! A topic is a text, told apart by its exact characters. A routine is one
//! demonstration of one section. The registry holds, for each topic that was
//! registered, the routines to run in their order; it takes each topic once
//! and never changes what it holds for it.
use vstd::prelude::*;
use crate::error_handling::outcome;

verus! {

/// The sections of the tour, one for each group of ten demonstrations.
#[derive(Clone, Copy, Debug, PartialEq, Eq, Structural)]
pub enum Section {
    Arrays,
    Variables,
    Tuples,
    Vectors,
    Slices,
    Strings,
    Literals,
    Functions,
    Control,
    Move,
    Copy,
    Clone,
    Ref,
    Structs,
    Enums,
    Error,
}

/// One demonstration: the one with the given number in its section. The
/// numbers run from 1 to 10; a routine with another number does nothing.
#[derive(Clone, Copy, Debug, PartialEq, Eq, Structural)]
pub struct Routine {
    pub section: Section,
    pub number: u8,
}

/// The routines of one topic, in the order in which they run.
pub type RoutineList = Vec<Routine>;

/// The sections in the order in which the tour lists them.
pub open spec fn all_sections() -> Seq<Section> {
    seq![
        Section::Arrays,
        Section::Variables,
        Section::Tuples,
        Section::Vectors,
        Section::Slices,
        Section::Strings,
        Section::Literals,
        Section::Functions,
        Section::Control,
        Section::Move,
        Section::Copy,
        Section::Clone,
        Section::Ref,
        Section::Structs,
        Section::Enums,
        Section::Error,
    ]
}

/// The section that a topic names, if it names one.
pub open spec fn section_of(topic: Seq<char>) -> Option<Section> {
    if topic == "arrays"@ {
        Some(Section::Arrays)
    } else if topic == "variables"@ {
        Some(Section::Variables)
    } else if topic == "tuples"@ {
        Some(Section::Tuples)
    } else if topic == "vectors"@ {
        Some(Section::Vectors)
    } else if topic == "slices"@ {
        Some(Section::Slices)
    } else if topic == "strings"@ {
        Some(Section::Strings)
    } else if topic == "literals"@ {
        Some(Section::Literals)
    } else if topic == "functions"@ {
        Some(Section::Functions)
    } else if topic == "control"@ {
        Some(Section::Control)
    } else if topic == "move"@ {
        Some(Section::Move)
    } else if topic == "copy"@ {
        Some(Section::Copy)
    } else if topic == "clone"@ {
        Some(Section::Clone)
    } else if topic == "ref"@ {
        Some(Section::Ref)
    } else if topic == "structs"@ {
        Some(Section::Structs)
    } else if topic == "enums"@ {
        Some(Section::Enums)
    } else if topic == "error"@ {
        Some(Section::Error)
    } else {
        None
    }
}

impl Section {
    /// The topic under which the section is registered.
    pub open spec fn topic(self) -> Seq<char> {
        match self {
            Section::Arrays => "arrays"@,
            Section::Variables => "variables"@,
            Section::Tuples => "tuples"@,
            Section::Vectors => "vectors"@,
            Section::Slices => "slices"@,
            Section::Strings => "strings"@,
            Section::Literals => "literals"@,
            Section::Functions => "functions"@,
            Section::Control => "control"@,
            Section::Move => "move"@,
            Section::Copy => "copy"@,
            Section::Clone => "clone"@,
            Section::Ref => "ref"@,
            Section::Structs => "structs"@,
            Section::Enums => "enums"@,
            Section::Error => "error"@,
        }
    }

    /// What the demonstration with the given number writes. `file` is what
    /// came of reading the file that one demonstration reports on.
    pub open spec fn lines(self, number: int, file: Result<Seq<char>, Seq<char>>) -> Seq<
        Seq<char>,
    > {
        match self {
            Section::Arrays => crate::arrays::lines(number),
            Section::Variables => crate::variables_and_mutability::lines(number),
            Section::Tuples => crate::tuples::lines(number),
            Section::Vectors => crate::vectors::lines(number),
            Section::Slices => crate::slices::lines(number),
            Section::Strings => crate::strings_and_str::lines(number),
            Section::Literals => crate::strings_literals::lines(number),
            Section::Functions => crate::functions::lines(number),
            Section::Control => crate::control_flow::lines(number),
            Section::Move => crate::ownership_move::lines(number),
            Section::Copy => crate::ownrship_copy::lines(number),
            Section::Clone => crate::ownership_clone::lines(number),
            Section::Ref => crate::ownership_reference_borrowing::lines(number),
            Section::Structs => crate::structs::lines(number),
            Section::Enums => crate::enums_and_pattern_matching::lines(number),
            Section::Error => crate::error_handling::lines(number, file),
        }
    }

    /// What the ten demonstrations of the section write, one after the other.
    pub open spec fn output(self, file: Result<Seq<char>, Seq<char>>) -> Seq<Seq<char>> {
        match self {
            Section::Arrays => crate::arrays::output(),
            Section::Variables => crate::variables_and_mutability::output(),
            Section::Tuples => crate::tuples::output(),
            Section::Vectors => crate::vectors::output(),
            Section::Slices => crate::slices::output(),
            Section::Strings => crate::strings_and_str::output(),
            Section::Literals => crate::strings_literals::output(),
            Section::Functions => crate::functions::output(),
            Section::Control => crate::control_flow::output(),
            Section::Move => crate::ownership_move::output(),
            Section::Copy => crate::ownrship_copy::output(),
            Section::Clone => crate::ownership_clone::output(),
            Section::Ref => crate::ownership_reference_borrowing::output(),
            Section::Structs => crate::structs::output(),
            Section::Enums => crate::enums_and_pattern_matching::output(),
            Section::Error => crate::error_handling::output(file),
        }
    }

    /// The place of the section in the order of the tour, from 0.
    pub open spec fn place(self) -> int {
        match self {
            Section::Arrays => 0,
            Section::Variables => 1,
            Section::Tuples => 2,
            Section::Vectors => 3,
            Section::Slices => 4,
            Section::Strings => 5,
            Section::Literals => 6,
            Section::Functions => 7,
            Section::Control => 8,
            Section::Move => 9,
            Section::Copy => 10,
            Section::Clone => 11,
            Section::Ref => 12,
            Section::Structs => 13,
            Section::Enums => 14,
            Section::Error => 15,
        }
    }

    /// The ten routines of the section, in their order.
    pub open spec fn batch(self) -> Seq<Routine> {
        Seq::new(10, |i: int| Routine { section: self, number: (i + 1) as u8 })
    }

    /// The topic under which the section is registered.
    pub fn name(self) -> (name: &'static str)
        ensures
            name@ == self.topic(),
    {
        match self {
            Section::Arrays => "arrays",
            Section::Variables => "variables",
            Section::Tuples => "tuples",
            Section::Vectors => "vectors",
            Section::Slices => "slices",
            Section::Strings => "strings",
            Section::Literals => "literals",
            Section::Functions => "functions",
            Section::Control => "control",
            Section::Move => "move",
            Section::Copy => "copy",
            Section::Clone => "clone",
            Section::Ref => "ref",
            Section::Structs => "structs",
            Section::Enums => "enums",
            Section::Error => "error",
        }
    }

    /// The sections in the order in which the tour lists them.
    pub fn all() -> (sections: Vec<Section>)
        ensures
            sections@ == all_sections(),
    {
        let sections: Vec<Section> = vec![
            Section::Arrays,
            Section::Variables,
            Section::Tuples,
            Section::Vectors,
            Section::Slices,
            Section::Strings,
            Section::Literals,
            Section::Functions,
            Section::Control,
            Section::Move,
            Section::Copy,
            Section::Clone,
            Section::Ref,
            Section::Structs,
            Section::Enums,
            Section::Error,
        ];
        assert(sections@ =~= all_sections());
        sections
    }

    /// The ten routines of the section, in their order.
    pub fn routines(self) -> (routines: RoutineList)
        ensures
            routines@ == self.batch(),
    {
        let mut routines: RoutineList = Vec::new();
        let mut number: u8 = 1;
        while number <= 10
            invariant
                1 <= number <= 11,
                routines.len() == number - 1,
                forall|i: int| 0 <= i < routines.len() ==> routines[i] == self.batch()[i],
            decreases 11 - number,
        {
            routines.push(Routine { section: self, number });
            number += 1;
        }
        assert(routines@ =~= self.batch());
        routines
    }
}

impl Routine {
    /// What the routine writes.
    pub open spec fn output(self, file: Result<Seq<char>, Seq<char>>) -> Seq<Seq<char>> {
        self.section.lines(self.number as int, file)
    }

    /// Whether what the routine writes depends on the file.
    pub open spec fn reports_on_file(self) -> bool {
        self.section == Section::Error && self.number == 5
    }

    /// Whether what the routine writes depends on the file.
    pub fn reads_file(&self) -> (reads: bool)
        ensures
            reads == self.reports_on_file(),
    {
        match self.section {
            Section::Error => self.number == 5,
            _ => false,
        }
    }

    /// Runs the routine: it writes its lines after those that are there.
    /// `file` is what came of reading `error_handling::FILE_PATH`.
    pub fn invoke(&self, file: &Result<String, String>, out: &mut Vec<String>)
        ensures
            final(out).deep_view() == old(out).deep_view() + self.output(outcome(*file)),
    {
        match self.section {
            Section::Arrays => crate::arrays::run_example(self.number, out),
            Section::Variables => crate::variables_and_mutability::run_example(self.number, out),
            Section::Tuples => crate::tuples::run_example(self.number, out),
            Section::Vectors => crate::vectors::run_example(self.number, out),
            Section::Slices => crate::slices::run_example(self.number, out),
            Section::Strings => crate::strings_and_str::run_example(self.number, out),
            Section::Literals => crate::strings_literals::run_example(self.number, out),
            Section::Functions => crate::functions::run_example(self.number, out),
            Section::Control => crate::control_flow::run_example(self.number, out),
            Section::Move => crate::ownership_move::run_example(self.number, out),
            Section::Copy => crate::ownrship_copy::run_example(self.number, out),
            Section::Clone => crate::ownership_clone::run_example(self.number, out),
            Section::Ref => crate::ownership_reference_borrowing::run_example(self.number, out),
            Section::Structs => crate::structs::run_example(self.number, out),
            Section::Enums => crate::enums_and_pattern_matching::run_example(self.number, out),
            Section::Error => crate::error_handling::run_example(self.number, file, out),
        }
    }
}

/// Each section is registered under a topic of its own: the topic names the
/// section, and nothing else names it.
pub proof fn lemma_topics_name_sections()
    ensures
        forall|section: Section| section_of(#[trigger] section.topic()) == Some(section),
        forall|topic: Seq<char>|
            section_of(topic) is Some ==> (#[trigger] section_of(topic))->0.topic() == topic,
{
    reveal_strlit("arrays");
    reveal_strlit("variables");
    reveal_strlit("tuples");
    reveal_strlit("vectors");
    reveal_strlit("slices");
    reveal_strlit("strings");
    reveal_strlit("literals");
    reveal_strlit("functions");
    reveal_strlit("control");
    reveal_strlit("move");
    reveal_strlit("copy");
    reveal_strlit("clone");
    reveal_strlit("ref");
    reveal_strlit("structs");
    reveal_strlit("enums");
    reveal_strlit("error");
    // Topics of one length differ in their first character, but for `enums`
    // and `error`, which differ in the second, and for `strings` and
    // `structs`, which differ in the fourth.
    assert("arrays"@.len() == 6 && "arrays"@[0] == 'a');
    assert("variables"@.len() == 9 && "variables"@[0] == 'v');
    assert("tuples"@.len() == 6 && "tuples"@[0] == 't');
    assert("vectors"@.len() == 7 && "vectors"@[0] == 'v');
    assert("slices"@.len() == 6 && "slices"@[0] == 's');
    assert("strings"@.len() == 7 && "strings"@[0] == 's');
    assert("literals"@.len() == 8 && "literals"@[0] == 'l');
    assert("functions"@.len() == 9 && "functions"@[0] == 'f');
    assert("control"@.len() == 7 && "control"@[0] == 'c');
    assert("move"@.len() == 4 && "move"@[0] == 'm');
    assert("copy"@.len() == 4 && "copy"@[0] == 'c');
    assert("clone"@.len() == 5 && "clone"@[0] == 'c');
    assert("ref"@.len() == 3 && "ref"@[0] == 'r');
    assert("structs"@.len() == 7 && "structs"@[0] == 's');
    assert("enums"@.len() == 5 && "enums"@[0] == 'e');
    assert("error"@.len() == 5 && "error"@[0] == 'e');
    assert("enums"@[1] == 'n' && "error"@[1] == 'r');
    assert("strings"@[3] == 'i' && "structs"@[3] == 'u');
    assert forall|section: Section| section_of(#[trigger] section.topic()) == Some(section) by {
        match section {
            Section::Arrays => assert(section_of("arrays"@) == Some(section)),
            Section::Variables => assert(section_of("variables"@) == Some(section)),
            Section::Tuples => assert(section_of("tuples"@) == Some(section)),
            Section::Vectors => assert(section_of("vectors"@) == Some(section)),
            Section::Slices => assert(section_of("slices"@) == Some(section)),
            Section::Strings => assert(section_of("strings"@) == Some(section)),
            Section::Literals => assert(section_of("literals"@) == Some(section)),
            Section::Functions => assert(section_of("functions"@) == Some(section)),
            Section::Control => assert(section_of("control"@) == Some(section)),
            Section::Move => assert(section_of("move"@) == Some(section)),
            Section::Copy => assert(section_of("copy"@) == Some(section)),
            Section::Clone => assert(section_of("clone"@) == Some(section)),
            Section::Ref => assert(section_of("ref"@) == Some(section)),
            Section::Structs => assert(section_of("structs"@) == Some(section)),
            Section::Enums => assert(section_of("enums"@) == Some(section)),
            Section::Error => assert(section_of("error"@) == Some(section)),
        }
    }
}

/// What a batch of routines writes: what each of them writes, in their order.
pub open spec fn batch_output(routines: Seq<Routine>, file: Result<Seq<char>, Seq<char>>) -> Seq<
    Seq<char>,
>
    decreases routines.len(),
{
    if routines.len() == 0 {
        Seq::empty()
    } else {
        batch_output(routines.drop_last(), file) + routines.last().output(file)
    }
}

/// The topics of the tour, each with the ten routines of its section.
pub open spec fn standard_topics() -> Map<Seq<char>, Seq<Routine>> {
    Map::new(
        |topic: Seq<char>| section_of(topic) is Some,
        |topic: Seq<char>| section_of(topic)->0.batch(),
    )
}

/// What `register` does: a topic that is there is refused and the table
/// stays as it is; a new topic is accepted with its routines, and nothing
/// else changes.
pub open spec fn registered(
    before: Map<Seq<char>, Seq<Routine>>,
    topic: Seq<char>,
    routines: Seq<Routine>,
    after: Map<Seq<char>, Seq<Routine>>,
    accepted: bool,
) -> bool {
    if before.contains_key(topic) {
        !accepted && after == before
    } else {
        accepted && after == before.insert(topic, routines)
    }
}

/// A topic is registered once: whatever comes of a first attempt, a second
/// one under the same topic is refused and changes nothing.
pub proof fn lemma_registered_once(
    start: Map<Seq<char>, Seq<Routine>>,
    topic: Seq<char>,
    first: Seq<Routine>,
    between: Map<Seq<char>, Seq<Routine>>,
    first_accepted: bool,
    second: Seq<Routine>,
    end: Map<Seq<char>, Seq<Routine>>,
    second_accepted: bool,
)
    requires
        registered(start, topic, first, between, first_accepted),
        registered(between, topic, second, end, second_accepted),
    ensures
        !second_accepted,
        end == between,
        between.contains_key(topic),
        first_accepted ==> between[topic] == first,
{
}

/// What a list of topics with their routines holds, as plain values.
pub open spec fn plain_entries(entries: Seq<(String, RoutineList)>) -> Seq<
    (Seq<char>, Seq<Routine>),
> {
    entries.map_values(|entry: (String, RoutineList)| (entry.0@, entry.1@))
}

/// Whether no topic stands twice in the list.
pub open spec fn distinct_topics(entries: Seq<(Seq<char>, Seq<Routine>)>) -> bool {
    forall|i: int, j: int|
        0 <= i < j < entries.len() ==> (#[trigger] entries[i]).0 != (#[trigger] entries[j]).0
}

/// The table that holds each topic of the list with its routines. (Of a
/// topic that stands twice it holds the routines that stand last.)
pub open spec fn table_of(entries: Seq<(Seq<char>, Seq<Routine>)>) -> Map<
    Seq<char>,
    Seq<Routine>,
>
    decreases entries.len(),
{
    if entries.len() == 0 {
        Map::empty()
    } else {
        table_of(entries.drop_last()).insert(entries.last().0, entries.last().1)
    }
}

/// The table of a list holds the topics of the list and no others.
pub proof fn lemma_table_holds_the_topics(entries: Seq<(Seq<char>, Seq<Routine>)>)
    ensures
        forall|topic: Seq<char>| #[trigger]
            table_of(entries).contains_key(topic) <==> exists|i: int|
                0 <= i < entries.len() && (#[trigger] entries[i]).0 == topic,
    decreases entries.len(),
{
    if entries.len() > 0 {
        let before = entries.drop_last();
        lemma_table_holds_the_topics(before);
        assert forall|topic: Seq<char>| #[trigger]
            table_of(entries).contains_key(topic) <==> exists|i: int|
                0 <= i < entries.len() && (#[trigger] entries[i]).0 == topic by {
            if table_of(entries).contains_key(topic) {
                if topic == entries.last().0 {
                    assert(entries[entries.len() - 1].0 == topic);
                } else {
                    assert(table_of(before).contains_key(topic));
                    let i = choose|i: int| 0 <= i < before.len() && (#[trigger] before[i]).0 == topic;
                    assert(entries[i].0 == topic);
                }
            }
            if exists|i: int| 0 <= i < entries.len() && (#[trigger] entries[i]).0 == topic {
                let i = choose|i: int| 0 <= i < entries.len() && (#[trigger] entries[i]).0 == topic;
                if i < before.len() {
                    assert(before[i].0 == topic);
                    assert(table_of(before).contains_key(topic));
                }
            }
        }
    }
}

/// Where no topic stands twice, the table of a list holds each topic with
/// the routines that stand beside it.
pub proof fn lemma_table_holds_each_list(entries: Seq<(Seq<char>, Seq<Routine>)>, i: int)
    requires
        distinct_topics(entries),
        0 <= i < entries.len(),
    ensures
        table_of(entries).contains_key(entries[i].0),
        table_of(entries)[entries[i].0] == entries[i].1,
    decreases entries.len(),
{
    if i < entries.len() - 1 {
        let before = entries.drop_last();
        assert(before[i] == entries[i]);
        assert forall|a: int, b: int| 0 <= a < b < before.len() implies (#[trigger] before[a]).0 != (
        #[trigger] before[b]).0 by {
            assert(before[a] == entries[a] && before[b] == entries[b]);
        }
        lemma_table_holds_each_list(before, i);
        assert(entries[i].0 != entries[entries.len() - 1].0);
    }
}

/// The refusal to register a topic a second time.
#[derive(Debug)]
pub struct DuplicateTopic {
    pub topic: String,
}

/// A topic with its routines.
#[derive(Debug)]
struct Entry {
    topic: String,
    routines: RoutineList,
}

/// The table of topics. It is filled by `register` while the program starts;
/// `lookup` only reads it.
#[derive(Debug)]
pub struct Registry {
    entries: Vec<Entry>,
}

impl View for Registry {
    type V = Map<Seq<char>, Seq<Routine>>;

    /// The routines of each registered topic.
    closed spec fn view(&self) -> Map<Seq<char>, Seq<Routine>> {
        Map::new(
            |topic: Seq<char>| self.holds(topic),
            |topic: Seq<char>| self.entries[self.position(topic)].routines@,
        )
    }
}

impl Registry {
    /// No topic stands twice.
    #[verifier::type_invariant]
    spec fn unique(self) -> bool {
        forall|i: int, j: int|
            0 <= i < j < self.entries.len() ==> self.entries[i].topic@ != self.entries[j].topic@
    }

    /// Whether an entry has the topic.
    spec fn holds(self, topic: Seq<char>) -> bool {
        exists|i: int| 0 <= i < self.entries.len() && #[trigger] self.entries[i].topic@ == topic
    }

    /// Where the entry with the topic stands.
    spec fn position(self, topic: Seq<char>) -> int {
        choose|i: int| 0 <= i < self.entries.len() && #[trigger] self.entries[i].topic@ == topic
    }

    /// A registry without topics.
    pub fn new() -> (registry: Registry)
        ensures
            registry@ == Map::<Seq<char>, Seq<Routine>>::empty(),
    {
        let registry = Registry { entries: Vec::new() };
        assert(registry@ =~= Map::<Seq<char>, Seq<Routine>>::empty());
        registry
    }

    /// The topics of the sections that stand before the given place, each
    /// with the routines of its section.
    spec fn first_topics(places: int) -> Map<Seq<char>, Seq<Routine>> {
        Map::new(
            |topic: Seq<char>| section_of(topic) is Some && section_of(topic)->0.place() < places,
            |topic: Seq<char>| section_of(topic)->0.batch(),
        )
    }

    /// The registry of the tour: each section under its topic, with its ten
    /// routines in order. No topic is refused, since no two sections share
    /// one.
    pub fn standard() -> (registry: Registry)
        ensures
            registry@ == standard_topics(),
    {
        let sections: Vec<Section> = Section::all();
        let mut registry = Registry::new();
        assert(registry@ =~= Self::first_topics(0));
        let mut k: usize = 0;
        while k < sections.len()
            invariant
                k <= sections.len(),
                sections@ == all_sections(),
                registry@ == Self::first_topics(k as int),
            decreases sections.len() - k,
        {
            let section: Section = sections[k];
            let ghost before = registry@;
            proof {
                lemma_topics_name_sections();
                assert(section.place() == k);
            }
            let result = registry.register(section.name(), section.routines());
            assert(result is Ok);
            assert(registry@ =~= Self::first_topics(k + 1)) by {
                assert forall|topic: Seq<char>| #[trigger]
                    Self::first_topics(k + 1).contains_key(topic) implies before.insert(
                    section.topic(),
                    section.batch(),
                ).contains_key(topic) by {
                    let named = section_of(topic)->0;
                    if named.place() == k {
                        assert(named == section);
                    }
                }
            }
            k += 1;
        }
        assert(registry@ =~= standard_topics()) by {
            assert forall|topic: Seq<char>| section_of(topic) is Some implies section_of(
                topic,
            )->0.place() < 16 by {}
        }
        registry
    }

    /// The registry of the topics in the list, each with its routines. A
    /// list in which a topic stands twice makes no registry: the topic that
    /// first repeats an earlier one is handed back in the refusal.
    pub fn build(entries: Vec<(String, RoutineList)>) -> (result: Result<Registry, DuplicateTopic>)
        ensures
            match result {
                Ok(registry) => distinct_topics(plain_entries(entries@)) && registry@ == table_of(
                    plain_entries(entries@),
                ),
                Err(refusal) => exists|i: int, j: int|
                    0 <= i < j < entries.len() && entries[i].0@ == entries[j].0@
                        && refusal.topic@ == entries[j].0@ && distinct_topics(
                        plain_entries(entries@).take(j),
                    ),
            },
    {
        let ghost listed = plain_entries(entries@);
        let mut registry = Registry::new();
        assert(listed.take(0) =~= Seq::empty());
        for entry in it: entries
            invariant
                it.seq() == entries@,
                listed == plain_entries(entries@),
                distinct_topics(listed.take(it.index() as int)),
                registry@ == table_of(listed.take(it.index() as int)),
        {
            let ghost k = it.index() as int;
            let (topic, routines) = entry;
            proof {
                lemma_table_holds_the_topics(listed.take(k));
                assert(listed.take(k + 1).drop_last() =~= listed.take(k));
                assert(listed.take(k + 1).last() == (topic@, routines@));
            }
            match registry.register(topic.as_str(), routines) {
                Ok(()) => {
                    let ghost next = listed.take(k + 1);
                    assert forall|i: int, j: int| 0 <= i < j < next.len() implies (
                    #[trigger] next[i]).0 != (#[trigger] next[j]).0 by {
                        if j == k {
                            assert(listed.take(k)[i].0 == next[i].0);
                        } else {
                            assert(listed.take(k)[i].0 != listed.take(k)[j].0);
                        }
                    }
                },
                Err(refusal) => {
                    proof {
                        let i = choose|i: int|
                            0 <= i < k && (#[trigger] listed.take(k)[i]).0 == topic@;
                        assert(entries[i].0@ == listed.take(k)[i].0);
                        assert(entries[k].0@ == topic@);
                    }
                    return Err(refusal);
                },
            }
        }
        assert(listed.take(entries.len() as int) =~= listed);
        Ok(registry)
    }

    /// Where the entry with the topic stands, if there is one.
    fn find(&self, topic: &String) -> (found: Option<usize>)
        ensures
            match found {
                Some(i) => i < self.entries.len() && self.entries[i as int].topic@ == topic@,
                None => !self.holds(topic@),
            },
    {
        let mut i: usize = 0;
        while i < self.entries.len()
            invariant
                i <= self.entries.len(),
                forall|j: int| 0 <= j < i ==> self.entries[j].topic@ != topic@,
            decreases self.entries.len() - i,
        {
            if self.entries[i].topic == *topic {
                return Some(i);
            }
            i += 1;
        }
        None
    }

    /// Registers the routines under the topic, unless the topic is taken:
    /// then the registry stays as it is, and the topic is handed back in the
    /// refusal.
    pub fn register(&mut self, topic: &str, routines: RoutineList) -> (result: Result<
        (),
        DuplicateTopic,
    >)
        ensures
            registered(old(self)@, topic@, routines@, final(self)@, result is Ok),
            result is Err ==> result->Err_0.topic@ == topic@,
    {
        let key: String = topic.to_owned();
        proof {
            use_type_invariant(&*self);
        }
        match self.find(&key) {
            Some(_) => Err(DuplicateTopic { topic: key }),
            None => {
                let ghost before = *self;
                let mut entries: Vec<Entry> = Vec::new();
                core::mem::swap(&mut self.entries, &mut entries);
                entries.push(Entry { topic: key, routines });
                self.entries = entries;
                proof {
                    let last = before.entries.len() as int;
                    assert(self.entries[last].topic@ == topic@);
                    assert forall|t: Seq<char>| self.holds(t) <==> (t == topic@ || before.holds(
                        t,
                    )) by {
                        if self.holds(t) {
                            let i = self.position(t);
                            if i < last {
                                assert(before.entries[i].topic@ == t);
                            }
                        }
                        if before.holds(t) {
                            let i = before.position(t);
                            assert(self.entries[i].topic@ == t);
                        }
                    }
                    assert forall|t: Seq<char>| before.holds(t) implies self.entries[self.position(
                        t,
                    )].routines@ == before.entries[before.position(t)].routines@ by {
                        let i = before.position(t);
                        assert(self.entries[i].topic@ == t);
                        let j = self.position(t);
                        assert(i == j);
                    }
                    assert(self@ =~= before@.insert(topic@, routines@));
                }
                Ok(())
            },
        }
    }

    /// The routines that are registered under the topic, if it is registered.
    pub fn lookup(&self, topic: &str) -> (found: Option<&RoutineList>)
        ensures
            match found {
                Some(routines) => self@.contains_key(topic@) && routines@ == self@[topic@],
                None => !self@.contains_key(topic@),
            },
    {
        let key: String = topic.to_owned();
        proof {
            use_type_invariant(self);
        }
        match self.find(&key) {
            Some(i) => {
                proof {
                    let j = self.position(topic@);
                    assert(i == j);
                }
                Some(&self.entries[i].routines)
            },
            None => None,
        }
    }
}

} // verus!
