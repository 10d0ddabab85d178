//! The dispatcher: from the arguments of the program to the lines that it
//! writes.
//!
//! The first argument after the program's name is the topic; any further
//! ones are ignored. A registered topic has its routines run in order, and
//! what they write is handed on as it is. Without a topic the dispatcher
//! writes a hint, for a topic that is not registered a complaint; neither is
//! a failure.
use vstd::prelude::*;
use vstd::string::*;
use crate::error_handling::outcome;
use crate::registry::{
    batch_output, section_of, standard_topics, Registry, Routine, RoutineList, Section,
};
use crate::text::emit;

verus! {

/// What is written when no topic is given.
pub const USAGE: &'static str =
    "Please specify a section to run. For example: `cargo run variables`";

/// What is written for a topic that is not registered.
pub const UNRECOGNIZED: &'static str = "Section not recognized. Please specify a valid section.";

/// The topic that the arguments ask for: the first after the program's name.
pub open spec fn requested(argv: Seq<Seq<char>>) -> Option<Seq<char>> {
    if argv.len() > 1 {
        Some(argv[1])
    } else {
        None
    }
}

/// What is written for the arguments, with the given topics registered.
pub open spec fn respond(
    topics: Map<Seq<char>, Seq<Routine>>,
    argv: Seq<Seq<char>>,
    file: Result<Seq<char>, Seq<char>>,
) -> Seq<Seq<char>> {
    match requested(argv) {
        None => seq![USAGE@],
        Some(topic) => if topics.contains_key(topic) {
            batch_output(topics[topic], file)
        } else {
            seq![UNRECOGNIZED@]
        },
    }
}

/// Whether one of the routines reports on the file.
pub open spec fn reports_on_file(routines: Seq<Routine>) -> bool {
    exists|i: int| 0 <= i < routines.len() && (#[trigger] routines[i]).reports_on_file()
}

/// Whether what is written for the arguments depends on the file.
pub open spec fn wants_file(topics: Map<Seq<char>, Seq<Routine>>, argv: Seq<Seq<char>>) -> bool {
    match requested(argv) {
        None => false,
        Some(topic) => topics.contains_key(topic) && reports_on_file(topics[topic]),
    }
}

/// Whether one of the routines reports on the file.
pub fn batch_reads_file(routines: &RoutineList) -> (reads: bool)
    ensures
        reads == reports_on_file(routines@),
{
    let mut k: usize = 0;
    while k < routines.len()
        invariant
            k <= routines.len(),
            forall|i: int| 0 <= i < k ==> !(#[trigger] routines[i]).reports_on_file(),
        decreases routines.len() - k,
    {
        if routines[k].reads_file() {
            return true;
        }
        k += 1;
    }
    false
}

/// Runs the routines in order; each writes after the one before it.
pub fn run_batch(routines: &RoutineList, file: &Result<String, String>, out: &mut Vec<String>)
    ensures
        final(out).deep_view() == old(out).deep_view() + batch_output(routines@, outcome(*file)),
{
    let mut k: usize = 0;
    assert(out.deep_view() =~= old(out).deep_view() + batch_output(
        routines@.take(0),
        outcome(*file),
    ));
    while k < routines.len()
        invariant
            k <= routines.len(),
            out.deep_view() == old(out).deep_view() + batch_output(
                routines@.take(k as int),
                outcome(*file),
            ),
        decreases routines.len() - k,
    {
        routines[k].invoke(file, out);
        proof {
            assert(routines@.take(k + 1).drop_last() =~= routines@.take(k as int));
            assert(out.deep_view() =~= old(out).deep_view() + batch_output(
                routines@.take(k + 1),
                outcome(*file),
            ));
        }
        k += 1;
    }
    assert(routines@.take(k as int) =~= routines@);
}

/// The dispatcher, with the registry that it was made with.
#[derive(Debug)]
pub struct Dispatcher {
    registry: Registry,
}

impl Dispatcher {
    /// The topics that are registered, each with its routines.
    pub closed spec fn topics(self) -> Map<Seq<char>, Seq<Routine>> {
        self.registry@
    }

    /// A dispatcher for the tour: the registry is built here, once, with each
    /// section under its topic.
    pub fn new() -> (dispatcher: Dispatcher)
        ensures
            dispatcher.topics() == standard_topics(),
    {
        Dispatcher { registry: Registry::standard() }
    }

    /// A dispatcher for the given registry.
    pub fn with_registry(registry: Registry) -> (dispatcher: Dispatcher)
        ensures
            dispatcher.topics() == registry@,
    {
        Dispatcher { registry }
    }

    /// Whether what `run` writes for the arguments depends on the file: where
    /// it does not, the file need not be read.
    pub fn reads_file(&self, argv: &Vec<String>) -> (reads: bool)
        ensures
            reads == wants_file(self.topics(), argv.deep_view()),
    {
        if argv.len() > 1 {
            match self.registry.lookup(argv[1].as_str()) {
                Some(routines) => batch_reads_file(routines),
                None => false,
            }
        } else {
            false
        }
    }

    /// Answers the arguments: the lines of the routines of the topic, or the
    /// hint, or the complaint. `file` is what came of reading
    /// `error_handling::FILE_PATH`.
    pub fn run(&self, argv: &Vec<String>, file: &Result<String, String>) -> (written: Vec<String>)
        ensures
            written.deep_view() == respond(self.topics(), argv.deep_view(), outcome(*file)),
    {
        let mut out: Vec<String> = Vec::new();
        if argv.len() > 1 {
            match self.registry.lookup(argv[1].as_str()) {
                Some(routines) => {
                    run_batch(routines, file, &mut out);
                },
                None => {
                    emit(&mut out, String::from_str(UNRECOGNIZED));
                },
            }
        } else {
            emit(&mut out, String::from_str(USAGE));
        }
        assert(out.deep_view() =~= respond(self.topics(), argv.deep_view(), outcome(*file)));
        out
    }
}

/// Asked for a registered topic, the dispatcher writes what the routines
/// under that topic write, each in its turn, and nothing else.
pub proof fn lemma_registered_topic_runs_its_routines(
    topics: Map<Seq<char>, Seq<Routine>>,
    argv: Seq<Seq<char>>,
    file: Result<Seq<char>, Seq<char>>,
)
    requires
        requested(argv) is Some,
        topics.contains_key(requested(argv)->0),
    ensures
        respond(topics, argv, file) == batch_output(topics[requested(argv)->0], file),
{
}

/// Asked for a topic that is not registered, the dispatcher writes the
/// complaint, and nothing of any routine.
pub proof fn lemma_unregistered_topic_is_refused(
    topics: Map<Seq<char>, Seq<Routine>>,
    argv: Seq<Seq<char>>,
    file: Result<Seq<char>, Seq<char>>,
)
    requires
        requested(argv) is Some,
        !topics.contains_key(requested(argv)->0),
    ensures
        respond(topics, argv, file) == seq![UNRECOGNIZED@],
{
}

/// Two batches run one after the other write what the batch of both writes:
/// the lines of a routine stand after those of all the routines before it.
pub proof fn lemma_batches_write_in_order(
    first: Seq<Routine>,
    second: Seq<Routine>,
    file: Result<Seq<char>, Seq<char>>,
)
    ensures
        batch_output(first + second, file) == batch_output(first, file) + batch_output(
            second,
            file,
        ),
    decreases second.len(),
{
    if second.len() == 0 {
        assert(first + second =~= first);
        assert(batch_output(first, file) + batch_output(second, file) =~= batch_output(
            first,
            file,
        ));
    } else {
        assert((first + second).drop_last() =~= first + second.drop_last());
        lemma_batches_write_in_order(first, second.drop_last(), file);
        assert(batch_output(first + second, file) =~= batch_output(first, file) + batch_output(
            second,
            file,
        ));
    }
}

/// The ten routines of a section write what the section writes.
pub proof fn lemma_section_output(section: Section, file: Result<Seq<char>, Seq<char>>)
    ensures
        batch_output(section.batch(), file) == section.output(file),
{
    let batch = section.batch();
    reveal_with_fuel(batch_output, 11);
    let b9 = batch.drop_last();
    let b8 = b9.drop_last();
    let b7 = b8.drop_last();
    let b6 = b7.drop_last();
    let b5 = b6.drop_last();
    let b4 = b5.drop_last();
    let b3 = b4.drop_last();
    let b2 = b3.drop_last();
    let b1 = b2.drop_last();
    let b0 = b1.drop_last();
    assert(batch.last().output(file) == section.lines(10, file));
    assert(b9.last().output(file) == section.lines(9, file));
    assert(b8.last().output(file) == section.lines(8, file));
    assert(b7.last().output(file) == section.lines(7, file));
    assert(b6.last().output(file) == section.lines(6, file));
    assert(b5.last().output(file) == section.lines(5, file));
    assert(b4.last().output(file) == section.lines(4, file));
    assert(b3.last().output(file) == section.lines(3, file));
    assert(b2.last().output(file) == section.lines(2, file));
    assert(b1.last().output(file) == section.lines(1, file));
    assert(b0.len() == 0);
    assert(batch_output(batch, file) =~= section.output(file));
}

/// Asked for the topic of a section, the dispatcher of the tour writes the
/// lines of the ten demonstrations of that section, in order, and nothing
/// else.
pub proof fn lemma_topic_runs_section(
    section: Section,
    argv: Seq<Seq<char>>,
    file: Result<Seq<char>, Seq<char>>,
)
    requires
        requested(argv) == Some(section.topic()),
    ensures
        respond(standard_topics(), argv, file) == section.output(file),
{
    crate::registry::lemma_topics_name_sections();
    lemma_section_output(section, file);
}

/// Asked for anything that is not the topic of a section, the dispatcher of
/// the tour writes the complaint, and nothing of any demonstration.
pub proof fn lemma_other_topic_is_refused(
    argv: Seq<Seq<char>>,
    file: Result<Seq<char>, Seq<char>>,
)
    requires
        requested(argv) is Some,
        forall|section: Section| requested(argv) != Some(#[trigger] section.topic()),
    ensures
        respond(standard_topics(), argv, file) == seq![UNRECOGNIZED@],
{
    crate::registry::lemma_topics_name_sections();
    let topic = requested(argv)->0;
    if section_of(topic) is Some {
        assert(section_of(topic)->0.topic() == topic);
    }
}

/// Without a topic the dispatcher writes the hint, whatever is registered,
/// and nothing of any demonstration.
pub proof fn lemma_no_topic_gets_hint(
    topics: Map<Seq<char>, Seq<Routine>>,
    argv: Seq<Seq<char>>,
    file: Result<Seq<char>, Seq<char>>,
)
    requires
        argv.len() <= 1,
    ensures
        respond(topics, argv, file) == seq![USAGE@],
{
}

/// What is written depends on the file only where a routine of the topic
/// reports on it.
pub proof fn lemma_file_matters_only_when_wanted(
    topics: Map<Seq<char>, Seq<Routine>>,
    argv: Seq<Seq<char>>,
    one: Result<Seq<char>, Seq<char>>,
    other: Result<Seq<char>, Seq<char>>,
)
    requires
        !wants_file(topics, argv),
    ensures
        respond(topics, argv, one) == respond(topics, argv, other),
{
    if requested(argv) is Some && topics.contains_key(requested(argv)->0) {
        lemma_batch_ignores_file(topics[requested(argv)->0], one, other);
    }
}

/// A batch without a routine that reports on the file writes the same
/// whatever came of reading it.
pub proof fn lemma_batch_ignores_file(
    routines: Seq<Routine>,
    one: Result<Seq<char>, Seq<char>>,
    other: Result<Seq<char>, Seq<char>>,
)
    requires
        !reports_on_file(routines),
    ensures
        batch_output(routines, one) == batch_output(routines, other),
    decreases routines.len(),
{
    if routines.len() > 0 {
        assert(!routines.last().reports_on_file());
        assert forall|i: int| 0 <= i < routines.drop_last().len() implies !(
        #[trigger] routines.drop_last()[i]).reports_on_file() by {
            assert(routines.drop_last()[i] == routines[i]);
        }
        lemma_batch_ignores_file(routines.drop_last(), one, other);
    }
}

/// Asked twice for the same, with the same registry and the same file, the
/// dispatcher writes the same twice: no run leaves anything behind for the
/// next.
pub proof fn lemma_same_request_same_lines(
    dispatcher: Dispatcher,
    argv: Seq<Seq<char>>,
    file: Result<Seq<char>, Seq<char>>,
    first: Seq<Seq<char>>,
    second: Seq<Seq<char>>,
)
    requires
        first == respond(dispatcher.topics(), argv, file),
        second == respond(dispatcher.topics(), argv, file),
    ensures
        first == second,
{
}

} // verus!
