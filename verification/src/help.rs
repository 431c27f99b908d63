//! The read-only summary of a shell from which help is presented.

use crate::command::{Command, CommandView};
use crate::error::{failure_of, Error};
use crate::parameter::{Parameter, ParameterView};
use crate::registry::{distinct_names, named_at, Registry};
use crate::text::{
    lemma_precedes_irreflexive, lemma_precedes_total, lemma_precedes_transitive, name_precedes,
    optional_text, precedes,
};
use vstd::prelude::*;

verus! {

/// What help shows of one command: its name, each parameter's name with
/// whether it is required, and the command's description.
#[derive(Debug, Clone, PartialEq, Eq)]
pub struct HelpEntry {
    pub command: String,
    pub parameters: Vec<(String, bool)>,
    pub summary: Option<String>,
}

/// The mathematical content of a [`HelpEntry`].
pub struct HelpEntryView {
    pub command: Seq<char>,
    pub parameters: Seq<(Seq<char>, bool)>,
    pub summary: Option<Seq<char>>,
}

impl View for HelpEntry {
    type V = HelpEntryView;

    open spec fn view(&self) -> HelpEntryView {
        HelpEntryView {
            command: self.command@,
            parameters: self.parameters@.map_values(|p: (String, bool)| (p.0@, p.1)),
            summary: optional_text(self.summary),
        }
    }
}

/// What help shows of a parameter.
pub open spec fn parameter_summary(parameter: ParameterView) -> (Seq<char>, bool) {
    (parameter.name, parameter.required)
}

/// The help entry of a command.
pub open spec fn entry_of(command: CommandView) -> HelpEntryView {
    HelpEntryView {
        command: command.name,
        parameters: command.parameters.map_values(|p: ParameterView| parameter_summary(p)),
        summary: command.help_summary,
    }
}

/// The mathematical content of each entry of a list.
pub open spec fn entry_views(entries: Seq<HelpEntry>) -> Seq<HelpEntryView> {
    entries.map_values(|entry: HelpEntry| entry@)
}

impl HelpEntry {
    /// Summarises a command.
    pub fn new(command_name: &str, parameters: &[Parameter], summary: &Option<String>) -> (entry:
        Self)
        ensures
            entry@ == (HelpEntryView {
                command: command_name@,
                parameters: parameters@.map_values(|p: Parameter| parameter_summary(p@)),
                summary: optional_text(*summary),
            }),
    {
        let mut summaries: Vec<(String, bool)> = Vec::new();
        let mut i: usize = 0;
        while i < parameters.len()
            invariant
                i <= parameters.len(),
                summaries.len() == i,
                forall|k: int|
                    0 <= k < i ==> ((#[trigger] summaries@[k]).0@, summaries@[k].1)
                        == parameter_summary(parameters@[k]@),
            decreases parameters.len() - i,
        {
            summaries.push((parameters[i].name().to_owned(), parameters[i].is_required()));
            i = i + 1;
        }
        let entry = HelpEntry {
            command: command_name.to_owned(),
            parameters: summaries,
            summary: summary.clone(),
        };
        assert(entry@.parameters =~= parameters@.map_values(
            |p: Parameter| parameter_summary(p@),
        ));
        entry
    }
}

/// The snapshot of a shell that help is presented from: what the shell calls
/// itself, and an entry for each command, in lexical order of the names.
#[derive(Debug, Clone, PartialEq, Eq)]
pub struct HelpContext {
    pub app_name: String,
    pub app_version: String,
    pub app_purpose: String,
    pub help_entries: Vec<HelpEntry>,
}

/// The mathematical content of a [`HelpContext`].
pub struct HelpContextView {
    pub app_name: Seq<char>,
    pub app_version: Seq<char>,
    pub app_purpose: Seq<char>,
    pub help_entries: Seq<HelpEntryView>,
}

impl View for HelpContext {
    type V = HelpContextView;

    open spec fn view(&self) -> HelpContextView {
        HelpContextView {
            app_name: self.app_name@,
            app_version: self.app_version@,
            app_purpose: self.app_purpose@,
            help_entries: entry_views(self.help_entries@),
        }
    }
}

/// The entry at `i` is for `command`, and no entry before it is.
pub open spec fn is_first_entry(entries: Seq<HelpEntryView>, command: Seq<char>, i: int) -> bool {
    &&& 0 <= i < entries.len()
    &&& entries[i].command == command
    &&& forall|k: int| 0 <= k < i ==> (#[trigger] entries[k]).command != command
}

/// Where the first entry for `command` stands among `entries`, if there is one.
pub open spec fn entry_index(entries: Seq<HelpEntryView>, command: Seq<char>) -> Option<int> {
    if exists|i: int| is_first_entry(entries, command, i) {
        Some(choose|i: int| is_first_entry(entries, command, i))
    } else {
        None
    }
}

impl HelpContext {
    /// Puts a snapshot together from its parts.
    pub fn new(app_name: &str, app_version: &str, app_purpose: &str, help_entries: Vec<
        HelpEntry,
    >) -> (context: Self)
        ensures
            context@ == (HelpContextView {
                app_name: app_name@,
                app_version: app_version@,
                app_purpose: app_purpose@,
                help_entries: entry_views(help_entries@),
            }),
    {
        HelpContext {
            app_name: app_name.to_owned(),
            app_version: app_version.to_owned(),
            app_purpose: app_purpose.to_owned(),
            help_entries,
        }
    }

    /// Finds the first entry for a command.
    pub fn find(&self, command: &str) -> (at: Option<usize>)
        ensures
            entry_index(self@.help_entries, command@) == match at {
                Some(i) => Some(i as int),
                None => None,
            },
    {
        let mut i: usize = 0;
        while i < self.help_entries.len()
            invariant
                i <= self.help_entries.len(),
                forall|k: int| 0 <= k < i ==> (#[trigger] self@.help_entries[k]).command != command@,
            decreases self.help_entries.len() - i,
        {
            if self.help_entries[i].command.as_str().eq(command) {
                proof {
                    let entries = self@.help_entries;
                    assert(entries[i as int].command == command@);
                    assert(is_first_entry(entries, command@, i as int));
                    let first = choose|k: int| is_first_entry(entries, command@, k);
                    if first < i {
                        assert(entries[first].command != command@);
                    } else if first > i {
                        assert(entries[i as int].command != command@);
                    }
                }
                return Some(i);
            }
            i = i + 1;
        }
        proof {
            let entries = self@.help_entries;
            if exists|k: int| is_first_entry(entries, command@, k) {
                let k = choose|k: int| is_first_entry(entries, command@, k);
                assert(entries[k].command != command@);
            }
        }
        None
    }
}

/// What presents help to the user. A shell without a viewer of its own
/// leaves the presentation to the program around it.
pub trait HelpViewer {
    /// What presenting the whole snapshot may end in: no failure, or which.
    /// A viewer that says nothing of itself may end in anything.
    open spec fn shows_general(&self, context: HelpContextView, failure: Option<Error>) -> bool {
        true
    }

    /// What presenting one entry may end in: no failure, or which.
    open spec fn shows_command(&self, entry: HelpEntryView, failure: Option<Error>) -> bool {
        true
    }

    /// Presents every command with its description.
    fn help_general(&self, context: &HelpContext) -> (answer: Result<(), Error>)
        ensures
            self.shows_general(context@, failure_of(answer)),
    ;

    /// Presents one command with its parameters.
    fn help_command(&self, entry: &HelpEntry) -> (answer: Result<(), Error>)
        ensures
            self.shows_command(entry@, failure_of(answer)),
    ;
}

/// The help viewer of a shell that was given none. As a viewer it presents
/// nothing and never fails.
#[derive(Debug, Clone, Copy, PartialEq, Eq)]
pub struct NoHelpViewer;

impl HelpViewer for NoHelpViewer {
    open spec fn shows_general(&self, context: HelpContextView, failure: Option<Error>) -> bool {
        failure is None
    }

    open spec fn shows_command(&self, entry: HelpEntryView, failure: Option<Error>) -> bool {
        failure is None
    }

    fn help_general(&self, context: &HelpContext) -> (answer: Result<(), Error>) {
        Ok(())
    }

    fn help_command(&self, entry: &HelpEntry) -> (answer: Result<(), Error>) {
        Ok(())
    }
}

/// The entries stand in strict lexical order of their command names.
pub open spec fn in_name_order(entries: Seq<HelpEntryView>) -> bool {
    forall|i: int, j: int|
        0 <= i < j < entries.len() ==> precedes(
            (#[trigger] entries[i]).command,
            (#[trigger] entries[j]).command,
        )
}

/// `entries` is the help listing of the registered commands: in lexical
/// order of the names, an entry for each command and none besides.
pub open spec fn lists<Context, E, H>(
    entries: Seq<HelpEntryView>,
    registry: Map<Seq<char>, Command<Context, E, H>>,
) -> bool {
    &&& in_name_order(entries)
    &&& forall|i: int|
        0 <= i < entries.len() ==> registry.contains_key((#[trigger] entries[i]).command)
            && entries[i] == entry_of(registry[entries[i].command]@)
    &&& forall|name: Seq<char>| #[trigger]
        registry.contains_key(name) ==> exists|i: int|
            0 <= i < entries.len() && (#[trigger] entries[i]).command == name
}

proof fn lemma_same_names<Context, E, H>(
    one: Seq<HelpEntryView>,
    other: Seq<HelpEntryView>,
    registry: Map<Seq<char>, Command<Context, E, H>>,
    n: int,
)
    requires
        lists(one, registry),
        lists(other, registry),
        0 <= n <= one.len(),
    ensures
        n <= other.len(),
        forall|k: int| 0 <= k < n ==> (#[trigger] one[k]).command == other[k].command,
    decreases n,
{
    if n > 0 {
        lemma_same_names(one, other, registry, n - 1);
        let i = n - 1;
        let name = one[i].command;
        assert(registry.contains_key(name));
        let j = choose|j: int| 0 <= j < other.len() && (#[trigger] other[j]).command == name;
        lemma_precedes_irreflexive(name);
        if j < i {
            assert(one[j].command == other[j].command);
            assert(precedes(one[j].command, one[i].command));
        } else if j > i {
            let there = other[i].command;
            assert(registry.contains_key(there));
            let m = choose|m: int| 0 <= m < one.len() && (#[trigger] one[m]).command == there;
            assert(precedes(other[i].command, other[j].command));
            if m < i {
                assert(one[m].command == other[m].command);
                assert(precedes(other[m].command, other[i].command));
                lemma_precedes_irreflexive(there);
            } else if m > i {
                assert(precedes(one[i].command, one[m].command));
                lemma_precedes_transitive(name, there, name);
            }
        }
    }
}

/// The help listing depends on which commands are registered and on nothing
/// else: two listings of the same commands are equal, in whatever order the
/// commands were registered.
pub proof fn lemma_listing_is_unique<Context, E, H>(
    one: Seq<HelpEntryView>,
    other: Seq<HelpEntryView>,
    registry: Map<Seq<char>, Command<Context, E, H>>,
)
    requires
        lists(one, registry),
        lists(other, registry),
    ensures
        one == other,
{
    lemma_same_names(one, other, registry, one.len() as int);
    lemma_same_names(other, one, registry, other.len() as int);
    assert(one =~= other);
}

/// Makes an entry for each command and puts the entries in order.
fn entries_in_order<Context, E, H>(commands: &Vec<Command<Context, E, H>>) -> (entries: Vec<HelpEntry>)
    requires
        distinct_names(commands@),
    ensures
        entries@.len() == commands@.len(),
        in_name_order(entry_views(entries@)),
        forall|i: int|
            0 <= i < entries@.len() ==> exists|k: int|
                0 <= k < commands@.len() && (#[trigger] entries@[i])@ == entry_of(
                    (#[trigger] commands@[k])@,
                ),
        forall|k: int|
            0 <= k < commands@.len() ==> exists|i: int|
                0 <= i < entries@.len() && (#[trigger] entries@[i])@ == entry_of(
                    (#[trigger] commands@[k])@,
                ),
{
    let mut entries: Vec<HelpEntry> = Vec::new();
    let ghost mut source: Seq<int> = Seq::empty();
    let ghost mut place: Seq<int> = Seq::empty();
    let mut n: usize = 0;
    while n < commands.len()
        invariant
            n <= commands.len(),
            distinct_names(commands@),
            entries@.len() == n,
            source.len() == n,
            forall|i: int| 0 <= i < n ==> 0 <= #[trigger] source[i] < n,
            forall|i: int| 0 <= i < n ==> (#[trigger] entries@[i])@ == entry_of(commands@[source[i]]@),
            place.len() == n,
            forall|k: int| 0 <= k < n ==> 0 <= #[trigger] place[k] < n && source[place[k]] == k,
            forall|i: int, j: int|
                0 <= i < j < n ==> precedes(
                    (#[trigger] entries@[i])@.command,
                    (#[trigger] entries@[j])@.command,
                ),
        decreases commands.len() - n,
    {
        let command = &commands[n];
        let entry = HelpEntry::new(
            command.name(),
            command.parameters().as_slice(),
            command.help_summary(),
        );
        assert(entry@ == entry_of(command@)) by {
            assert(entry@.parameters =~= entry_of(command@).parameters);
        }
        let mut at: usize = 0;
        while at < entries.len() && name_precedes(entries[at].command.as_str(), entry.command.as_str())
            invariant
                at <= entries.len(),
                forall|i: int|
                    0 <= i < at ==> precedes((#[trigger] entries@[i])@.command, entry@.command),
            decreases entries.len() - at,
        {
            at = at + 1;
        }
        let ghost before = entries@;
        let ghost origin = source;
        entries.insert(at, entry);
        proof {
            source = origin.insert(at as int, n as int);
            place = place.map_values(|i: int| if i < at { i } else { i + 1 }).push(at as int);
            let name = entry@.command;
            assert forall|i: int| 0 <= i < n + 1 implies (#[trigger] entries@[i])@ == entry_of(
                commands@[source[i]]@,
            ) by {
                if i < at {
                    assert(entries@[i] == before[i]);
                } else if i > at {
                    assert(entries@[i] == before[i - 1]);
                }
            }
            assert forall|i: int, j: int| 0 <= i < j < n + 1 implies precedes(
                (#[trigger] entries@[i])@.command,
                (#[trigger] entries@[j])@.command,
            ) by {
                if j < at {
                    assert(entries@[i] == before[i] && entries@[j] == before[j]);
                } else if i > at {
                    assert(entries@[i] == before[i - 1] && entries@[j] == before[j - 1]);
                } else if j == at {
                    assert(entries@[i] == before[i]);
                } else if i < at {
                    assert(entries@[i] == before[i] && entries@[j] == before[j - 1]);
                } else {
                    // i == at < j: the new entry against those that it was put before
                    let first = before[at as int]@.command;
                    assert(entries@[j] == before[j - 1]);
                    assert(before[at as int]@ == entry_of(commands@[origin[at as int]]@));
                    assert(commands@[origin[at as int]]@.name != commands@[n as int]@.name);
                    lemma_precedes_total(name, first);
                    if j - 1 > at {
                        assert(precedes(first, before[j - 1]@.command));
                        lemma_precedes_transitive(name, first, before[j - 1]@.command);
                    }
                }
            }
        }
        n = n + 1;
    }
    proof {
        let views = entry_views(entries@);
        assert forall|i: int, j: int| 0 <= i < j < views.len() implies precedes(
            (#[trigger] views[i]).command,
            (#[trigger] views[j]).command,
        ) by {
            assert(precedes(entries@[i]@.command, entries@[j]@.command));
        }
        assert forall|k: int| 0 <= k < commands@.len() implies exists|i: int|
            0 <= i < entries@.len() && (#[trigger] entries@[i])@ == entry_of(
                (#[trigger] commands@[k])@,
            ) by {
            assert(entries@[place[k]]@ == entry_of(commands@[k]@));
        }
        assert forall|i: int| 0 <= i < entries@.len() implies exists|k: int|
            0 <= k < commands@.len() && (#[trigger] entries@[i])@ == entry_of(
                (#[trigger] commands@[k])@,
            ) by {
            assert(entries@[i]@ == entry_of(commands@[source[i]]@));
        }
    }
    entries
}

/// Makes the help listing of the registered commands.
pub fn listing<Context, E, H>(registry: &Registry<Context, E, H>) -> (entries: Vec<HelpEntry>)
    ensures
        lists(entry_views(entries@), registry@),
{
    let commands = registry.commands();
    let entries = entries_in_order(commands);
    proof {
        let views = entry_views(entries@);
        assert forall|i: int| 0 <= i < views.len() implies registry@.contains_key(
            (#[trigger] views[i]).command,
        ) && views[i] == entry_of(registry@[views[i].command]@) by {
            let k = choose|k: int|
                0 <= k < commands@.len() && (#[trigger] entries@[i])@ == entry_of(
                    (#[trigger] commands@[k])@,
                );
            assert(registry@.contains_key(registry.listing()[k]@.name));
        }
        assert forall|name: Seq<char>| #[trigger] registry@.contains_key(name) implies exists|
            i: int,
        |
            0 <= i < views.len() && (#[trigger] views[i]).command == name by {
            let k = choose|k: int| named_at(registry.listing(), name, k);
            let i = choose|i: int|
                0 <= i < entries@.len() && (#[trigger] entries@[i])@ == entry_of(
                    (#[trigger] commands@[k])@,
                );
            assert(views[i].command == name);
        }
    }
    entries
}

} // verus!
