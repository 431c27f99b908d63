//! The commands of a shell, by name.

use crate::command::{Command, Handler};
use vstd::prelude::*;

verus! {

/// The registered commands, by name. No two of them share a name:
/// registering a command under a name that is taken replaces the earlier
/// command. The commands stand in a vector, in the order in which their
/// names were first registered, because the help listing and the line
/// editor go through all of them.
#[verifier::reject_recursive_types(Context)]
#[verifier::reject_recursive_types(E)]
pub struct Registry<Context, E, H = Box<dyn Handler<Context, E>>> {
    commands: Vec<Command<Context, E, H>>,
}

/// No two commands of the sequence share a name.
pub open spec fn distinct_names<Context, E, H>(commands: Seq<Command<Context, E, H>>) -> bool {
    forall|i: int, j: int|
        0 <= i < j < commands.len() ==> (#[trigger] commands[i])@.name != (
        #[trigger] commands[j])@.name
}

/// `name` is the name of the command at `i`.
pub open spec fn named_at<Context, E, H>(
    commands: Seq<Command<Context, E, H>>,
    name: Seq<char>,
    i: int,
) -> bool {
    0 <= i < commands.len() && commands[i]@.name == name
}

impl<Context, E, H> View for Registry<Context, E, H> {
    type V = Map<Seq<char>, Command<Context, E, H>>;

    /// The commands by their names.
    closed spec fn view(&self) -> Map<Seq<char>, Command<Context, E, H>> {
        Map::new(
            |name: Seq<char>| exists|i: int| named_at(self.commands@, name, i),
            |name: Seq<char>| self.commands@[choose|i: int| named_at(self.commands@, name, i)],
        )
    }
}

impl<Context, E, H> Registry<Context, E, H> {
    #[verifier::type_invariant]
    spec fn well_formed(self) -> bool {
        distinct_names(self.commands@)
    }

    /// The commands in the order in which their names were first registered.
    pub closed spec fn listing(&self) -> Seq<Command<Context, E, H>> {
        self.commands@
    }

    /// The listing holds each registered command once, and nothing else.
    pub open spec fn listed(&self) -> bool {
        &&& distinct_names(self.listing())
        &&& forall|i: int|
            0 <= i < self.listing().len() ==> self@.contains_key(
                (#[trigger] self.listing()[i])@.name,
            ) && self@[self.listing()[i]@.name] == self.listing()[i]
        &&& forall|name: Seq<char>| #[trigger]
            self@.contains_key(name) ==> exists|i: int| named_at(self.listing(), name, i)
    }

    proof fn lemma_listed(&self)
        requires
            distinct_names(self.commands@),
        ensures
            self.listed(),
    {
        assert forall|i: int| 0 <= i < self.listing().len() implies self@.contains_key(
            (#[trigger] self.listing()[i])@.name,
        ) && self@[self.listing()[i]@.name] == self.listing()[i] by {
            let name = self.listing()[i]@.name;
            assert(named_at(self.commands@, name, i));
            let k = choose|k: int| named_at(self.commands@, name, k);
            assert(k == i);
        }
    }

    /// Creates a registry without commands.
    pub fn new() -> (registry: Self)
        ensures
            registry@ == Map::<Seq<char>, Command<Context, E, H>>::empty(),
            registry.listing() == Seq::<Command<Context, E, H>>::empty(),
    {
        let registry = Registry { commands: Vec::new() };
        assert(registry@ =~= Map::<Seq<char>, Command<Context, E, H>>::empty());
        registry
    }

    /// Registers a command under its name, in place of the command that had
    /// the name before, if there was one.
    pub fn insert(self, command: Command<Context, E, H>) -> (registry: Self)
        ensures
            registry@ == self@.insert(command@.name, command),
    {
        proof {
            use_type_invariant(&self);
        }
        let ghost before = self.commands@;
        let ghost name = command@.name;
        let mut commands = self.commands;
        let mut i: usize = 0;
        while i < commands.len() && !commands[i].name().eq(command.name())
            invariant
                i <= commands.len(),
                commands@ == before,
                name == command@.name,
                forall|k: int| 0 <= k < i ==> (#[trigger] commands@[k])@.name != name,
            decreases commands.len() - i,
        {
            i = i + 1;
        }
        if i < commands.len() {
            commands.set(i, command);
        } else {
            commands.push(command);
        }
        let ghost after = commands@;
        let ghost at = i as int;
        proof {
            assert(after[at] == command);
            assert(forall|k: int| 0 <= k < after.len() && k != at ==> after[k] == before[k]);
            assert(forall|k: int| 0 <= k < before.len() && k != at ==> before[k]@.name != name);
            assert(distinct_names(after));
        }
        let registry = Registry { commands };
        proof {
            self.lemma_listed();
            registry.lemma_listed();
            let expected = self@.insert(name, command);
            assert forall|n: Seq<char>| #[trigger] registry@.contains_key(n) == expected.contains_key(
                n,
            ) by {
                if registry@.contains_key(n) {
                    let k = choose|k: int| named_at(after, n, k);
                    if k != at {
                        assert(named_at(before, n, k));
                    }
                }
                if expected.contains_key(n) && n != name {
                    let k = choose|k: int| named_at(before, n, k);
                    assert(named_at(after, n, k));
                }
                if n == name {
                    assert(named_at(after, n, at));
                }
            }
            assert forall|n: Seq<char>| #[trigger] registry@.contains_key(n) implies registry@[n]
                == expected[n] by {
                let k = choose|k: int| named_at(after, n, k);
                if k != at {
                    assert(named_at(before, n, k));
                    assert(self@[before[k]@.name] == before[k]);
                }
            }
            assert(registry@ =~= expected);
        }
        registry
    }

    /// Looks a command up by its name.
    pub fn find(&self, name: &str) -> (found: Option<&Command<Context, E, H>>)
        ensures
            found is Some == self@.contains_key(name@),
            found matches Some(command) ==> *command == self@[name@],
    {
        proof {
            use_type_invariant(self);
            self.lemma_listed();
        }
        let mut i: usize = 0;
        while i < self.commands.len()
            invariant
                i <= self.commands.len(),
                self.listed(),
                forall|k: int| 0 <= k < i ==> (#[trigger] self.commands@[k])@.name != name@,
            decreases self.commands.len() - i,
        {
            if self.commands[i].name().eq(name) {
                return Some(&self.commands[i]);
            }
            i = i + 1;
        }
        assert(!self@.contains_key(name@)) by {
            if self@.contains_key(name@) {
                let k = choose|k: int| named_at(self.listing(), name@, k);
                assert(self.commands@[k]@.name == name@);
            }
        }
        None
    }

    /// The commands, each once, in the order in which their names were first
    /// registered.
    pub fn commands(&self) -> (commands: &Vec<Command<Context, E, H>>)
        ensures
            commands@ == self.listing(),
            self.listed(),
    {
        proof {
            use_type_invariant(self);
            self.lemma_listed();
        }
        &self.commands
    }
}

/// Registering a second command under a name that is taken leaves only the
/// second under that name, and every other name as it was.
pub proof fn lemma_insert_replaces<Context, E, H>(
    registry: Map<Seq<char>, Command<Context, E, H>>,
    first: Command<Context, E, H>,
    second: Command<Context, E, H>,
)
    requires
        first@.name == second@.name,
    ensures
        registry.insert(first@.name, first).insert(second@.name, second) == registry.insert(
            second@.name,
            second,
        ),
        registry.insert(second@.name, second)[second@.name] == second,
        forall|name: Seq<char>|
            name != second@.name ==> (#[trigger] registry.insert(second@.name, second).contains_key(
                name,
            ) == registry.contains_key(name)),
        forall|name: Seq<char>|
            name != second@.name && registry.contains_key(name) ==> #[trigger] registry.insert(
                second@.name,
                second,
            )[name] == registry[name],
{
    assert(registry.insert(first@.name, first).insert(second@.name, second) =~= registry.insert(
        second@.name,
        second,
    ));
}

} // verus!
