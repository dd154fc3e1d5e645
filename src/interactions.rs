//! The registry of interaction commands and the options they declare.

use vstd::prelude::*;

use crate::text::same_text;

verus! {

/// A named predicate that a command or group runs before it executes.
/// The predicate itself lives with the dispatcher; checks are told apart by
/// name.
#[derive(Debug)]
pub struct Check {
    pub name: String,
}

impl PartialEq for Check {
    fn eq(&self, other: &Check) -> (r: bool)
        ensures
            r == (self.name@ == other.name@),
    {
        self.name == other.name
    }
}

impl vstd::std_specs::cmp::PartialEqSpecImpl for Check {
    open spec fn obeys_eq_spec() -> bool {
        true
    }

    open spec fn eq_spec(&self, other: &Check) -> bool {
        self.name@ == other.name@
    }
}

/// The restrictions that a command or a group of commands declares.
#[derive(Debug)]
pub struct InteractionOptions {
    /// Checks run in this order.
    pub checks: Vec<Check>,
    pub allowed_roles: Vec<u64>,
    pub owners_only: bool,
    /// Whether configured owners skip every other restriction; it takes
    /// effect only where both the command and its group set it.
    pub owner_privilege: bool,
}

impl InteractionOptions {
    /// Options with no checks, no roles and no owner flags.
    pub fn new() -> (r: InteractionOptions)
        ensures
            r.checks@.len() == 0,
            r.allowed_roles@.len() == 0,
            !r.owners_only,
            !r.owner_privilege,
    {
        InteractionOptions {
            checks: Vec::new(),
            allowed_roles: Vec::new(),
            owners_only: false,
            owner_privilege: false,
        }
    }
}

/// A named group of commands.
#[derive(Debug)]
pub struct InteractionGroup {
    pub name: String,
    pub options: InteractionOptions,
}

/// A command of the registry. Its handler is kept by the dispatcher under
/// the same name.
#[derive(Debug)]
pub struct RegisteredInteraction {
    /// The id that the platform gave the command, once uploaded.
    pub command_id: Option<u64>,
    pub name: String,
    pub options: InteractionOptions,
    /// The command's declaration, as JSON, sent when commands are uploaded.
    pub config_json: Vec<u8>,
}

/// A command as the platform reports it after an upload.
#[derive(Clone, Debug)]
pub struct UploadedCommand {
    pub id: u64,
    pub name: String,
}

/// `j` is the first command named `name`.
pub open spec fn is_first_named(cmds: Seq<RegisteredInteraction>, name: Seq<char>, j: int) -> bool {
    &&& 0 <= j < cmds.len()
    &&& cmds[j].name@ == name
    &&& forall|k: int| 0 <= k < j ==> #[trigger] cmds[k].name@ != name
}

/// The index of the first command named `name`, if any.
pub open spec fn first_named(cmds: Seq<RegisteredInteraction>, name: Seq<char>) -> Option<int> {
    if exists|j: int| is_first_named(cmds, name, j) {
        Some(choose|j: int| is_first_named(cmds, name, j))
    } else {
        None
    }
}

/// The registry after the platform reported `u`: the first command of the
/// same name takes its id.
pub open spec fn record_one(cmds: Seq<RegisteredInteraction>, u: UploadedCommand) -> Seq<RegisteredInteraction> {
    match first_named(cmds, u.name@) {
        Some(j) => cmds.update(j, RegisteredInteraction { command_id: Some(u.id), ..cmds[j] }),
        None => cmds,
    }
}

/// The registry after the platform reported each of `uploaded` in turn.
pub open spec fn record_all(cmds: Seq<RegisteredInteraction>, uploaded: Seq<UploadedCommand>) -> Seq<RegisteredInteraction>
    decreases uploaded.len(),
{
    if uploaded.len() == 0 {
        cmds
    } else {
        record_one(record_all(cmds, uploaded.drop_last()), uploaded.last())
    }
}

proof fn lemma_first_named_unique(cmds: Seq<RegisteredInteraction>, name: Seq<char>, j: int)
    requires
        is_first_named(cmds, name, j),
    ensures
        first_named(cmds, name) == Some(j),
{
    let c = choose|i: int| is_first_named(cmds, name, i);
    assert(is_first_named(cmds, name, c));
    if c < j {
        assert(cmds[c].name@ != name);
    } else if c > j {
        assert(cmds[j].name@ != name);
    }
}

impl RegisteredInteraction {
    /// Finds the first command named `name`.
    pub fn find(commands: &Vec<RegisteredInteraction>, name: &str) -> (r: Option<usize>)
        ensures
            match r {
                Some(j) => first_named(commands@, name@) == Some(j as int),
                None => first_named(commands@, name@) is None,
            },
    {
        let mut j: usize = 0;
        while j < commands.len()
            invariant
                j <= commands@.len(),
                forall|k: int| 0 <= k < j ==> #[trigger] commands@[k].name@ != name@,
            decreases commands@.len() - j,
        {
            if same_text(commands[j].name.as_str(), name) {
                proof {
                    lemma_first_named_unique(commands@, name@, j as int);
                }
                return Some(j);
            }
            j = j + 1;
        }
        proof {
            if exists|i: int| is_first_named(commands@, name@, i) {
                let i = choose|i: int| is_first_named(commands@, name@, i);
                assert(commands@[i].name@ != name@);
            }
        }
        None
    }

    /// Records the ids that the platform gave after an upload: each reported
    /// command gives its id to the first registered command of its name.
    pub fn record_uploaded(commands: &mut Vec<RegisteredInteraction>, uploaded: &Vec<UploadedCommand>)
        ensures
            final(commands)@ == record_all(old(commands)@, uploaded@),
    {
        let mut i: usize = 0;
        while i < uploaded.len()
            invariant
                i <= uploaded@.len(),
                commands@ == record_all(old(commands)@, uploaded@.subrange(0, i as int)),
            decreases uploaded@.len() - i,
        {
            let u = &uploaded[i];
            let found = Self::find(commands, u.name.as_str());
            let ghost before = commands@;
            if let Some(j) = found {
                let mut c = commands.remove(j);
                c.command_id = Some(u.id);
                commands.insert(j, c);
                proof {
                    assert(commands@ =~= record_one(before, *u));
                }
            }
            proof {
                assert(uploaded@.subrange(0, i + 1).drop_last() =~= uploaded@.subrange(0, i as int));
                assert(uploaded@.subrange(0, i + 1).last() == *u);
            }
            i = i + 1;
        }
        proof {
            assert(uploaded@.subrange(0, uploaded@.len() as int) =~= uploaded@);
        }
    }
}

} // verus!
