//! Permission to run: whether an incoming command may execute.
//!
//! The decision follows a fixed order and stops at the first answer. The
//! checks are predicates that the dispatcher runs, possibly asynchronously,
//! so the decision is a small state machine: `should_fail` settles
//! everything but the checks and names the first check to run, and
//! `after_check` takes each check's outcome and names the next step.

use vstd::prelude::*;

use crate::interactions::{Check, InteractionOptions};

verus! {

/// Why a check refused a command.
#[derive(Clone, Debug)]
pub enum Reason {
    Unknown,
    /// A reason meant for the user.
    User(String),
    /// A reason meant for the log.
    Log(String),
    UserAndLog { user: String, log: String },
}

/// Why a command was refused.
#[derive(Clone, Debug)]
pub enum DenialReason {
    BlockedUser,
    BlockedGuild,
    BlockedChannel,
    /// The named check failed for the given reason.
    CheckFailed(String, Reason),
}

/// The dispatcher's configuration, read for each invocation.
#[derive(Clone, Debug)]
pub struct DispatchConfig {
    pub owners: Vec<u64>,
    pub blocked_users: Vec<u64>,
    pub blocked_guilds: Vec<u64>,
    /// Where non-empty, commands run only in these channels.
    pub allowed_channels: Vec<u64>,
}

/// Who invoked a command, and where, as far as the cache could resolve it.
#[derive(Clone, Copy, Debug, PartialEq, Eq, Structural)]
pub struct Invocation {
    pub user_id: u64,
    pub channel_id: u64,
    /// The guild of the channel; `None` where the channel is not a guild
    /// channel or is not cached.
    pub guild_id: Option<u64>,
    /// The owner of that guild; `None` where the guild is not cached.
    pub guild_owner_id: Option<u64>,
}

/// What was decided, or which check the decision waits for.
#[derive(Clone, Debug)]
pub enum DispatchStep {
    Allow,
    Deny(DenialReason),
    /// Run check `i` of the group's checks followed by the command's, and
    /// report its outcome to `after_check`.
    RunCheck(usize),
}

/// A dispatch step without the text of a check failure.
#[derive(Clone, Copy, Debug, PartialEq, Eq, Structural)]
pub enum StepKind {
    Allow,
    BlockedUser,
    BlockedGuild,
    BlockedChannel,
    CheckFailed,
    RunCheck(usize),
}

impl DispatchStep {
    pub open spec fn kind(self) -> StepKind {
        match self {
            DispatchStep::Allow => StepKind::Allow,
            DispatchStep::Deny(DenialReason::BlockedUser) => StepKind::BlockedUser,
            DispatchStep::Deny(DenialReason::BlockedGuild) => StepKind::BlockedGuild,
            DispatchStep::Deny(DenialReason::BlockedChannel) => StepKind::BlockedChannel,
            DispatchStep::Deny(DenialReason::CheckFailed(..)) => StepKind::CheckFailed,
            DispatchStep::RunCheck(i) => StepKind::RunCheck(i),
        }
    }
}

/// The owner skips every restriction.
pub open spec fn owner_privileged(
    cfg: DispatchConfig,
    inv: Invocation,
    command: InteractionOptions,
    group: InteractionOptions,
) -> bool {
    command.owner_privilege && group.owner_privilege && cfg.owners@.contains(inv.user_id)
}

/// The invocation's guild is blocked, or its owner is a blocked user.
pub open spec fn guild_blocked(cfg: DispatchConfig, inv: Invocation) -> bool {
    match inv.guild_id {
        Some(g) => cfg.blocked_guilds@.contains(g) || match inv.guild_owner_id {
            Some(o) => cfg.blocked_users@.contains(o),
            None => false,
        },
        None => false,
    }
}

/// An allowlist of channels exists and leaves the invocation's channel out.
pub open spec fn channel_blocked(cfg: DispatchConfig, inv: Invocation) -> bool {
    cfg.allowed_channels@.len() > 0 && !cfg.allowed_channels@.contains(inv.channel_id)
}

/// The number of checks to run: the group's, then the command's.
pub open spec fn check_count(command: InteractionOptions, group: InteractionOptions) -> int {
    group.checks@.len() + command.checks@.len() as int
}

/// Check `i` of the group's checks followed by the command's.
pub open spec fn check_at(command: InteractionOptions, group: InteractionOptions, i: int) -> Check {
    if i < group.checks@.len() {
        group.checks@[i]
    } else {
        command.checks@[i - group.checks@.len()]
    }
}

/// The first step of the decision.
pub open spec fn first_step(
    cfg: DispatchConfig,
    inv: Invocation,
    command: InteractionOptions,
    group: InteractionOptions,
) -> StepKind {
    if owner_privileged(cfg, inv, command, group) {
        StepKind::Allow
    } else if cfg.blocked_users@.contains(inv.user_id) {
        StepKind::BlockedUser
    } else if guild_blocked(cfg, inv) {
        StepKind::BlockedGuild
    } else if channel_blocked(cfg, inv) {
        StepKind::BlockedChannel
    } else if check_count(command, group) > 0 {
        StepKind::RunCheck(0)
    } else {
        StepKind::Allow
    }
}

/// The step after check `i` answered `outcome`: a failure ends in a denial,
/// a success moves to the next check or, after the last, allows.
pub open spec fn next_step(
    command: InteractionOptions,
    group: InteractionOptions,
    i: int,
    outcome: Option<Reason>,
) -> StepKind {
    if outcome is Some {
        StepKind::CheckFailed
    } else if i + 1 < check_count(command, group) {
        StepKind::RunCheck((i + 1) as usize)
    } else {
        StepKind::Allow
    }
}

/// Where the steps lead from `step` when check `i` answers `outcomes[i]`,
/// for at most `fuel` checks.
pub open spec fn drive(
    command: InteractionOptions,
    group: InteractionOptions,
    outcomes: Seq<Option<Reason>>,
    step: StepKind,
    fuel: nat,
) -> StepKind
    decreases fuel,
{
    match step {
        StepKind::RunCheck(i) => if fuel == 0 {
            step
        } else {
            drive(command, group, outcomes, next_step(command, group, i as int, outcomes[i as int]), (fuel - 1) as nat)
        },
        _ => step,
    }
}

/// Some check at `from` or later fails.
pub open spec fn fails_from(outcomes: Seq<Option<Reason>>, from: int) -> bool {
    exists|i: int| from <= i < outcomes.len() && (#[trigger] outcomes[i]) is Some
}

fn contains_id(ids: &Vec<u64>, id: u64) -> (r: bool)
    ensures
        r == ids@.contains(id),
{
    let mut i: usize = 0;
    while i < ids.len()
        invariant
            i <= ids@.len(),
            forall|k: int| 0 <= k < i ==> ids@[k] != id,
        decreases ids@.len() - i,
    {
        if ids[i] == id {
            return true;
        }
        i = i + 1;
    }
    false
}

/// Decides everything that comes before the checks: owner privilege, then
/// a blocked user, then a blocked guild (or guild owner), then the channel
/// allowlist; where none of these decides, names the first check to run,
/// or allows where there are no checks.
pub fn should_fail(
    cfg: &DispatchConfig,
    inv: &Invocation,
    command: &InteractionOptions,
    group: &InteractionOptions,
) -> (r: DispatchStep)
    requires
        check_count(*command, *group) <= usize::MAX,
    ensures
        r.kind() == first_step(*cfg, *inv, *command, *group),
{
    if command.owner_privilege && group.owner_privilege && contains_id(&cfg.owners, inv.user_id) {
        return DispatchStep::Allow;
    }
    if contains_id(&cfg.blocked_users, inv.user_id) {
        return DispatchStep::Deny(DenialReason::BlockedUser);
    }
    if let Some(guild) = inv.guild_id {
        if contains_id(&cfg.blocked_guilds, guild) {
            return DispatchStep::Deny(DenialReason::BlockedGuild);
        }
        if let Some(owner) = inv.guild_owner_id {
            if contains_id(&cfg.blocked_users, owner) {
                return DispatchStep::Deny(DenialReason::BlockedGuild);
            }
        }
    }
    if cfg.allowed_channels.len() > 0 && !contains_id(&cfg.allowed_channels, inv.channel_id) {
        return DispatchStep::Deny(DenialReason::BlockedChannel);
    }
    if group.checks.len() + command.checks.len() > 0 {
        DispatchStep::RunCheck(0)
    } else {
        DispatchStep::Allow
    }
}

/// Takes the outcome of check `index`: a failure denies with the check's
/// name and reason; a success moves on to the next check, or allows after
/// the last one.
pub fn after_check(
    command: &InteractionOptions,
    group: &InteractionOptions,
    index: usize,
    outcome: Option<Reason>,
) -> (r: DispatchStep)
    requires
        index < check_count(*command, *group) <= usize::MAX,
    ensures
        outcome matches Some(reason) ==> r == DispatchStep::Deny(
            DenialReason::CheckFailed(check_at(*command, *group, index as int).name, reason),
        ),
        r.kind() == next_step(*command, *group, index as int, outcome),
{
    match outcome {
        Some(reason) => {
            let name = if index < group.checks.len() {
                group.checks[index].name.clone()
            } else {
                command.checks[index - group.checks.len()].name.clone()
            };
            DispatchStep::Deny(DenialReason::CheckFailed(name, reason))
        },
        None => {
            if index + 1 < group.checks.len() + command.checks.len() {
                DispatchStep::RunCheck(index + 1)
            } else {
                DispatchStep::Allow
            }
        },
    }
}

/// An owner with owner privilege on both the command and its group is let
/// through before the blocked users are consulted, even when blocked.
pub proof fn lemma_owner_privilege_precedes_block(
    cfg: DispatchConfig,
    inv: Invocation,
    command: InteractionOptions,
    group: InteractionOptions,
)
    requires
        command.owner_privilege,
        group.owner_privilege,
        cfg.owners@.contains(inv.user_id),
        cfg.blocked_users@.contains(inv.user_id),
    ensures
        first_step(cfg, inv, command, group) == StepKind::Allow,
{
}

/// Without owner privilege on both the command and its group, a blocked
/// user is refused as a blocked user before any check runs.
pub proof fn lemma_blocked_user_denied(
    cfg: DispatchConfig,
    inv: Invocation,
    command: InteractionOptions,
    group: InteractionOptions,
)
    requires
        !(command.owner_privilege && group.owner_privilege),
        cfg.blocked_users@.contains(inv.user_id),
    ensures
        first_step(cfg, inv, command, group) == StepKind::BlockedUser,
{
}

/// With the outcome of every check known, the steps end, within as many
/// steps as there are checks, in the first step's own decision where it
/// makes one, and otherwise in a failed check exactly where some check
/// fails and in an allowance where none does.
pub proof fn lemma_checks_decide(
    cfg: DispatchConfig,
    inv: Invocation,
    command: InteractionOptions,
    group: InteractionOptions,
    outcomes: Seq<Option<Reason>>,
)
    requires
        outcomes.len() == check_count(command, group) <= usize::MAX,
    ensures
        drive(command, group, outcomes, first_step(cfg, inv, command, group), outcomes.len())
            == match first_step(cfg, inv, command, group) {
                StepKind::RunCheck(_) => if fails_from(outcomes, 0) {
                    StepKind::CheckFailed
                } else {
                    StepKind::Allow
                },
                k => k,
            },
{
    if first_step(cfg, inv, command, group) is RunCheck {
        lemma_drive_from(command, group, outcomes, 0);
    }
}

proof fn lemma_drive_from(
    command: InteractionOptions,
    group: InteractionOptions,
    outcomes: Seq<Option<Reason>>,
    j: nat,
)
    requires
        outcomes.len() == check_count(command, group),
        j < outcomes.len(),
        outcomes.len() <= usize::MAX,
    ensures
        drive(command, group, outcomes, StepKind::RunCheck(j as usize), (outcomes.len() - j) as nat)
            == if fails_from(outcomes, j as int) {
                StepKind::CheckFailed
            } else {
                StepKind::Allow
            },
    decreases outcomes.len() - j,
{
    let fuel = (outcomes.len() - j) as nat;
    assert(drive(command, group, outcomes, StepKind::RunCheck(j as usize), fuel)
        == drive(command, group, outcomes, next_step(command, group, j as int, outcomes[j as int]), (fuel - 1) as nat));
    if outcomes[j as int] is Some {
        assert(fails_from(outcomes, j as int));
    } else if j + 1 < outcomes.len() {
        lemma_drive_from(command, group, outcomes, j + 1);
        if fails_from(outcomes, j as int) {
            let i = choose|i: int| j <= i < outcomes.len() && (#[trigger] outcomes[i]) is Some;
            assert(fails_from(outcomes, (j + 1) as int)) by {
                assert(i != j);
            }
        }
    } else {
        if fails_from(outcomes, j as int) {
            let i = choose|i: int| j <= i < outcomes.len() && (#[trigger] outcomes[i]) is Some;
            assert(i == j);
        }
    }
}

} // verus!
