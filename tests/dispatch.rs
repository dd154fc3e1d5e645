use holo_bot::dispatch::{
    after_check, should_fail, DenialReason, DispatchConfig, DispatchStep, Invocation, Reason,
};
use holo_bot::interactions::{Check, InteractionOptions};

fn config() -> DispatchConfig {
    DispatchConfig {
        owners: vec![1],
        blocked_users: vec![],
        blocked_guilds: vec![],
        allowed_channels: vec![],
    }
}

fn invocation(user: u64) -> Invocation {
    Invocation { user_id: user, channel_id: 7, guild_id: Some(42), guild_owner_id: Some(3) }
}

fn options(privilege: bool, checks: &[&str]) -> InteractionOptions {
    let mut o = InteractionOptions::new();
    o.owner_privilege = privilege;
    o.checks = checks.iter().map(|c| Check { name: c.to_string() }).collect();
    o
}

#[test]
fn blocked_guild_is_denied() {
    let mut cfg = config();
    cfg.blocked_guilds = vec![42];
    let r = should_fail(&cfg, &invocation(5), &options(false, &[]), &options(false, &[]));
    assert!(matches!(r, DispatchStep::Deny(DenialReason::BlockedGuild)));
}

#[test]
fn blocked_guild_owner_blocks_the_guild() {
    let mut cfg = config();
    cfg.blocked_users = vec![3];
    let r = should_fail(&cfg, &invocation(5), &options(false, &[]), &options(false, &[]));
    assert!(matches!(r, DispatchStep::Deny(DenialReason::BlockedGuild)));
}

#[test]
fn privileged_owner_passes_even_when_blocked() {
    let mut cfg = config();
    cfg.blocked_users = vec![1];
    cfg.blocked_guilds = vec![42];
    let r = should_fail(&cfg, &invocation(1), &options(true, &["a"]), &options(true, &[]));
    assert!(matches!(r, DispatchStep::Allow));
}

#[test]
fn blocked_user_without_privilege_is_denied() {
    let mut cfg = config();
    cfg.blocked_users = vec![1];
    let r = should_fail(&cfg, &invocation(1), &options(true, &[]), &options(false, &[]));
    assert!(matches!(r, DispatchStep::Deny(DenialReason::BlockedUser)));
}

#[test]
fn channel_allowlist_applies_only_when_set() {
    let mut cfg = config();
    let r = should_fail(&cfg, &invocation(5), &options(false, &[]), &options(false, &[]));
    assert!(matches!(r, DispatchStep::Allow));
    cfg.allowed_channels = vec![8];
    let r = should_fail(&cfg, &invocation(5), &options(false, &[]), &options(false, &[]));
    assert!(matches!(r, DispatchStep::Deny(DenialReason::BlockedChannel)));
    cfg.allowed_channels = vec![8, 7];
    let r = should_fail(&cfg, &invocation(5), &options(false, &[]), &options(false, &[]));
    assert!(matches!(r, DispatchStep::Allow));
}

#[test]
fn uncached_guild_skips_guild_checks() {
    let mut cfg = config();
    cfg.blocked_guilds = vec![42];
    let inv = Invocation { user_id: 5, channel_id: 7, guild_id: None, guild_owner_id: None };
    let r = should_fail(&cfg, &inv, &options(false, &[]), &options(false, &[]));
    assert!(matches!(r, DispatchStep::Allow));
}

#[test]
fn checks_run_group_first_and_stop_at_failure() {
    let cfg = config();
    let command = options(false, &["c1"]);
    let group = options(false, &["g1", "g2"]);
    let r = should_fail(&cfg, &invocation(5), &command, &group);
    assert!(matches!(r, DispatchStep::RunCheck(0)));
    assert!(matches!(after_check(&command, &group, 0, None), DispatchStep::RunCheck(1)));
    assert!(matches!(after_check(&command, &group, 1, None), DispatchStep::RunCheck(2)));
    assert!(matches!(after_check(&command, &group, 2, None), DispatchStep::Allow));
    match after_check(&command, &group, 1, Some(Reason::User("no".to_string()))) {
        DispatchStep::Deny(DenialReason::CheckFailed(name, Reason::User(why))) => {
            assert_eq!(name, "g2");
            assert_eq!(why, "no");
        }
        other => panic!("unexpected {:?}", other),
    }
    match after_check(&command, &group, 2, Some(Reason::Unknown)) {
        DispatchStep::Deny(DenialReason::CheckFailed(name, Reason::Unknown)) => assert_eq!(name, "c1"),
        other => panic!("unexpected {:?}", other),
    }
}

#[test]
fn checks_compare_by_name() {
    assert!(Check { name: "a".to_string() } == Check { name: "a".to_string() });
    assert!(Check { name: "a".to_string() } != Check { name: "b".to_string() });
}
