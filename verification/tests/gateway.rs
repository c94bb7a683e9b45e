use std::collections::HashMap;
use twilight_core::gateway::cluster::config::ShardStart;
use twilight_core::gateway::cluster::{ClusterBuilder, ShardScheme, ShardSchemeRangeError};
use twilight_core::gateway::queue::{Admission, LocalQueue};
use twilight_core::gateway::shard::{
    prefixed, LargeThresholdError, ResumeSession, ShardBuilder, ShardIdError,
};
use twilight_core::model::gateway::intents::{Intents, GUILDS, GUILD_MESSAGES};
use twilight_core::model::gateway::payload::update_status::UpdateStatusInfo;
use twilight_core::model::gateway::presence::Status;

fn intents() -> Intents {
    Intents(GUILDS | GUILD_MESSAGES)
}

fn session(id: &str, sequence: u64) -> ResumeSession {
    ResumeSession { session_id: id.to_owned(), sequence }
}

#[test]
fn token_gets_the_bot_prefix_once() {
    assert_eq!(prefixed("abc".to_owned()), "Bot abc");
    assert_eq!(prefixed("Bot abc".to_owned()), "Bot abc");
    assert_eq!(prefixed("Bot".to_owned()), "Bot Bot");
    assert_eq!(prefixed("bot abc".to_owned()), "Bot bot abc");
    assert_eq!(prefixed("".to_owned()), "Bot ");
    assert_eq!(prefixed("Bot ".to_owned()), "Bot ");
    assert_eq!(prefixed("Botté".to_owned()), "Bot Botté");
}

#[test]
fn new_cluster_builder_has_the_defaults() {
    let builder = ClusterBuilder::new("token".to_owned(), intents());
    assert_eq!(builder.1 .0.token, "Bot token");
    assert_eq!(builder.0.shard_config.token, "Bot token");
    assert_eq!(builder.1 .0.intents, intents());
    assert_eq!(builder.1 .0.large_threshold, 250);
    assert_eq!(builder.1 .0.gateway_url, None);
    assert_eq!(builder.1 .0.presence, None);
    assert_eq!(builder.0.shard_scheme, ShardScheme::Auto);
    assert!(builder.0.resume_sessions.is_empty());
    assert!(builder.needs_gateway_url());
}

#[test]
fn large_threshold_is_kept_within_its_range() {
    let builder = || ClusterBuilder::new("token".to_owned(), intents());
    assert_eq!(
        builder().large_threshold(49).unwrap_err(),
        LargeThresholdError::TooFew { value: 49 }
    );
    assert_eq!(
        builder().large_threshold(0).unwrap_err(),
        LargeThresholdError::TooFew { value: 0 }
    );
    assert_eq!(
        builder().large_threshold(251).unwrap_err(),
        LargeThresholdError::TooMany { value: 251 }
    );
    assert_eq!(builder().large_threshold(50).unwrap().1 .0.large_threshold, 50);
    assert_eq!(builder().large_threshold(100).unwrap().1 .0.large_threshold, 100);
    assert_eq!(builder().large_threshold(250).unwrap().1 .0.large_threshold, 250);
    assert!(ShardBuilder::new("t".to_owned(), intents()).large_threshold(300).is_err());
}

#[test]
fn cluster_builder_sets_what_it_is_given() {
    let presence = UpdateStatusInfo { activities: None, afk: true, since: Some(3), status: Status::Idle };
    let mut sessions = HashMap::new();
    sessions.insert(1, session("one", 11));
    let builder = ClusterBuilder::new("Bot token".to_owned(), intents())
        .gateway_url(Some("wss://gateway".to_owned()))
        .presence(presence.clone())
        .shard_scheme(ShardScheme::range(0, 2, 4).unwrap())
        .resume_sessions(sessions);
    assert!(!builder.needs_gateway_url());

    let config = builder.finish();
    assert_eq!(config.shard_config.token, "Bot token");
    assert_eq!(config.shard_config.gateway_url, Some("wss://gateway".to_owned()));
    assert_eq!(config.shard_config.presence, Some(presence));
    assert_eq!(config.shard_scheme, ShardScheme::Range { from: 0, to: 2, total: 4 });
    assert_eq!(config.resume_sessions.len(), 1);
}

#[test]
fn shard_range_must_be_in_order() {
    assert_eq!(ShardScheme::range(0, 9, 20), Ok(ShardScheme::Range { from: 0, to: 9, total: 20 }));
    assert_eq!(ShardScheme::range(3, 3, 4), Ok(ShardScheme::Range { from: 3, to: 3, total: 4 }));
    assert_eq!(
        ShardScheme::range(3, 2, 20),
        Err(ShardSchemeRangeError::IdTooLarge { end: 2, start: 3, total: 20 })
    );
    assert_eq!(
        ShardScheme::range(0, 20, 20),
        Err(ShardSchemeRangeError::IdTooLarge { end: 20, start: 0, total: 20 })
    );
    assert!(ShardScheme::range(0, 0, 0).is_err());
}

#[test]
fn scheme_names_the_shards_it_owns() {
    assert_eq!(ShardScheme::Auto.shards(3), Some((0, 2, 3)));
    assert_eq!(ShardScheme::Auto.shards(1), Some((0, 0, 1)));
    assert_eq!(ShardScheme::Auto.shards(0), None);
    assert_eq!(ShardScheme::Range { from: 2, to: 5, total: 8 }.shards(3), Some((2, 5, 8)));
    assert_eq!(ShardScheme::Range { from: 5, to: 2, total: 8 }.shards(3), None);
    assert_eq!(ShardScheme::Range { from: 0, to: 8, total: 8 }.shards(3), None);
}

#[test]
fn cluster_starts_each_shard_of_its_range() {
    let mut sessions = HashMap::new();
    sessions.insert(3, session("three", 33));
    sessions.insert(9, session("nine", 99));
    let config = ClusterBuilder::new("token".to_owned(), intents())
        .gateway_url(Some("wss://gateway".to_owned()))
        .shard_scheme(ShardScheme::range(2, 4, 10).unwrap())
        .resume_sessions(sessions)
        .finish();

    let url = Some("wss://gateway".to_owned());
    assert_eq!(
        config.shard_starts(16),
        vec![
            ShardStart { id: 2, total: 10, gateway_url: url.clone(), resume: None },
            ShardStart { id: 3, total: 10, gateway_url: url.clone(), resume: Some(session("three", 33)) },
            ShardStart { id: 4, total: 10, gateway_url: url, resume: None },
        ]
    );
}

#[test]
fn cluster_starts_the_recommended_shards_by_default() {
    let config = ClusterBuilder::new("token".to_owned(), intents()).finish();
    let starts = config.shard_starts(3);
    assert_eq!(starts.len(), 3);
    assert_eq!(starts.iter().map(|s| (s.id, s.total)).collect::<Vec<_>>(), vec![(0, 3), (1, 3), (2, 3)]);
    assert!(config.shard_starts(0).is_empty());

    let last = ClusterBuilder::new("token".to_owned(), intents())
        .shard_scheme(ShardScheme::Range { from: u64::MAX - 1, to: u64::MAX - 1, total: u64::MAX })
        .finish();
    assert_eq!(last.shard_starts(1).len(), 1);
}

#[test]
fn shard_builder_sets_what_it_is_given() {
    let builder = ShardBuilder::new("token".to_owned(), intents());
    assert_eq!((builder.0.shard_id, builder.0.shard_total), (0, 1));
    assert_eq!(
        builder.clone().shard(4, 4).unwrap_err(),
        ShardIdError::IdTooLarge { id: 4, total: 4 }
    );
    let built = builder.shard(3, 4).unwrap().resume(session("s", 8)).0;
    assert_eq!((built.shard_id, built.shard_total), (3, 4));
    assert_eq!(built.session_id, Some("s".to_owned()));
    assert_eq!(built.sequence, Some(8));
    assert_eq!(session("s", 8).clone(), session("s", 8));
}

#[test]
fn queue_admits_in_order_and_five_seconds_apart() {
    let mut queue = LocalQueue::new();
    assert_eq!(queue.poll(0), Admission::Idle);
    queue.request(4);
    queue.request(5);
    queue.request(6);
    assert_eq!(queue.len(), 3);

    assert_eq!(queue.poll(100), Admission::Admit(4));
    assert_eq!(queue.poll(100), Admission::Wait(5000));
    assert_eq!(queue.poll(200), Admission::Wait(4900));
    assert_eq!(queue.poll(5099), Admission::Wait(1));
    assert_eq!(queue.poll(5100), Admission::Admit(5));
    assert_eq!(queue.poll(50), Admission::Wait(5000));
    assert_eq!(queue.poll(20_000), Admission::Admit(6));
    assert_eq!(queue.poll(20_001), Admission::Idle);
    assert_eq!(queue.len(), 0);
}

#[test]
fn queue_is_not_held_up_by_a_shard_that_gave_up() {
    let mut queue = LocalQueue::new();
    queue.request(4);
    queue.request(5);
    queue.request(4);
    assert!(queue.cancel(4));
    assert!(!queue.cancel(9));

    assert_eq!(queue.poll(0), Admission::Admit(5));
    assert_eq!(queue.poll(5000), Admission::Admit(4));
    assert_eq!(queue.poll(10_000), Admission::Idle);
}

#[test]
fn shard_identifies_with_its_settings() {
    let presence = UpdateStatusInfo { activities: None, afk: false, since: None, status: Status::Online };
    let config = ShardBuilder::new("token".to_owned(), intents())
        .large_threshold(100)
        .unwrap()
        .presence(presence.clone())
        .shard(2, 5)
        .unwrap()
        .0;
    let identify = config.into_identify();

    assert_eq!(identify.token, "Bot token");
    assert_eq!(identify.intents, intents());
    assert_eq!(identify.large_threshold, 100);
    assert_eq!(identify.shard, [2, 5]);
    assert_eq!(identify.presence, Some(presence));
}
