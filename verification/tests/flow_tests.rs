use discovery::{
    bump_server, patch_server, sync_server, PatchServerInput, Status, SyncServerInput, UtcInstant,
    WriteAction, WriteEvent, WritePhase,
};

fn input() -> SyncServerInput {
    SyncServerInput {
        server_id: "srv1".to_string(),
        server_name: "Rustaceans".to_string(),
        icon_url: Some("https://img/icon".to_string()),
        banner_url: None,
        invite_link: "https://stt.gg/abc".to_string(),
        members: None,
        description: Some("friendly".to_string()),
        is_nsfw: None,
        owner: Some("ferris".to_string()),
        owner_id: Some("u1".to_string()),
    }
}

fn key() -> Option<Vec<u8>> {
    Some(b"k3y".to_vec())
}

fn expect_error(action: WriteAction, status: Status, message: &str) {
    match action {
        WriteAction::Respond(Err(e)) => {
            assert_eq!(e.status, status);
            assert_eq!(e.message, message);
        }
        other => panic!("unexpected {:?}", other),
    }
}

#[test]
fn sync_runs_to_success() {
    let (mut flow, first) = sync_server(input(), key());
    assert!(matches!(first, WriteAction::ReadConfiguredKey));
    match flow.step(WriteEvent::ConfiguredKey(Some("k3y".to_string()))) {
        WriteAction::QueryBanStatus { server_id } => assert_eq!(server_id, "srv1"),
        other => panic!("unexpected {:?}", other),
    }
    match flow.step(WriteEvent::BanStatus(Ok(None))) {
        WriteAction::Upsert(u) => {
            assert_eq!(u.server_id, "srv1");
            assert_eq!(u.server_name, "Rustaceans");
            assert_eq!(u.members, 0);
            assert_eq!(u.is_nsfw, 0);
            assert_eq!(u.invite_link, "https://stt.gg/abc");
            assert_eq!(u.icon_url.as_deref(), Some("https://img/icon"));
            assert_eq!(u.description.as_deref(), Some("friendly"));
        }
        other => panic!("unexpected {:?}", other),
    }
    match flow.step(WriteEvent::Written(Ok(()))) {
        WriteAction::Respond(Ok(text)) => assert_eq!(text, "Server listing synced successfully."),
        other => panic!("unexpected {:?}", other),
    }
    assert_eq!(flow.phase, WritePhase::Finished);
}

#[test]
fn sync_keeps_reported_counts() {
    let mut i = input();
    i.members = Some(42);
    i.is_nsfw = Some(1);
    let (mut flow, _) = sync_server(i, key());
    flow.step(WriteEvent::ConfiguredKey(Some("k3y".to_string())));
    match flow.step(WriteEvent::BanStatus(Ok(Some(0)))) {
        WriteAction::Upsert(u) => {
            assert_eq!(u.members, 42);
            assert_eq!(u.is_nsfw, 1);
        }
        other => panic!("unexpected {:?}", other),
    }
}

#[test]
fn sync_failure_is_bad_request() {
    let (mut flow, _) = sync_server(input(), key());
    flow.step(WriteEvent::ConfiguredKey(Some("k3y".to_string())));
    flow.step(WriteEvent::BanStatus(Ok(None)));
    let a = flow.step(WriteEvent::Written(Err("UNIQUE constraint failed: servers.invite_link".to_string())));
    expect_error(a, Status::BadRequest, "UNIQUE constraint failed: servers.invite_link");
}

#[test]
fn missing_configured_key_stops_the_flow() {
    let (mut flow, _) = sync_server(input(), key());
    let a = flow.step(WriteEvent::ConfiguredKey(None));
    expect_error(a, Status::InternalServerError, "Server configuration error: DISCOVERY_API_KEY not set.");
    assert_eq!(flow.phase, WritePhase::Finished);
}

#[test]
fn wrong_key_is_unauthorized() {
    let (mut flow, _) = patch_server(
        "srv1".to_string(),
        PatchServerInput { is_verified: Some(1), is_nsfw: None, description: None },
        Some(b"nope".to_vec()),
    );
    let a = flow.step(WriteEvent::ConfiguredKey(Some("k3y".to_string())));
    expect_error(a, Status::Unauthorized, "Unauthorized");
    assert_eq!(flow.phase, WritePhase::Finished);
}

#[test]
fn no_header_is_unauthorized() {
    let (mut flow, _) = bump_server("srv1".to_string(), None);
    let a = flow.step(WriteEvent::ConfiguredKey(Some("k3y".to_string())));
    expect_error(a, Status::Unauthorized, "Unauthorized");
}

#[test]
fn banned_listing_is_forbidden() {
    let (mut flow, _) = sync_server(input(), key());
    flow.step(WriteEvent::ConfiguredKey(Some("k3y".to_string())));
    let a = flow.step(WriteEvent::BanStatus(Ok(Some(1))));
    expect_error(a, Status::Forbidden, "This listing is banned from discovery.");
    assert_eq!(flow.phase, WritePhase::Finished);
}

#[test]
fn ban_lookup_failure_is_server_error() {
    let (mut flow, _) = sync_server(input(), key());
    flow.step(WriteEvent::ConfiguredKey(Some("k3y".to_string())));
    let a = flow.step(WriteEvent::BanStatus(Err("database is locked".to_string())));
    expect_error(a, Status::InternalServerError, "database is locked");
}

#[test]
fn other_ban_flags_do_not_block() {
    let (mut flow, _) = patch_server(
        "srv1".to_string(),
        PatchServerInput { is_verified: None, is_nsfw: Some(1), description: Some("d".to_string()) },
        key(),
    );
    flow.step(WriteEvent::ConfiguredKey(Some("k3y".to_string())));
    match flow.step(WriteEvent::BanStatus(Ok(Some(2)))) {
        WriteAction::ApplyPatch(p) => {
            assert_eq!(p.server_id, "srv1");
            assert_eq!(p.is_verified, None);
            assert_eq!(p.is_nsfw, Some(1));
            assert_eq!(p.description.as_deref(), Some("d"));
        }
        other => panic!("unexpected {:?}", other),
    }
    match flow.step(WriteEvent::Written(Ok(()))) {
        WriteAction::Respond(Ok(text)) => assert_eq!(text, "Updated successfully."),
        other => panic!("unexpected {:?}", other),
    }
}

#[test]
fn patch_failure_is_server_error() {
    let (mut flow, _) = patch_server(
        "srv1".to_string(),
        PatchServerInput { is_verified: None, is_nsfw: None, description: None },
        key(),
    );
    flow.step(WriteEvent::ConfiguredKey(Some("k3y".to_string())));
    flow.step(WriteEvent::BanStatus(Ok(None)));
    let a = flow.step(WriteEvent::Written(Err("no such table".to_string())));
    expect_error(a, Status::InternalServerError, "no such table");
}

#[test]
fn bump_of_unknown_listing_is_not_found() {
    let (mut flow, _) = bump_server("ghost".to_string(), key());
    flow.step(WriteEvent::ConfiguredKey(Some("k3y".to_string())));
    match flow.step(WriteEvent::BanStatus(Ok(None))) {
        WriteAction::QueryLastBumped { server_id } => assert_eq!(server_id, "ghost"),
        other => panic!("unexpected {:?}", other),
    }
    let a = flow.step(WriteEvent::LastBumped(Ok(None)));
    expect_error(a, Status::NotFound, "Server not found in discovery.");
}

#[test]
fn bump_runs_to_success_with_the_clock() {
    let (mut flow, _) = bump_server("srv1".to_string(), key());
    flow.step(WriteEvent::ConfiguredKey(Some("k3y".to_string())));
    flow.step(WriteEvent::BanStatus(Ok(None)));
    match flow.step(WriteEvent::LastBumped(Ok(Some("2000-01-01 00:00:00".to_string())))) {
        WriteAction::SetLastBumped { server_id, last_bumped } => {
            assert_eq!(server_id, "srv1");
            assert_eq!(last_bumped.len(), 19);
            assert!(last_bumped.as_str() > "2020-01-01 00:00:00");
        }
        other => panic!("unexpected {:?}", other),
    }
    assert_eq!(flow.phase, WritePhase::AwaitingWrite);
    match flow.step(WriteEvent::Written(Ok(()))) {
        WriteAction::Respond(Ok(text)) => assert_eq!(text, "Server bumped to the top!"),
        other => panic!("unexpected {:?}", other),
    }
}

#[test]
fn bump_in_cooldown_with_fixed_clock() {
    let (mut flow, _) = bump_server("srv1".to_string(), key());
    flow.step(WriteEvent::ConfiguredKey(Some("k3y".to_string())));
    flow.step(WriteEvent::BanStatus(Ok(None)));
    let now = UtcInstant { secs: 1_704_067_200 + 30 * 60, nanos: 0 };
    let a = flow.step_at(WriteEvent::LastBumped(Ok(Some("2024-01-01 00:00:00".to_string()))), now);
    expect_error(a, Status::TooManyRequests, "Slow down! You can bump again in 90 minutes.");
    assert_eq!(flow.phase, WritePhase::Finished);
}

#[test]
fn bump_write_failure_is_server_error() {
    let (mut flow, _) = bump_server("srv1".to_string(), key());
    flow.step(WriteEvent::ConfiguredKey(Some("k3y".to_string())));
    flow.step(WriteEvent::BanStatus(Ok(None)));
    let now = UtcInstant { secs: 1_704_067_200 + 5 * 3600, nanos: 0 };
    flow.step_at(WriteEvent::LastBumped(Ok(Some("2024-01-01 00:00:00".to_string()))), now);
    let a = flow.step(WriteEvent::Written(Err("disk full".to_string())));
    expect_error(a, Status::InternalServerError, "disk full");
}
