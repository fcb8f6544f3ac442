use std::collections::HashMap;

use presence_watcher::{
    compose_presence_text, duration_minutes, first_reading, handle_presence, is_win,
    status_from_persona_state, steam_commit, steam_reading, steam_tick, to_decimal, Activity,
    ActivityKind, ChangeKind, ClientStatus, Hero, HeroCatalog, LastNotification, Localization,
    MatchData, MatchPoller, OnlineStatus, PlayerState, PresenceEvent, SteamPlayer, SteamPoller,
    SupervisorPhase, WatchTarget, WatcherSupervisor,
};

fn loc() -> Localization {
    Localization {
        bot_activity: "watching".to_string(),
        plays: "playing".to_string(),
        won: "won".to_string(),
        lost: "lost".to_string(),
        played_on: "played as".to_string(),
        with_score: "with score".to_string(),
        match_duration: "The match lasted".to_string(),
        minutes: "minutes".to_string(),
        target_name: "Bob".to_string(),
        offline: "is offline".to_string(),
        idle: "is idle".to_string(),
        invisible: "is invisible".to_string(),
        online: "is online".to_string(),
        donotdisturb: "is busy".to_string(),
        unknown: "is unknown".to_string(),
        using_phone: " on the phone".to_string(),
        using_browser: " in a browser".to_string(),
        using_computer: " on a computer".to_string(),
        on_steam: "on Steam".to_string(),
    }
}

const GUILD: u64 = 10;
const USER: u64 = 20;

fn target() -> WatchTarget {
    WatchTarget { guild_id: GUILD, user_id: USER }
}

fn activity(kind: ActivityKind, name: &str, details: Option<&str>) -> Activity {
    Activity {
        kind,
        name: name.to_string(),
        details: details.map(|d| d.to_string()),
        large_text: None,
        small_text: None,
    }
}

fn event(status: OnlineStatus, client: Option<ClientStatus>, activities: Vec<Activity>) -> PresenceEvent {
    PresenceEvent {
        guild_id: Some(GUILD),
        user_id: USER,
        status,
        client_status: client,
        activities,
    }
}

fn a_match(id: i64, slot: i64, radiant_win: bool) -> MatchData {
    MatchData {
        match_id: id,
        player_slot: slot,
        radiant_win,
        hero_id: 1,
        duration: 754,
        kills: 7,
        deaths: 3,
        assists: 12,
    }
}

fn catalog_entries() -> Vec<Hero> {
    vec![
        Hero { id: 1, localized_name: "Anti-Mage".to_string() },
        Hero { id: 2, localized_name: "Axe".to_string() },
    ]
}

#[test]
fn outcome_follows_slot_side() {
    assert!(is_win(&a_match(1, 2, true)));
    assert!(!is_win(&a_match(1, 7, true)));
    assert!(!is_win(&a_match(1, 2, false)));
    assert!(is_win(&a_match(1, 130, false)));
}

#[test]
fn duration_floors_to_whole_minutes() {
    assert_eq!(duration_minutes(754), 12);
    assert_eq!(duration_minutes(59), 0);
    assert_eq!(duration_minutes(60), 1);
    assert_eq!(duration_minutes(0), 0);
    assert_eq!(duration_minutes(-754), -12);
    assert_eq!(duration_minutes(i64::MIN), -153722867280912930);
}

#[test]
fn decimal_rendering() {
    assert_eq!(to_decimal(0), "0");
    assert_eq!(to_decimal(12), "12");
    assert_eq!(to_decimal(-5), "-5");
    assert_eq!(to_decimal(1000), "1000");
    assert_eq!(to_decimal(i64::MAX), "9223372036854775807");
    assert_eq!(to_decimal(i64::MIN), "-9223372036854775808");
}

#[test]
fn persona_codes_map_to_statuses() {
    assert_eq!(status_from_persona_state(0), OnlineStatus::Offline);
    assert_eq!(status_from_persona_state(1), OnlineStatus::Online);
    assert_eq!(status_from_persona_state(2), OnlineStatus::DoNotDisturb);
    assert_eq!(status_from_persona_state(3), OnlineStatus::Idle);
    assert_eq!(status_from_persona_state(4), OnlineStatus::Offline);
    assert_eq!(status_from_persona_state(-1), OnlineStatus::Offline);
}

#[test]
fn compare_and_update_reports_change_kinds() {
    let mut s = PlayerState::new();
    assert_eq!(s.compare_and_update(OnlineStatus::Offline, None), ChangeKind::NoChange);
    assert_eq!(s.compare_and_update(OnlineStatus::Online, None), ChangeKind::StatusChanged);
    assert_eq!(
        s.compare_and_update(OnlineStatus::Online, Some("Dota 2".to_string())),
        ChangeKind::GameChanged
    );
    assert_eq!(s.compare_and_update(OnlineStatus::Idle, None), ChangeKind::Both);
    assert_eq!(s.status, OnlineStatus::Idle);
    assert_eq!(s.game, None);
    let snapshot = s.read();
    assert_eq!(snapshot.status, OnlineStatus::Idle);
}

#[test]
fn last_notification_refuses_repeated_text() {
    let mut last = LastNotification::new();
    let a = "hello".to_string();
    assert!(last.claim(&a));
    assert!(!last.claim(&a));
    assert!(last.claim(&"other".to_string()));
    assert_eq!(last.text, Some("other".to_string()));
}

#[test]
fn steam_scenario_announces_once() {
    let l = loc();
    let mut poller = SteamPoller::new();
    let mut state = PlayerState { status: OnlineStatus::Offline, game: None };
    let reading = steam_reading(1, Some("Terraria".to_string()));
    let first = steam_tick(&mut poller, &mut state, &reading, &l);
    assert_eq!(first, Some("Bob is online playing Terraria on Steam".to_string()));
    assert_eq!(state.status, OnlineStatus::Online);
    assert_eq!(state.game, Some("Terraria".to_string()));
    let again = steam_reading(1, Some("Terraria".to_string()));
    assert_eq!(steam_tick(&mut poller, &mut state, &again, &l), None);
    assert_eq!(state.status, OnlineStatus::Online);
}

#[test]
fn steam_racing_ticks_send_once() {
    let l = loc();
    let mut poller = SteamPoller::new();
    let mut state = PlayerState::new();
    let reading = steam_reading(3, None);
    let sends = [
        steam_tick(&mut poller, &mut state, &reading, &l),
        steam_tick(&mut poller, &mut state, &reading, &l),
    ];
    assert_eq!(sends.iter().filter(|s| s.is_some()).count(), 1);
    assert_eq!(sends[0], Some("Bob is idle on Steam".to_string()));
}

#[test]
fn steam_offline_needs_a_second_read() {
    let l = loc();
    let mut poller = SteamPoller::new();
    let mut state = PlayerState { status: OnlineStatus::Online, game: Some("Dota 2".to_string()) };
    assert_eq!(steam_tick(&mut poller, &mut state, &steam_reading(0, None), &l), None);
    assert!(poller.offline_pending);
    assert_eq!(state.status, OnlineStatus::Online);
    assert_eq!(state.game, Some("Dota 2".to_string()));
    let sent = steam_tick(&mut poller, &mut state, &steam_reading(0, None), &l);
    assert_eq!(sent, Some("Bob is offline on Steam".to_string()));
    assert!(!poller.offline_pending);
    assert_eq!(state.status, OnlineStatus::Offline);
    assert_eq!(steam_tick(&mut poller, &mut state, &steam_reading(0, None), &l), None);
}

#[test]
fn steam_unconfirmed_offline_with_new_game() {
    let l = loc();
    let mut poller = SteamPoller::new();
    let mut state = PlayerState { status: OnlineStatus::Online, game: Some("Dota 2".to_string()) };
    let reading = steam_reading(0, Some("Portal".to_string()));
    let sent = steam_tick(&mut poller, &mut state, &reading, &l);
    assert_eq!(sent, Some("Bob is offline playing Portal on Steam".to_string()));
    assert_eq!(state.status, OnlineStatus::Online);
    assert_eq!(state.game, Some("Portal".to_string()));
    assert!(poller.offline_pending && poller.offline_announced);
    assert_eq!(steam_tick(&mut poller, &mut state, &reading, &l), None);
    assert_eq!(state.status, OnlineStatus::Offline);
    assert_eq!(poller, SteamPoller::new());
    let sent = steam_tick(&mut poller, &mut state, &steam_reading(1, None), &l);
    assert_eq!(sent, Some("Bob is online on Steam".to_string()));
    assert_eq!(state.status, OnlineStatus::Online);
}

#[test]
fn steam_offline_read_is_dropped_by_an_online_one() {
    let l = loc();
    let mut poller = SteamPoller::new();
    let mut state = PlayerState { status: OnlineStatus::Online, game: None };
    assert_eq!(steam_tick(&mut poller, &mut state, &steam_reading(0, None), &l), None);
    assert_eq!(steam_tick(&mut poller, &mut state, &steam_reading(1, None), &l), None);
    assert!(!poller.offline_pending);
    assert_eq!(steam_tick(&mut poller, &mut state, &steam_reading(0, None), &l), None);
    assert_eq!(state.status, OnlineStatus::Online);
}

#[test]
fn steam_change_between_online_statuses() {
    let l = loc();
    let mut poller = SteamPoller::new();
    let mut state = PlayerState { status: OnlineStatus::Online, game: None };
    let sent = steam_tick(&mut poller, &mut state, &steam_reading(3, None), &l);
    assert_eq!(sent, Some("Bob is idle on Steam".to_string()));
    assert_eq!(state.status, OnlineStatus::Idle);
    let sent = steam_tick(&mut poller, &mut state, &steam_reading(2, None), &l);
    assert_eq!(sent, Some("Bob is busy on Steam".to_string()));
    assert_eq!(state.status, OnlineStatus::DoNotDisturb);
}

#[test]
fn steam_first_reading() {
    assert!(first_reading(&vec![]).is_none());
    let players = vec![
        SteamPlayer { personastate: 2, gameextrainfo: Some("Portal".to_string()) },
        SteamPlayer { personastate: 1, gameextrainfo: None },
    ];
    let r = first_reading(&players).unwrap();
    assert_eq!(r.status, OnlineStatus::DoNotDisturb);
    assert_eq!(r.game, Some("Portal".to_string()));
}

#[test]
fn supervisor_restart_discards_stale_reads() {
    let l = loc();
    let mut sup = WatcherSupervisor::new();
    assert_eq!(sup.phase, SupervisorPhase::Idle);
    let first = sup.on_ready();
    assert!(!first.cancel_previous);
    assert!(first.spawn);
    assert_eq!(sup.phase, SupervisorPhase::Starting);
    sup.on_spawned();
    assert_eq!(sup.phase, SupervisorPhase::Running);
    let second = sup.on_ready();
    assert!(second.cancel_previous);
    assert!(second.spawn);
    assert_eq!(sup.phase, SupervisorPhase::Restarting);
    sup.on_spawned();
    assert_eq!(sup.phase, SupervisorPhase::Running);
    assert!(second.generation > first.generation);

    let mut poller = SteamPoller::new();
    let mut state = PlayerState::new();
    let reading = steam_reading(1, Some("Terraria".to_string()));
    assert_eq!(steam_commit(&sup, first.generation, &mut poller, &mut state, &reading, &l), None);
    assert_eq!(state.status, OnlineStatus::Offline);
    assert_eq!(state.game, None);
    assert!(steam_commit(&sup, second.generation, &mut poller, &mut state, &reading, &l).is_some());
    assert_eq!(state.status, OnlineStatus::Online);
}

#[test]
fn supervisor_idle_admits_nothing() {
    let sup = WatcherSupervisor::new();
    assert!(!sup.is_current(0));
}

#[test]
fn supervisor_exhausted_generations_retire_every_loop() {
    let mut sup = WatcherSupervisor { phase: SupervisorPhase::Running, generation: u64::MAX };
    assert!(sup.is_current(u64::MAX));
    let order = sup.on_ready();
    assert!(order.cancel_previous);
    assert!(!order.spawn);
    assert_eq!(sup.phase, SupervisorPhase::Retired);
    assert!(!sup.is_current(u64::MAX));
    sup.on_spawned();
    assert_eq!(sup.phase, SupervisorPhase::Retired);
    let again = sup.on_ready();
    assert!(!again.spawn);
    assert!(!sup.is_current(u64::MAX));
}

#[test]
fn presence_mobile_idle_without_activity() {
    let l = loc();
    let client = ClientStatus { desktop: None, mobile: Some(OnlineStatus::Idle), web: None };
    let e = event(OnlineStatus::Online, Some(client), vec![]);
    assert_eq!(compose_presence_text(&l, &e), "Bob is idle on the phone");
    let mut state = PlayerState { status: OnlineStatus::Online, game: Some("Dota 2".to_string()) };
    let mut last = LastNotification::new();
    let sent = handle_presence(&mut state, &mut last, &e, &target(), &l).map(|c| c.text);
    assert_eq!(sent, Some("Bob is idle on the phone".to_string()));
    assert_eq!(state.game, None);
}

#[test]
fn presence_device_order() {
    let l = loc();
    let web_and_desktop = ClientStatus {
        desktop: Some(OnlineStatus::DoNotDisturb),
        mobile: None,
        web: Some(OnlineStatus::Online),
    };
    let e = event(OnlineStatus::Idle, Some(web_and_desktop), vec![]);
    assert_eq!(compose_presence_text(&l, &e), "Bob is online in a browser");
    let desktop = ClientStatus { desktop: Some(OnlineStatus::DoNotDisturb), mobile: None, web: None };
    let e = event(OnlineStatus::Idle, Some(desktop), vec![]);
    assert_eq!(compose_presence_text(&l, &e), "Bob is busy on a computer");
    let e = event(OnlineStatus::Idle, None, vec![]);
    assert_eq!(compose_presence_text(&l, &e), "Bob is idle");
}

#[test]
fn presence_activity_lines() {
    let l = loc();
    let mut a = activity(ActivityKind::Playing, "Dota 2", Some("Ranked"));
    a.large_text = Some("Level 20".to_string());
    a.small_text = Some(String::new());
    let e = event(OnlineStatus::Online, None, vec![a]);
    assert_eq!(compose_presence_text(&l, &e), "Bob is online playing Dota 2\nRanked\nLevel 20");
}

#[test]
fn presence_custom_status_uses_details() {
    let l = loc();
    let a = activity(ActivityKind::Custom, "Custom Status", Some("thinking"));
    let e = event(OnlineStatus::Online, None, vec![a]);
    assert_eq!(compose_presence_text(&l, &e), "Bob is online playing thinking");
    let mut state = PlayerState::new();
    let mut last = LastNotification::new();
    assert!(handle_presence(&mut state, &mut last, &e, &target(), &l).is_some());
    assert_eq!(state.game, Some("thinking".to_string()));
}

#[test]
fn presence_repeats_send_only_first() {
    let l = loc();
    let mut state = PlayerState::new();
    let mut last = LastNotification::new();
    let statuses = [OnlineStatus::Online, OnlineStatus::Idle, OnlineStatus::Online, OnlineStatus::DoNotDisturb];
    let mut sent = Vec::new();
    for s in statuses {
        let e = event(s, None, vec![activity(ActivityKind::Playing, "Dota 2", None)]);
        sent.push(handle_presence(&mut state, &mut last, &e, &target(), &l).map(|c| c.text));
    }
    assert_eq!(sent[0], Some("Bob is online playing Dota 2".to_string()));
    assert!(sent[1..].iter().all(|s| s.is_none()));
    assert_eq!(state.status, OnlineStatus::DoNotDisturb);
}

#[test]
fn presence_ignores_other_guild_and_user() {
    let l = loc();
    let mut state = PlayerState::new();
    let mut last = LastNotification::new();
    let mut e = event(OnlineStatus::Online, None, vec![activity(ActivityKind::Playing, "Dota 2", None)]);
    e.guild_id = Some(GUILD + 1);
    assert_eq!(handle_presence(&mut state, &mut last, &e, &target(), &l).map(|c| c.text), None);
    e.guild_id = None;
    assert_eq!(handle_presence(&mut state, &mut last, &e, &target(), &l).map(|c| c.text), None);
    e.guild_id = Some(GUILD);
    e.user_id = USER + 1;
    assert_eq!(handle_presence(&mut state, &mut last, &e, &target(), &l).map(|c| c.text), None);
    assert_eq!(state.status, OnlineStatus::Offline);
    assert_eq!(state.game, None);
    assert_eq!(last.text, None);
}

#[test]
fn presence_same_text_as_last_is_suppressed() {
    let l = loc();
    let mut state = PlayerState::new();
    let mut last = LastNotification { text: Some("Bob is online playing Dota 2".to_string()) };
    let e = event(OnlineStatus::Online, None, vec![activity(ActivityKind::Playing, "Dota 2", None)]);
    assert_eq!(handle_presence(&mut state, &mut last, &e, &target(), &l).map(|c| c.text), None);
    assert_eq!(state.game, Some("Dota 2".to_string()));
}

#[test]
fn failed_send_puts_previous_text_back() {
    let l = loc();
    let mut state = PlayerState::new();
    let mut last = LastNotification { text: Some("earlier".to_string()) };
    let e = event(OnlineStatus::Online, None, vec![activity(ActivityKind::Playing, "Dota 2", None)]);
    let claim = handle_presence(&mut state, &mut last, &e, &target(), &l).unwrap();
    assert_eq!(claim.text, "Bob is online playing Dota 2");
    assert_eq!(claim.previous, Some("earlier".to_string()));
    assert_eq!(last.text, Some("Bob is online playing Dota 2".to_string()));
    last.release(&claim.text, claim.previous.clone());
    assert_eq!(last.text, Some("earlier".to_string()));
    assert!(last.claim(&"newer".to_string()));
    last.release(&claim.text, claim.previous);
    assert_eq!(last.text, Some("newer".to_string()));
}

#[test]
fn target_author() {
    assert!(target().is_author(USER));
    assert!(!target().is_author(USER + 1));
}

#[test]
fn hero_catalog_later_entry_wins() {
    let mut entries = catalog_entries();
    entries.push(Hero { id: 2, localized_name: "Mogul Khan".to_string() });
    let c = HeroCatalog::from_entries(&entries);
    assert_eq!(c.lookup(1), Some(&"Anti-Mage".to_string()));
    assert_eq!(c.lookup(2), Some(&"Mogul Khan".to_string()));
    assert_eq!(c.lookup(3), None);
    let empty = HeroCatalog { heroes: HashMap::new() };
    assert_eq!(empty.lookup(1), None);
}

#[test]
fn match_poller_seeds_then_announces() {
    let l = loc();
    let mut p = MatchPoller::new();
    assert!(p.needs_heroes());
    assert_eq!(p.on_matches(&vec![a_match(5, 2, true)], &l), None);
    assert_eq!(p.cursor, None);
    p.set_heroes(&catalog_entries());
    assert!(!p.needs_heroes());
    p.set_heroes(&vec![Hero { id: 1, localized_name: "Axe".to_string() }]);
    assert_eq!(p.heroes.as_ref().unwrap().lookup(1), Some(&"Anti-Mage".to_string()));
    assert_eq!(p.on_matches(&vec![], &l), None);
    assert_eq!(p.cursor, None);
    assert_eq!(p.on_matches(&vec![a_match(5, 2, true), a_match(4, 2, true)], &l), None);
    assert_eq!(p.cursor, Some(5));
    assert_eq!(p.on_matches(&vec![a_match(5, 2, true)], &l), None);
    let text = p.on_matches(&vec![a_match(6, 7, true), a_match(5, 2, true)], &l);
    assert_eq!(
        text,
        Some("Bob lost. played as Anti-Mage with score 7, 3, 12. The match lasted 12 minutes.".to_string())
    );
    assert_eq!(p.cursor, Some(6));
}

#[test]
fn match_poller_seed_of_zero_is_not_a_sentinel() {
    let l = loc();
    let mut p = MatchPoller::new();
    p.set_heroes(&catalog_entries());
    assert_eq!(p.on_matches(&vec![a_match(0, 2, true)], &l), None);
    assert_eq!(p.on_matches(&vec![a_match(0, 2, true)], &l), None);
    let text = p.on_matches(&vec![a_match(1, 2, true)], &l).unwrap();
    assert!(text.starts_with("Bob won. "));
}

#[test]
fn match_text_without_hero() {
    let l = loc();
    let mut p = MatchPoller::new();
    p.set_heroes(&catalog_entries());
    p.on_matches(&vec![a_match(1, 2, true)], &l);
    let mut m = a_match(2, 3, true);
    m.hero_id = 99;
    m.duration = 3600;
    let text = p.on_matches(&vec![m], &l);
    assert_eq!(text, Some("Bob won. with score 7, 3, 12. The match lasted 60 minutes.".to_string()));
}
