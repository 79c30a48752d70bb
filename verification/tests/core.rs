use media_sink::beacon::{beacon_payload, broadcast_addr, listen_addr, BEACON_INTERVAL_MS};
use media_sink::dedup::DedupState;
use media_sink::events::joined_timestamp;
use media_sink::registry::ClientRegistry;
use media_sink::state::AppState;
use tokio_util::sync::CancellationToken;

#[test]
fn beacon_marker_is_four_bytes_of_eighty() {
    assert_eq!(beacon_payload(), vec![80u8, 80, 80, 80]);
    assert_eq!(BEACON_INTERVAL_MS, 500);
    assert_eq!(broadcast_addr(), "255.255.255.255:45777");
    assert_eq!(listen_addr(), "0.0.0.0:45777");
}

#[test]
fn artwork_changed_sequence_x_x_y() {
    let mut dedup = DedupState::new();
    let id = String::from("A");
    let mut seen = Vec::new();
    for title in ["X", "X", "Y"] {
        seen.push(dedup.observe(&id, &String::from(title)));
    }
    assert_eq!(seen, vec![true, false, true]);
}

#[test]
fn artwork_changed_first_sighting_empty_title() {
    let mut dedup = DedupState::new();
    assert!(dedup.observe(&String::from("A"), &String::from("")));
    assert!(!dedup.observe(&String::from("A"), &String::from("")));
}

#[test]
fn artwork_changed_tracks_sources_independently() {
    let mut dedup = DedupState::new();
    let a = String::from("player.a");
    let b = String::from("player.b");
    assert!(dedup.observe(&a, &String::from("X")));
    assert!(dedup.observe(&b, &String::from("X")));
    assert!(!dedup.observe(&a, &String::from("X")));
    assert!(dedup.observe(&b, &String::from("Y")));
}

#[test]
fn toggle_twice_restores_stopped_state() {
    let mut state = AppState::init();
    let scope = state.toggle_server();
    assert!(scope.is_some());
    let (running, ids) = state.fetch_data();
    assert!(running);
    assert!(ids.is_empty());
    let scope = state.toggle_server();
    assert!(scope.is_none());
    let (running, ids) = state.fetch_data();
    assert!(!running);
    assert!(ids.is_empty());
}

#[test]
fn kill_server_on_stopped_is_noop() {
    let mut state = AppState::init();
    state.kill_server();
    let (running, ids) = state.fetch_data();
    assert!(!running);
    assert!(ids.is_empty());
}

#[test]
fn toggle_while_running_drops_every_client() {
    let mut state = AppState::init();
    let scope = state.toggle_server().unwrap();
    let t1 = CancellationToken::new();
    let t2 = CancellationToken::new();
    state.add_client(String::from("10.0.0.1:50000"), t1.clone());
    state.add_client(String::from("10.0.0.2:50001"), t2.clone());
    let (running, ids) = state.fetch_data();
    assert!(running);
    assert_eq!(ids.len(), 2);
    state.toggle_server();
    let (running, ids) = state.fetch_data();
    assert!(!running);
    assert!(ids.is_empty());
    assert!(scope.is_cancelled());
    assert!(t1.is_cancelled());
    assert!(t2.is_cancelled());
}

#[test]
fn kill_client_leaves_the_other_untouched() {
    let mut state = AppState::init();
    state.toggle_server();
    let t1 = CancellationToken::new();
    let t2 = CancellationToken::new();
    state.add_client(String::from("client-1"), t1.clone());
    state.add_client(String::from("client-2"), t2.clone());
    state.kill_client(String::from("client-1"));
    let (running, ids) = state.fetch_data();
    assert!(running);
    assert_eq!(ids, vec![String::from("client-2")]);
    assert!(t1.is_cancelled());
    assert!(!t2.is_cancelled());
}

#[test]
fn kill_all_clients_clears_registry_only() {
    let mut state = AppState::init();
    state.toggle_server();
    state.add_client(String::from("c1"), CancellationToken::new());
    state.add_client(String::from("c2"), CancellationToken::new());
    state.kill_all_clients();
    let (running, ids) = state.fetch_data();
    assert!(running);
    assert!(ids.is_empty());
}

#[test]
fn listener_failure_forces_full_stop() {
    // A fatal bind/accept error reaches the supervisor, which tears the
    // whole sink down: running goes false and no client survives.
    let mut state = AppState::init();
    let scope = state.toggle_server().unwrap();
    state.add_client(String::from("c1"), CancellationToken::new());
    state.kill_server();
    let (running, ids) = state.fetch_data();
    assert!(!running);
    assert!(ids.is_empty());
    assert!(scope.is_cancelled());
}

#[test]
fn registry_last_write_wins_on_duplicate_id() {
    let mut reg = ClientRegistry::new();
    let t1 = CancellationToken::new();
    let t2 = CancellationToken::new();
    reg.add(String::from("c"), t1);
    reg.add(String::from("c"), t2);
    assert_eq!(reg.list(), vec![String::from("c")]);
    assert!(reg.remove(&String::from("c")));
    assert!(!reg.remove(&String::from("c")));
    assert!(reg.list().is_empty());
}

#[test]
fn registry_cancel_fires_and_removes() {
    let mut reg = ClientRegistry::new();
    let t = CancellationToken::new();
    reg.add(String::from("c"), t.clone());
    assert!(reg.cancel(&String::from("c")));
    assert!(t.is_cancelled());
    assert!(reg.list().is_empty());
    assert!(!reg.cancel(&String::from("c")));
}

#[test]
fn timestamp_joins_date_and_time_with_t() {
    assert_eq!(joined_timestamp("2024-05-01", "12:30:00"), "2024-05-01T12:30:00");
}
