use f0bot::lease::{FetchError, FetchErrorKind, FetchResult, Lease, Scheme};
use f0bot::status::cmd_status_text;
use f0bot::presence::{present_identities, DeviceDirectory, PresenceSnapshot, PresenceState};

const MINUTE: u64 = 60_000;

fn lease(mac: &str, ms: u64) -> Lease {
    Lease { mac_address: mac.to_string(), last_seen_ms: ms }
}

fn directory() -> DeviceDirectory {
    DeviceDirectory { entries: vec![("AA:BB:CC:DD:EE:01".to_string(), 1), ("AA:BB:CC:DD:EE:02".to_string(), 2)] }
}

fn known(state: &PresenceState) -> Option<Vec<u64>> {
    match state.snapshot() {
        PresenceSnapshot::Unknown => None,
        PresenceSnapshot::Known(mut ids) => {
            ids.sort();
            Some(ids)
        }
    }
}

#[test]
fn fresh_lease_of_known_device_is_present() {
    let mut state = PresenceState::new();
    state.apply(&vec![lease("AA:BB:CC:DD:EE:01", 2 * MINUTE)], &directory(), 10 * MINUTE);
    assert_eq!(known(&state), Some(vec![1]));
}

#[test]
fn stale_lease_is_excluded() {
    let mut state = PresenceState::new();
    state.apply(&vec![lease("AA:BB:CC:DD:EE:01", 120 * MINUTE)], &directory(), 10 * MINUTE);
    assert_eq!(known(&state), Some(vec![]));
}

#[test]
fn lease_at_threshold_is_stale() {
    let ids = present_identities(&vec![lease("AA:BB:CC:DD:EE:01", 10 * MINUTE)], &directory(), 10 * MINUTE);
    assert!(ids.is_empty());
}

#[test]
fn unknown_device_contributes_nothing() {
    let mut state = PresenceState::new();
    let leases = vec![lease("00:00:00:00:00:09", MINUTE), lease("AA:BB:CC:DD:EE:02", MINUTE)];
    state.apply(&leases, &directory(), 10 * MINUTE);
    assert_eq!(known(&state), Some(vec![2]));
}

#[test]
fn identities_are_deduplicated() {
    let dir = DeviceDirectory {
        entries: vec![("M1".to_string(), 7), ("M2".to_string(), 7), ("M3".to_string(), 8)],
    };
    let leases = vec![lease("M1", 1), lease("M3", 99_999), lease("M2", 5), lease("M3", 3)];
    assert_eq!(present_identities(&leases, &dir, 1000), vec![7, 8]);
}

#[test]
fn first_directory_entry_wins() {
    let dir = DeviceDirectory { entries: vec![("M1".to_string(), 4), ("M1".to_string(), 5)] };
    assert_eq!(dir.lookup(&"M1".to_string()), Some(4));
    assert_eq!(dir.lookup(&"M2".to_string()), None);
}

#[test]
fn applying_twice_gives_same_set() {
    let mut state = PresenceState::new();
    let leases = vec![lease("AA:BB:CC:DD:EE:01", MINUTE), lease("AA:BB:CC:DD:EE:02", MINUTE)];
    state.apply(&leases, &directory(), 10 * MINUTE);
    let first = known(&state);
    state.apply(&leases, &directory(), 10 * MINUTE);
    assert_eq!(known(&state), first);
    assert_eq!(first, Some(vec![1, 2]));
}

#[test]
fn unknown_until_first_success_then_kept() {
    let failure: FetchResult = Err(FetchError {
        scheme: Scheme::Http,
        host: "router".to_string(),
        kind: FetchErrorKind::Transport("timeout".to_string()),
    });
    let mut state = PresenceState::new();
    assert_eq!(known(&state), None);
    state.commit(&failure, &directory(), 10 * MINUTE);
    assert_eq!(known(&state), None);
    let success: FetchResult = Ok(vec![lease("AA:BB:CC:DD:EE:01", MINUTE)]);
    state.commit(&success, &directory(), 10 * MINUTE);
    assert_eq!(known(&state), Some(vec![1]));
    state.commit(&failure, &directory(), 10 * MINUTE);
    state.commit(&failure, &directory(), 10 * MINUTE);
    assert_eq!(known(&state), Some(vec![1]));
}

#[test]
fn empty_success_is_known_and_empty() {
    let mut state = PresenceState::new();
    state.commit(&Ok(vec![]), &directory(), 10 * MINUTE);
    let snap = state.snapshot();
    assert_eq!(snap.active_users().map(|v| v.len()), Some(0));
}

#[test]
fn status_text_tells_unknown_from_empty() {
    let mut state = PresenceState::new();
    assert_eq!(
        cmd_status_text(&state.snapshot(), "alice"),
        "No data collected yet. Probably Mikrotik password is incorrect. Tell that to the admin.\n"
    );
    state.commit(&Ok(vec![]), &directory(), 10 * MINUTE);
    assert_eq!(cmd_status_text(&state.snapshot(), ""), "Currently in space: \n");
    assert_eq!(cmd_status_text(&state.snapshot(), "alice, bob"), "Currently in space: \nalice, bob");
}
