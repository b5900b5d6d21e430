use server_discovery::address::Address;
use server_discovery::discovery::{DiscoveryPass, PassPhase};
use server_discovery::game_server::{build_game_server, GameServer, ServerInfo};
use server_discovery::player::Player;
use server_discovery::store::ServerStore;

fn addr(ip3: u8, port: u16) -> Address {
    Address { ip0: 10, ip1: 0, ip2: 0, ip3, port }
}

fn info(name: &str) -> ServerInfo {
    ServerInfo {
        name: String::from(name),
        map: String::from("de_dust2"),
        players: 12,
        max_players: 24,
    }
}

fn roster() -> Vec<Player> {
    vec![
        Player::new(String::from("alice"), 31, 125),
        Player::new(String::from("bob"), -2, 90),
    ]
}

fn names(servers: &[GameServer]) -> Vec<String> {
    servers.iter().map(|s| s.name.clone()).collect()
}

#[test]
fn build_full_result() {
    let g = build_game_server(Some(info("srv")), Some(roster()));
    assert_eq!(g.name, "srv");
    assert_eq!(g.map, "de_dust2");
    assert_eq!(g.player_count, 12);
    assert_eq!(g.max_players, 24);
    assert_eq!(g.player_list.len(), 2);
    assert_eq!(g.player_list[0].name, "alice");
    assert_eq!(g.player_list[0].score, 31);
    assert_eq!(g.player_list[1].score, -2);
    assert_eq!(g.last_updated, 0);
}

#[test]
fn build_info_without_players() {
    let g = build_game_server(Some(info("srv")), None);
    assert_eq!(g.name, "srv");
    assert!(g.player_list.is_empty());
}

#[test]
fn build_placeholder_on_total_failure() {
    let g = build_game_server(None, None);
    assert_eq!(g.name, "n/a");
    assert_eq!(g.map, "n/a");
    assert_eq!(g.player_count, 0);
    assert_eq!(g.max_players, 0);
    assert!(g.player_list.is_empty());
}

#[test]
fn store_incremental_read() {
    let mut store = ServerStore::new();
    store.upsert(addr(1, 1), build_game_server(Some(info("A")), None));
    store.upsert(addr(2, 2), build_game_server(Some(info("B")), None));
    let first = store.read_new();
    assert_eq!(names(&first), vec!["A", "B"]);
    store.upsert(addr(3, 3), build_game_server(Some(info("C")), None));
    let second = store.read_new();
    assert_eq!(names(&second), vec!["C"]);
    let third = store.read_new();
    assert!(third.is_empty());
}

#[test]
fn store_upsert_replaces_and_stamps() {
    let mut store = ServerStore::new();
    let a = addr(1, 27015);
    store.upsert(a, build_game_server(Some(info("old name")), None));
    store.upsert(a, build_game_server(Some(info("new name")), Some(roster())));
    assert_eq!(store.clock(), 2);
    let all = store.snapshot_since(0);
    assert_eq!(all.len(), 1);
    assert_eq!(all[0].name, "new name");
    assert_eq!(all[0].last_updated, 2);
    assert_eq!(all[0].player_list.len(), 2);
}

#[test]
fn store_snapshot_does_not_advance_cursor() {
    let mut store = ServerStore::new();
    store.upsert(addr(1, 1), build_game_server(Some(info("A")), None));
    assert_eq!(store.snapshot_since(0).len(), 1);
    assert_eq!(store.snapshot_since(0).len(), 1);
    assert_eq!(store.read_new().len(), 1);
    assert_eq!(store.read_new().len(), 0);
}

fn page_of(addresses: &[Address]) -> Vec<u8> {
    let mut page = Vec::new();
    for a in addresses {
        page.extend(a.encode());
    }
    page
}

#[test]
fn pass_terminates_after_two_pages() {
    let a = addr(1, 1);
    let b = addr(2, 2);
    let c = addr(3, 3);
    let mut pass = DiscoveryPass::new(0xFF, Vec::new());
    let mut store = ServerStore::new();
    let mut cycles = 0;
    let pages = vec![page_of(&[a, b]), page_of(&[c, Address::null()])];
    let mut next_page = pages.into_iter();
    while pass.phase == PassPhase::Requesting {
        let _request = pass.request_bytes();
        let page = next_page.next().expect("directory asked for more pages than simulated");
        cycles += 1;
        let to_query = pass.on_response(&page);
        for discovered in to_query {
            let label = format!("{}", discovered.ip3);
            store.upsert(discovered, build_game_server(Some(info(&label)), None));
        }
    }
    assert_eq!(cycles, 2);
    assert_eq!(pass.phase, PassPhase::Done);
    let found = store.read_new();
    assert_eq!(names(&found), vec!["1", "2", "3"]);
}

#[test]
fn pass_continuation_follows_last_record() {
    let a = addr(1, 1);
    let b = addr(2, 2);
    let mut pass = DiscoveryPass::new(0x02, b"\\appid\\730".to_vec());
    let to_query = pass.on_response(&page_of(&[a, b]));
    assert_eq!(to_query, vec![a, b]);
    assert_eq!(pass.phase, PassPhase::Requesting);
    let next_request = pass.request_bytes();
    // tag, region, then the continuation: the last record of the page.
    assert_eq!(&next_request[2..8], b.encode().as_slice());
}

#[test]
fn pass_aborts_on_transport_failure() {
    let a = addr(1, 1);
    let b = addr(2, 2);
    let mut pass = DiscoveryPass::new(0xFF, Vec::new());
    let mut store = ServerStore::new();
    // First page arrives and is processed.
    let to_query = pass.on_response(&page_of(&[a, b]));
    for discovered in to_query {
        let label = format!("{}", discovered.ip3);
        store.upsert(discovered, build_game_server(Some(info(&label)), None));
    }
    assert_eq!(pass.phase, PassPhase::Requesting);
    // The second receive fails: the pass ends, the store keeps page one.
    pass.on_transport_error();
    assert_eq!(pass.phase, PassPhase::Aborted);
    assert_eq!(names(&store.read_new()), vec!["1", "2"]);
}

#[test]
fn pass_tolerates_one_failed_detail_query() {
    let a = addr(1, 1);
    let b = addr(2, 2);
    let c = addr(3, 3);
    let mut pass = DiscoveryPass::new(0xFF, Vec::new());
    let mut store = ServerStore::new();
    let to_query = pass.on_response(&page_of(&[a, b, c, Address::null()]));
    assert_eq!(to_query, vec![a, b, c]);
    for discovered in to_query {
        // The detail query for b fails in both halves; a and c succeed.
        let outcome = if discovered == b {
            build_game_server(None, None)
        } else {
            let label = format!("{}", discovered.ip3);
            build_game_server(Some(info(&label)), Some(roster()))
        };
        store.upsert(discovered, outcome);
    }
    assert_eq!(pass.phase, PassPhase::Done);
    let found = store.read_new();
    assert_eq!(names(&found), vec!["1", "n/a", "3"]);
    assert_eq!(found[1].player_count, 0);
    assert!(found[1].player_list.is_empty());
    assert_eq!(found[0].player_list.len(), 2);
    assert_eq!(found[2].max_players, 24);
}

#[test]
fn pass_ends_on_empty_datagram() {
    let mut pass = DiscoveryPass::new(0xFF, Vec::new());
    let to_query = pass.on_response(&Vec::new());
    assert!(to_query.is_empty());
    assert_eq!(pass.phase, PassPhase::Done);
}

#[test]
fn mid_page_terminator_is_not_queried() {
    let a = addr(1, 1);
    let b = addr(2, 2);
    let mut pass = DiscoveryPass::new(0xFF, Vec::new());
    let to_query = pass.on_response(&page_of(&[a, Address::null(), b]));
    assert_eq!(to_query, vec![a, b]);
    // The last record decides the phase, and it is a live address.
    assert_eq!(pass.phase, PassPhase::Requesting);
}

#[test]
fn game_server_update_replaces_everything() {
    let mut g = build_game_server(None, None);
    g.update(
        String::from("srv"),
        String::from("de_inferno"),
        3,
        10,
        vec![Player::new(String::from("carol"), 7, 1000)],
        42,
    );
    assert_eq!(g.name, "srv");
    assert_eq!(g.map, "de_inferno");
    assert_eq!(g.player_count, 3);
    assert_eq!(g.max_players, 10);
    assert_eq!(g.player_list.len(), 1);
    assert_eq!(g.last_updated, 42);
}
