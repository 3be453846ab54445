use wikistate::appstate::{AppState, Config, DEFAULT_WIKI_DB_PORT, TOOL_DB_PORT};
use wikistate::federation::{get_url_for_wiki_from_site, resolve_url, FederationGroup, Site, SiteMatrix};
use wikistate::pool::{build_default_pool, build_pool, choose_credential, CredGroup, Credential};
use wikistate::retry::{RetryState, MYSQL_CONNECTION_INITIAL_DELAY_MS, MYSQL_MAX_CONNECTION_ATTEMPTS};
use wikistate::shutdown::ShutdownState;
use wikistate::store::QueryStore;

fn group(user: &str, password: &str, connections: u64) -> CredGroup {
    CredGroup {
        user: user.to_string(),
        password: password.to_string(),
        connections,
    }
}

fn site(dbname: &str, url: &str, closed: bool, private: bool) -> Site {
    Site {
        dbname: dbname.to_string(),
        url: url.to_string(),
        closed,
        private,
    }
}

fn config_with_groups(groups: Option<Vec<CredGroup>>) -> Config {
    Config {
        user: "tooluser".to_string(),
        password: "SECRET-REDACTED".to_string(),
        host: "tools-db".to_string(),
        schema: "s12345__tool".to_string(),
        db_port: None,
        mysql_groups: groups,
    }
}

fn empty_matrix() -> SiteMatrix {
    SiteMatrix { groups: Vec::new() }
}

#[test]
fn pool_size_is_sum_of_group_counts() {
    let groups = vec![group("userA", "passA", 3), group("userB", "passB", 2)];
    let pool = build_pool(&groups);
    assert_eq!(pool.len(), 5);
    for entry in &pool[0..3] {
        assert!(entry.user == "userA");
        assert!(entry.password == "passA");
    }
    for entry in &pool[3..5] {
        assert!(entry.user == "userB");
        assert!(entry.password == "passB");
    }
}

#[test]
fn pool_group_with_zero_count_falls_back_to_five() {
    let groups = vec![group("userA", "passA", 0)];
    let pool = build_pool(&groups);
    assert_eq!(pool.len(), 5);
    for entry in &pool {
        assert!(entry.user == "userA");
    }
}

#[test]
fn pool_absent_group_list_yields_fixed_default() {
    let pool = build_default_pool(&"primary".to_string(), &"pw".to_string());
    assert_eq!(pool.len(), 9);
    for entry in &pool {
        assert!(entry.user == "primary");
        assert!(entry.password == "pw");
    }
}

#[test]
fn app_state_two_groups_yield_five_entry_pool() {
    let config = config_with_groups(Some(vec![
        group("userA", "passA", 3),
        group("userB", "passB", 2),
    ]));
    let state = AppState::new_from_config(config, empty_matrix(), String::new());
    assert_eq!(state.db_pool.len(), 5);
    assert!(state.tool_db_credential.user == "tooluser");
}

#[test]
fn select_draws_every_pool_entry() {
    let pool: Vec<Credential> = (0..3)
        .map(|i| Credential {
            user: format!("user{}", i),
            password: "pw".to_string(),
        })
        .collect();
    let mut seen = [false; 3];
    for _ in 0..600 {
        let c = choose_credential(&pool);
        for (i, flag) in seen.iter_mut().enumerate() {
            if c.user == format!("user{}", i) {
                *flag = true;
            }
        }
    }
    assert!(seen.iter().all(|&b| b));
}

#[test]
fn resolve_rejects_closed_site_even_on_exact_match() {
    let matrix = SiteMatrix {
        groups: vec![FederationGroup::Language {
            sites: vec![site("enwiki", "https://en.example.org", true, false)],
        }],
    };
    assert!(resolve_url(&matrix, &"enwiki".to_string()).is_none());
}

#[test]
fn resolve_rejects_private_site_even_on_exact_match() {
    let matrix = SiteMatrix {
        groups: vec![FederationGroup::Language {
            sites: vec![site("enwiki", "https://en.example.org", false, true)],
        }],
    };
    assert!(resolve_url(&matrix, &"enwiki".to_string()).is_none());
}

#[test]
fn resolve_returns_host_of_open_public_site() {
    let matrix = SiteMatrix {
        groups: vec![
            FederationGroup::Count,
            FederationGroup::Language {
                sites: vec![
                    site("dewiki", "https://de.example.org", false, false),
                    site("enwiki", "https://en.example.org", false, false),
                ],
            },
        ],
    };
    let url = resolve_url(&matrix, &"enwiki".to_string());
    assert_eq!(url, Some("https://en.example.org".to_string()));
}

#[test]
fn resolve_searches_specials_category() {
    let matrix = SiteMatrix {
        groups: vec![
            FederationGroup::Count,
            FederationGroup::Specials {
                sites: vec![site("commonswiki", "https://commons.example.org", false, false)],
            },
        ],
    };
    let url = resolve_url(&matrix, &"commonswiki".to_string());
    assert_eq!(url, Some("https://commons.example.org".to_string()));
}

#[test]
fn resolve_unknown_identifier_is_not_found() {
    let matrix = SiteMatrix {
        groups: vec![FederationGroup::Language {
            sites: vec![site("dewiki", "https://de.example.org", false, false)],
        }],
    };
    assert!(resolve_url(&matrix, &"nosuchwiki".to_string()).is_none());
}

#[test]
fn resolve_skips_count_entry_without_error() {
    let matrix = SiteMatrix {
        groups: vec![FederationGroup::Count],
    };
    assert!(resolve_url(&matrix, &"enwiki".to_string()).is_none());
}

#[test]
fn site_url_helper_matches_only_open_public_exact_name() {
    let wiki = "enwiki".to_string();
    let open = site("enwiki", "https://en.example.org", false, false);
    assert_eq!(
        get_url_for_wiki_from_site(&wiki, &open),
        Some("https://en.example.org".to_string())
    );
    let closed = site("enwiki", "https://en.example.org", true, false);
    assert!(get_url_for_wiki_from_site(&wiki, &closed).is_none());
    let other = site("dewiki", "https://de.example.org", false, false);
    assert!(get_url_for_wiki_from_site(&wiki, &other).is_none());
}

#[test]
fn get_or_create_same_string_returns_same_identifier() {
    let mut store = QueryStore::new();
    let q = "SELECT ?page WHERE { ?page a ?thing }".to_string();
    let id1 = store.get_or_create(&q, "2020-01-01- 00:00:00".to_string());
    let id2 = store.get_or_create(&q, "2020-01-01- 00:00:01".to_string());
    assert_eq!(id1, id2);
    assert_eq!(store.records.len(), 1);
}

#[test]
fn get_or_create_different_strings_return_different_identifiers() {
    let mut store = QueryStore::new();
    let id1 = store.get_or_create(&"first".to_string(), "t".to_string());
    let id2 = store.get_or_create(&"second".to_string(), "t".to_string());
    assert_ne!(id1, id2);
    assert_eq!(store.records.len(), 2);
}

#[test]
fn get_or_create_racing_duplicate_creates_no_second_record() {
    // Two handlers racing on the same novel string are serialized by the
    // storage layer's insert-or-ignore primitive; the loser's insert is a
    // no-op and both read back one identifier.
    let mut store = QueryStore::new();
    let q = "novel".to_string();
    let winner = store.get_or_create(&q, "t1".to_string());
    let loser = store.get_or_create(&q, "t2".to_string());
    assert_eq!(winner, loser);
    assert_eq!(store.records.len(), 1);
    assert_eq!(store.next_id, winner + 1);
}

#[test]
fn lookup_finds_stored_string_and_misses_absent_id() {
    let mut store = QueryStore::new();
    let q = "stored query".to_string();
    let id = store.get_or_create(&q, "t".to_string());
    assert_eq!(store.lookup(id), Some(q));
    assert_eq!(store.lookup(id + 1), None);
}

#[test]
fn retry_performs_exactly_max_attempts_with_doubling_delays() {
    let mut st = RetryState::new_mysql();
    let mut delays: Vec<u64> = Vec::new();
    let mut attempts: u64 = 0;
    loop {
        attempts += 1; // one (failing) connection attempt
        match st.next_delay() {
            Some(ms) => delays.push(ms),
            None => break,
        }
    }
    assert_eq!(attempts, MYSQL_MAX_CONNECTION_ATTEMPTS);
    assert_eq!(delays.len() as u64, MYSQL_MAX_CONNECTION_ATTEMPTS - 1);
    let mut expected = MYSQL_CONNECTION_INITIAL_DELAY_MS;
    for (k, &d) in delays.iter().enumerate() {
        assert_eq!(d, expected);
        if k + 1 < delays.len() {
            assert!(delays[k + 1] >= d);
        }
        expected *= 2;
    }
    assert_eq!(delays[0], 100);
    assert_eq!(delays[1], 200);
    assert_eq!(delays[2], 400);
    assert_eq!(delays[13], 100 * (1 << 13));
}

#[test]
fn shutdown_terminates_only_on_last_draining_exit() {
    let mut s = ShutdownState::new();
    assert!(!s.modify_threads_running(1));
    assert!(!s.modify_threads_running(1));
    assert!(!s.modify_threads_running(1));
    assert!(!s.is_shutting_down());
    s.request_shutdown();
    assert!(s.is_shutting_down());
    assert!(!s.modify_threads_running(-1));
    assert!(!s.modify_threads_running(-1));
    assert!(s.modify_threads_running(-1));
}

#[test]
fn shutdown_never_terminates_before_request() {
    let mut s = ShutdownState::new();
    assert!(!s.modify_threads_running(1));
    assert!(!s.modify_threads_running(-1));
    assert!(!s.is_shutting_down());
}

#[test]
fn request_shutdown_is_idempotent() {
    let mut s = ShutdownState::new();
    s.request_shutdown();
    s.request_shutdown();
    assert!(s.is_shutting_down());
    assert_eq!(s.threads_running, 0);
}

#[test]
fn app_state_endpoints_and_ports() {
    let mut config = config_with_groups(None);
    config.db_port = Some(3307);
    let state = AppState::new_from_config(config, empty_matrix(), "<html></html>".to_string());
    assert_eq!(state.db_pool.len(), 9);
    assert!(state.get_main_page() == "<html></html>");

    let (host, schema) = AppState::db_host_and_schema_for_wiki(&"wikidatawiki".to_string());
    assert_eq!(host, "127.0.0.1");
    assert_eq!(schema, "wikidatawiki_p");

    let (tool_host, tool_schema) = state.db_host_and_schema_for_tool_db();
    assert_eq!(tool_host, "tools-db");
    assert_eq!(tool_schema, "s12345__tool");

    assert_eq!(state.wiki_db_port(), 3307);
    assert_eq!(TOOL_DB_PORT, 3308);

    let defaulted = AppState::new_from_config(
        config_with_groups(None),
        empty_matrix(),
        String::new(),
    );
    assert_eq!(defaulted.wiki_db_port(), DEFAULT_WIKI_DB_PORT);
}

#[test]
fn app_state_psid_round_trip() {
    let mut state =
        AppState::new_from_config(config_with_groups(None), empty_matrix(), String::new());
    let q = "SELECT 1".to_string();
    let id1 = state.get_or_create_psid_for_query(&q).expect("an identifier is owed");
    let id2 = state.get_or_create_psid_for_query(&q).expect("an identifier is owed");
    assert_eq!(id1, id2);
    assert_eq!(state.get_query_from_psid(id1), Some(q));
    assert_eq!(state.get_query_from_psid(id1 + 1), None);
    let record = &state.query_store.records[0];
    assert!(!record.created.is_empty());
}

#[test]
fn app_state_select_and_resolve() {
    let matrix = SiteMatrix {
        groups: vec![FederationGroup::Language {
            sites: vec![site("enwiki", "https://en.example.org", false, false)],
        }],
    };
    let state = AppState::new_from_config(
        config_with_groups(Some(vec![group("userA", "passA", 2)])),
        matrix,
        String::new(),
    );
    let cred = state.get_db_mutex();
    assert!(cred.user == "userA");
    assert_eq!(
        state.get_server_url_for_wiki(&"enwiki".to_string()),
        Some("https://en.example.org".to_string())
    );
    assert!(state.get_server_url_for_wiki(&"dewiki".to_string()).is_none());
}
