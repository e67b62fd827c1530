use player_graphql::http::{
    playground, response_status, GRAPHQL_PATH, STATUS_BAD_REQUEST, STATUS_OK, SUBSCRIPTIONS_PATH,
};
use player_graphql::player::{Instrument, Player};
use player_graphql::query::{Query, Subscription};
use player_graphql::store::Context;

fn seeds() -> Vec<(&'static str, &'static str, Instrument)> {
    vec![
        ("1000", "Steve", Instrument::Guitar),
        ("1001", "Stevie", Instrument::Guitar),
        ("1002", "Jimmy", Instrument::Guitar),
        ("1003", "Eric", Instrument::Guitar),
        ("1004", "Jimi", Instrument::Guitar),
        ("1005", "Chuck", Instrument::Guitar),
        ("1006", "Eddie", Instrument::Guitar),
        ("2000", "Jerry", Instrument::Piano),
        ("2001", "Ray", Instrument::Piano),
        ("2002", "Billy", Instrument::Piano),
        ("2003", "Elton", Instrument::Piano),
    ]
}

#[test]
fn add_sums_representative_pairs() {
    assert_eq!(Query::add(2, 3), 5);
    assert_eq!(Query::add(0, 0), 0);
    assert_eq!(Query::add(0, 7), 7);
    assert_eq!(Query::add(-5, 3), -2);
    assert_eq!(Query::add(-4, -6), -10);
    assert_eq!(Query::add(i32::MAX, 0), i32::MAX);
    assert_eq!(Query::add(i32::MIN, 0), i32::MIN);
    assert_eq!(Query::add(i32::MAX, i32::MIN), -1);
}

#[test]
fn add_wraps_out_of_range_sums() {
    assert_eq!(Query::add(i32::MAX, 1), i32::MIN);
    assert_eq!(Query::add(i32::MIN, -1), i32::MAX);
    assert_eq!(Query::add(i32::MAX, i32::MAX), -2);
}

#[test]
fn hello_greets_the_world() {
    assert_eq!(Query.hello(), "Hello, World!");
    assert_eq!(Query.hello(), Query.hello());
}

#[test]
fn player_finds_each_seeded_record() {
    let context = Context::new();
    for (id, name, instrument) in seeds() {
        let p = Query::player(&context, id.to_string()).expect("seeded id");
        assert_eq!(p.id(), id);
        assert_eq!(p.name(), name);
        assert_eq!(p.instrument(), instrument);
    }
}

#[test]
fn player_steve_plays_guitar() {
    let context = Context::new();
    let p = Query::player(&context, String::from("1000")).unwrap();
    assert_eq!(p.name(), "Steve");
    assert_eq!(p.instrument(), Instrument::Guitar);
}

#[test]
fn player_unknown_id_is_absent() {
    let context = Context::new();
    assert!(Query::player(&context, String::from("9999")).is_none());
    assert!(Query::player(&context, String::new()).is_none());
    assert!(Query::player(&context, String::from("100")).is_none());
    assert!(Query::player(&context, String::from("10000")).is_none());
}

#[test]
fn players_lists_every_seed_once() {
    let context = Context::new();
    let all = Query::players(&context);
    assert_eq!(all.len(), 11);
    let mut ids: Vec<&str> = all.iter().map(|p| p.id()).collect();
    ids.sort();
    ids.dedup();
    assert_eq!(ids.len(), 11);
    let mut expected: Vec<&str> = seeds().into_iter().map(|s| s.0).collect();
    expected.sort();
    assert_eq!(ids, expected);
    for p in all {
        let found = context.get_player(p.id()).unwrap();
        assert_eq!(found.name(), p.name());
    }
}

#[test]
fn store_accessors_agree() {
    let context = Context::new();
    assert_eq!(context.get_players().len(), 11);
    let p = context.get_player("2003").unwrap();
    assert_eq!(p.name(), "Elton");
    assert_eq!(p.instrument(), Instrument::Piano);
    assert!(context.get_player("3000").is_none());
}

#[test]
fn player_new_keeps_fields() {
    let p = Player::new(String::from("7"), String::from("Nina"), Instrument::Piano);
    assert_eq!(p.id(), "7");
    assert_eq!(p.name(), "Nina");
    assert_eq!(p.instrument(), Instrument::Piano);
    assert!(p.has_id(&String::from("7")));
    assert!(!p.has_id(&String::from("8")));
}

#[test]
fn status_follows_errors() {
    assert_eq!(response_status(true), 200);
    assert_eq!(response_status(false), 400);
    assert_eq!(STATUS_OK, 200);
    assert_eq!(STATUS_BAD_REQUEST, 400);
}

#[test]
fn playground_points_at_graphql_endpoint() {
    let (status, body) = playground(GRAPHQL_PATH, Some(SUBSCRIPTIONS_PATH));
    assert_eq!(status, 200);
    assert!(body.contains("/graphql"));
    assert!(body.contains("/subscriptions"));
    assert!(body.len() > GRAPHQL_PATH.len());
    assert!(!body.contains("JUNIPER_URL"));
}

#[test]
fn playground_without_subscriptions_endpoint() {
    let (status, body) = playground("/api", None);
    assert_eq!(status, 200);
    assert!(body.contains("/api"));
    assert_ne!(body, "/api");
}

#[test]
fn subscription_root_is_a_unit() {
    let s = Subscription;
    let _copy = s;
    let _again = s;
}
