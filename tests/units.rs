use game_server_registry::ids::parse_id;
use game_server_registry::json::JsonValue;
use game_server_registry::models::{
    GameServer, MissingField, NewGameServer, PatchError, Region, UpdatedGameServer,
};
use game_server_registry::regions::{regions_allowed, AllowedRegion};
use game_server_registry::render::{
    region_added_message, render_region, render_regions, render_server, render_servers,
    server_added_message, unknown_regions_message, update_done_message,
};
use game_server_registry::then_impl::Then;

fn text(s: &str) -> JsonValue {
    JsonValue::Str(s.to_string())
}

fn object(members: Vec<(&str, JsonValue)>) -> JsonValue {
    JsonValue::Object(members.into_iter().map(|(k, v)| (k.to_string(), v)).collect())
}

fn names(items: &[&str]) -> Vec<String> {
    items.iter().map(|s| s.to_string()).collect()
}

fn server() -> GameServer {
    GameServer {
        id: -4,
        name: "a\"b".to_string(),
        region: "eu\\west".to_string(),
        game_type: "line\nbreak".to_string(),
        ip: "::1".to_string(),
        max_users: 2147483647,
        current_users: 0,
        current_premium_users: Some(-2147483648),
        max_premium_users: None,
        tags: names(&["x", "y\tz"]),
    }
}

fn known() -> Vec<Region> {
    vec![
        Region { id: 1, name: "us-east".to_string() },
        Region { id: 2, name: "eu-west".to_string() },
    ]
}

#[test]
fn id_parsing() {
    assert_eq!(parse_id("1"), Some(1));
    assert_eq!(parse_id("+5"), Some(5));
    assert_eq!(parse_id("-7"), Some(-7));
    assert_eq!(parse_id("007"), Some(7));
    assert_eq!(parse_id("2147483647"), Some(2147483647));
    assert_eq!(parse_id("-2147483648"), Some(-2147483648));
    assert_eq!(parse_id("2147483648"), None);
    assert_eq!(parse_id("-2147483649"), None);
    assert_eq!(parse_id("123456789012345678901234567890"), None);
    assert_eq!(parse_id(""), None);
    assert_eq!(parse_id("-"), None);
    assert_eq!(parse_id("+"), None);
    assert_eq!(parse_id("12a"), None);
    assert_eq!(parse_id(" 1"), None);
    assert_eq!(parse_id("--1"), None);
    assert_eq!(parse_id("١"), None);
}

#[test]
fn json_member_lookup() {
    let body = object(vec![("a", JsonValue::Int(1)), ("b", text("x")), ("a", JsonValue::Int(2))]);
    assert_eq!(body.find("a"), Some(&JsonValue::Int(1)));
    assert_eq!(body.find("b"), Some(&text("x")));
    assert_eq!(body.find("c"), None);
    assert_eq!(JsonValue::Array(vec![]).find("a"), None);
    assert!(body.has("b"));
    assert!(!body.has("z"));
}

#[test]
fn json_integer_bounds() {
    assert_eq!(JsonValue::Int(2147483647).as_i32(), Some(2147483647));
    assert_eq!(JsonValue::Int(-2147483648).as_i32(), Some(-2147483648));
    assert_eq!(JsonValue::Int(2147483648).as_i32(), None);
    assert_eq!(JsonValue::Int(-2147483649).as_i32(), None);
    assert_eq!(JsonValue::UInt(2147483647).as_i32(), Some(2147483647));
    assert_eq!(JsonValue::UInt(u64::MAX).as_i32(), None);
    assert_eq!(JsonValue::NonInteger.as_i32(), None);
    assert_eq!(text("12").as_i32(), None);
}

#[test]
fn json_texts() {
    assert_eq!(JsonValue::Array(vec![text("a"), text("b")]).as_texts(), Some(names(&["a", "b"])));
    assert_eq!(JsonValue::Array(vec![]).as_texts(), Some(vec![]));
    assert_eq!(JsonValue::Array(vec![text("a"), JsonValue::Null]).as_texts(), None);
    assert_eq!(text("a").as_texts(), None);
    assert_eq!(text("a").as_text(), Some("a".to_string()));
    assert_eq!(JsonValue::Bool(false).as_text(), None);
}

#[test]
fn registration_reports_first_missing_field() {
    let body = object(vec![("name", text("n")), ("region", text("r"))]);
    assert_eq!(NewGameServer::from_json(&body), Err(MissingField::GameType));
    assert_eq!(NewGameServer::from_json(&object(vec![])), Err(MissingField::Name));
    let body = object(vec![
        ("name", text("n")),
        ("region", text("r")),
        ("game_type", text("g")),
        ("ip", text("i")),
        ("max_users", JsonValue::Int(1)),
        ("tags", JsonValue::Null),
    ]);
    assert_eq!(NewGameServer::from_json(&body), Err(MissingField::Tags));
    let full = |skip: &str| {
        let members = vec![
            ("name", text("n")),
            ("region", text("r")),
            ("game_type", text("g")),
            ("ip", text("i")),
            ("max_users", JsonValue::Int(1)),
            ("tags", JsonValue::Array(vec![])),
        ];
        object(members.into_iter().filter(|(k, _)| *k != skip).collect())
    };
    assert_eq!(NewGameServer::from_json(&full("region")), Err(MissingField::Region));
    assert_eq!(NewGameServer::from_json(&full("ip")), Err(MissingField::Ip));
    assert_eq!(NewGameServer::from_json(&full("max_users")), Err(MissingField::MaxUsers));
    let n = NewGameServer::from_json(&full("")).unwrap();
    assert_eq!(n.tags, Vec::<String>::new());
    assert_eq!(n.max_premium_users, None);
}

#[test]
fn change_reading() {
    let body = object(vec![
        ("region", text("eu-west")),
        ("ip", JsonValue::Null),
        ("max_users", JsonValue::Int(-1)),
        ("tags", JsonValue::Array(vec![])),
    ]);
    let u = UpdatedGameServer::from_json(&body).unwrap();
    assert_eq!(u.region, Some("eu-west".to_string()));
    assert_eq!(u.ip, None);
    assert_eq!(u.max_users, Some(-1));
    assert_eq!(u.tags, Some(vec![]));
    assert_eq!(u.name, None);
    let bad = object(vec![("tags", JsonValue::Array(vec![JsonValue::Int(1)]))]);
    assert_eq!(UpdatedGameServer::from_json(&bad), Err(PatchError::TagsNotStrings));
}

#[test]
fn default_change_is_empty() {
    let u = UpdatedGameServer::default();
    assert_eq!(
        u,
        UpdatedGameServer {
            name: None,
            region: None,
            game_type: None,
            ip: None,
            max_users: None,
            max_premium_users: None,
            tags: None,
        }
    );
    let mut s = server();
    s.update(u);
    assert_eq!(s, server());
}

#[test]
fn merge_replaces_given_fields_only() {
    let mut s = server();
    s.update(UpdatedGameServer {
        name: Some("n".to_string()),
        region: None,
        game_type: Some("g".to_string()),
        ip: None,
        max_users: Some(3),
        max_premium_users: Some(2),
        tags: Some(vec![]),
    });
    let mut expected = server();
    expected.name = "n".to_string();
    expected.game_type = "g".to_string();
    expected.max_users = 3;
    expected.max_premium_users = Some(2);
    expected.tags = vec![];
    assert_eq!(s, expected);
}

#[test]
fn merge_replaces_tags_exactly() {
    let mut s = server();
    s.update(UpdatedGameServer { tags: Some(names(&["b", "a", "b"])), ..UpdatedGameServer::default() });
    assert_eq!(s.tags, names(&["b", "a", "b"]));
}

#[test]
fn region_check_success() {
    assert!(matches!(regions_allowed(Some(&known()), &names(&["us-east"])), AllowedRegion::Success));
    assert!(matches!(regions_allowed(Some(&known()), &names(&[])), AllowedRegion::Success));
    assert!(matches!(regions_allowed(Some(&vec![]), &names(&[])), AllowedRegion::Success));
}

#[test]
fn region_check_failure_collapses_duplicates() {
    match regions_allowed(Some(&known()), &names(&["mars", "us-east", "venus", "mars"])) {
        AllowedRegion::Failure(failed) => assert_eq!(failed, names(&["mars", "venus"])),
        other => panic!("unexpected {:?}", other),
    }
    match regions_allowed(Some(&vec![]), &names(&["us-east"])) {
        AllowedRegion::Failure(failed) => assert_eq!(failed, names(&["us-east"])),
        other => panic!("unexpected {:?}", other),
    }
}

#[test]
fn region_check_is_case_sensitive() {
    match regions_allowed(Some(&known()), &names(&["US-EAST"])) {
        AllowedRegion::Failure(failed) => assert_eq!(failed, names(&["US-EAST"])),
        other => panic!("unexpected {:?}", other),
    }
}

#[test]
fn region_check_without_regions_panics() {
    assert!(matches!(regions_allowed(None, &names(&["us-east"])), AllowedRegion::Panic));
    assert!(matches!(regions_allowed(None, &names(&[])), AllowedRegion::Panic));
}

#[test]
fn server_json_escapes_strings() {
    assert_eq!(
        render_server(&server()),
        "{\"id\":-4,\"name\":\"a\\\"b\",\"region\":\"eu\\\\west\",\"game_type\":\"line\\nbreak\",\"ip\":\"::1\",\"max_users\":2147483647,\"current_users\":0,\"current_premium_users\":-2147483648,\"max_premium_users\":null,\"tags\":[\"x\",\"y\\tz\"]}"
    );
}

#[test]
fn region_json() {
    assert_eq!(render_region(&Region { id: 12, name: "ap-south".to_string() }), "{\"id\":12,\"name\":\"ap-south\"}");
}

#[test]
fn envelope_size_counts_rows() {
    let rows = vec![server(), server()];
    let one = render_server(&server());
    assert_eq!(render_servers(&rows), format!("{{\"results\": [{},{}], \"size\": 2}}", one, one));
    let regions: Vec<Region> = (0..12).map(|i| Region { id: i, name: format!("r{}", i) }).collect();
    let listed = render_regions(&regions);
    assert!(listed.ends_with(", \"size\": 12}"));
    assert!(listed.starts_with("{\"results\": [{\"id\":0,\"name\":\"r0\"},{\"id\":1,"));
}

#[test]
fn messages() {
    assert_eq!(server_added_message("alpha"), "\"server `alpha` added!\"");
    assert_eq!(region_added_message("us-east"), "\"Region `us-east` added to DB!\"");
    assert_eq!(update_done_message(), "\"Update of server was successful\"");
    assert_eq!(
        unknown_regions_message(&names(&["mars", "a\"b"])),
        "\"Regions `{\"mars\", \"a\\\"b\"}` do not exist in the Database!\""
    );
}

#[test]
fn then_on_option_and_result() {
    assert_eq!(Some(3).then_apply(|x| x + 1), Some(4));
    assert_eq!(None::<i32>.then_apply(|x| x + 1), None);
    let ok: Result<i32, ()> = Ok(2);
    assert_eq!(ok.then_apply(|x| x * 10), Some(20));
    let err: Result<i32, ()> = Err(());
    assert_eq!(err.then_apply(|x| x * 10), None);
    let mut seen = Vec::new();
    Some("v").then_apply(|v| seen.push(v));
    assert_eq!(seen, vec!["v"]);
}
