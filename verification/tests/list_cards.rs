use opsml_cli::api::command_structs::ListCards;
use opsml_cli::api::error::OpsmlError;
use opsml_cli::api::list_cards::card_records;
use opsml_cli::api::list_cards::card_table;
use opsml_cli::api::list_cards::find_registry;
use opsml_cli::api::list_cards::get_registry;
use opsml_cli::api::list_cards::list_cards_output;
use opsml_cli::api::list_cards::list_request;
use opsml_cli::api::list_cards::parse_list_response;
use opsml_cli::api::list_cards::OpsmlRegistries;
use opsml_cli::api::tags::build_tags;
use opsml_cli::api::tags::StringMap;
use opsml_cli::api::types::Card;
use opsml_cli::api::types::ListCardResponse;

fn strings(items: &[&str]) -> Vec<String> {
    items.iter().map(|item| item.to_string()).collect()
}

fn test_card() -> Card {
    Card {
        name: "test".to_string(),
        team: "test".to_string(),
        date: "test".to_string(),
        user_email: "fake_email".to_string(),
        version: "1.0.0".to_string(),
        uid: "uid".to_string(),
        tags: StringMap::new(),
    }
}

#[test]
fn test_get_registry() {
    let v = vec!["data", "model", "run", "audit"];

    for name in &v {
        let regsitry: String = get_registry(name);
        let expected_registry: String = format!("OPSML_{}_REGISTRY", name.to_uppercase());
        assert_eq!(&regsitry, &expected_registry);
    }
}

#[test]
fn list_cards_test_parse_response() {
    let mut vec = Vec::new();
    let card = test_card();
    vec.push(card);

    let mock_response = ListCardResponse { cards: vec };

    let card_table = parse_list_response(&mock_response);
    assert_eq!(
        card_table,
        "┌──────┬──────┬──────┬────────────┬─────────┬─────┐\n│ name │ team │ date │ user_email │ version │ uid │\n├──────┼──────┼──────┼────────────┼─────────┼─────┤\n│ test │ test │ test │ fake_email │  1.0.0  │ uid │\n└──────┴──────┴──────┴────────────┴─────────┴─────┘"
    );
}

#[test]
fn an_empty_response_prints_the_titles_alone() {
    let table = parse_list_response(&ListCardResponse { cards: Vec::new() });
    assert_eq!(
        table,
        "┌──────┬──────┬──────┬────────────┬─────────┬─────┐\n│ name │ team │ date │ user_email │ version │ uid │\n├──────┼──────┼──────┼────────────┼─────────┼─────┤"
    );
}

#[test]
fn card_rows_keep_the_order_of_the_response() {
    let mut second = test_card();
    second.name = "other".to_string();
    second.uid = "uid2".to_string();
    let rows = card_table(&ListCardResponse { cards: vec![test_card(), second] });
    assert_eq!(rows.len(), 2);
    assert_eq!(rows[0].name, "test");
    assert_eq!(rows[0].user_email, "fake_email");
    assert_eq!(rows[0].record(), strings(&["test", "test", "test", "fake_email", "1.0.0", "uid"]));
    assert_eq!(rows[1].record(), strings(&["other", "test", "test", "fake_email", "1.0.0", "uid2"]));
}

#[test]
fn card_records_are_the_rows_as_cells() {
    let mut second = test_card();
    second.team = "other team".to_string();
    let records = card_records(&ListCardResponse { cards: vec![test_card(), second] });
    assert_eq!(
        records,
        vec![
            strings(&["test", "test", "test", "fake_email", "1.0.0", "uid"]),
            strings(&["test", "other team", "test", "fake_email", "1.0.0", "uid"]),
        ]
    );
    assert_eq!(card_records(&ListCardResponse { cards: Vec::new() }).len(), 0);
}

#[test]
fn registries_have_their_table_names() {
    assert_eq!(OpsmlRegistries::Data.as_str(), "OPSML_DATA_REGISTRY");
    assert_eq!(OpsmlRegistries::Model.as_str(), "OPSML_MODEL_REGISTRY");
    assert_eq!(OpsmlRegistries::Run.as_str(), "OPSML_RUN_REGISTRY");
    assert_eq!(OpsmlRegistries::Pipeline.as_str(), "OPSML_PIPELINE_REGISTRY");
    assert_eq!(OpsmlRegistries::Audit.as_str(), "OPSML_AUDIT_REGISTRY");
}

#[test]
fn unknown_registry_names_select_nothing() {
    assert_eq!(find_registry("data"), Some(OpsmlRegistries::Data));
    assert_eq!(find_registry("model"), Some(OpsmlRegistries::Model));
    assert_eq!(find_registry("run"), Some(OpsmlRegistries::Run));
    assert_eq!(find_registry("audit"), Some(OpsmlRegistries::Audit));
    assert_eq!(find_registry("pipeline"), None);
    assert_eq!(find_registry("Data"), None);
    assert_eq!(find_registry(""), None);
}

#[test]
fn tags_pair_names_with_values() {
    let tags = build_tags(&Some(strings(&["a", "b"])), &Some(strings(&["1", "2"])));
    assert_eq!(tags.len(), 2);
    assert_eq!(tags.get("a"), Some(&"1".to_string()));
    assert_eq!(tags.get("b"), Some(&"2".to_string()));
    assert_eq!(tags.get("c"), None);
}

#[test]
fn tags_without_values_are_empty() {
    let tags = build_tags(&Some(strings(&["a"])), &Some(Vec::new()));
    assert_eq!(tags.len(), 0);
    assert_eq!(tags.get("a"), None);
}

#[test]
fn a_lone_tag_list_is_dropped() {
    let names_only = build_tags(&Some(strings(&["a"])), &None);
    assert_eq!(names_only.len(), 0);
    let values_only = build_tags(&None, &Some(strings(&["1"])));
    assert_eq!(values_only.len(), 0);
    let neither = build_tags(&None, &None);
    assert_eq!(neither.len(), 0);
}

#[test]
fn tags_stop_at_the_shorter_list() {
    let tags = build_tags(&Some(strings(&["a", "b", "c"])), &Some(strings(&["1", "2"])));
    assert_eq!(tags.len(), 2);
    assert_eq!(tags.get("b"), Some(&"2".to_string()));
    assert_eq!(tags.get("c"), None);
    let tags = build_tags(&Some(strings(&["a"])), &Some(strings(&["1", "2", "3"])));
    assert_eq!(tags.len(), 1);
    assert_eq!(tags.get("a"), Some(&"1".to_string()));
}

#[test]
fn a_repeated_tag_keeps_its_last_value() {
    let tags = build_tags(&Some(strings(&["a", "b", "a"])), &Some(strings(&["1", "2", "3"])));
    assert_eq!(tags.len(), 2);
    assert_eq!(tags.get("a"), Some(&"3".to_string()));
    assert_eq!(tags.get("b"), Some(&"2".to_string()));
    let first = tags.entry(0);
    assert_eq!((first.0.as_str(), first.1.as_str()), ("a", "3"));
    let second = tags.entry(1);
    assert_eq!((second.0.as_str(), second.1.as_str()), ("b", "2"));
}

#[test]
fn string_map_insert_and_get() {
    let mut map = StringMap::new();
    assert_eq!(map.len(), 0);
    assert_eq!(map.get("k"), None);
    map.insert("k".to_string(), "v".to_string());
    map.insert("l".to_string(), "w".to_string());
    assert_eq!(map.len(), 2);
    assert_eq!(map.get("k"), Some(&"v".to_string()));
    map.insert("k".to_string(), "x".to_string());
    assert_eq!(map.len(), 2);
    assert_eq!(map.get("k"), Some(&"x".to_string()));
    assert_eq!(map.get("l"), Some(&"w".to_string()));
    assert_eq!(map.get(""), None);
}

#[test]
fn list_request_carries_the_filters() {
    let request = list_request(
        "model",
        Some("name"),
        None,
        Some("1.0.0"),
        None,
        Some(5),
        &Some(strings(&["a"])),
        &Some(strings(&["1"])),
        Some("2023-01-01"),
    );
    assert_eq!(request.table_name, "OPSML_MODEL_REGISTRY");
    assert_eq!(request.name, Some("name".to_string()));
    assert_eq!(request.team, None);
    assert_eq!(request.version, Some("1.0.0".to_string()));
    assert_eq!(request.uid, None);
    assert_eq!(request.limit, Some(5));
    assert_eq!(request.max_date, Some("2023-01-01".to_string()));
    let tags = request.tags.expect("the tag filter is always there");
    assert_eq!(tags.len(), 1);
    assert_eq!(tags.get("a"), Some(&"1".to_string()));
}

#[test]
fn list_request_without_tags_has_an_empty_filter() {
    let request = list_request("data", None, None, None, None, None, &None, &None, None);
    assert_eq!(request.table_name, "OPSML_DATA_REGISTRY");
    assert_eq!(request.tags.expect("the tag filter is always there").len(), 0);
}

#[test]
fn list_arguments_stand_for_their_request() {
    let args = ListCards {
        registry: "run".to_string(),
        name: None,
        team: Some("team".to_string()),
        version: None,
        uid: Some("uid".to_string()),
        limit: None,
        tag_name: Some(strings(&["a", "b"])),
        tag_value: Some(strings(&["1"])),
        max_date: None,
    };
    let request = args.request();
    assert_eq!(request.table_name, "OPSML_RUN_REGISTRY");
    assert_eq!(request.team, Some("team".to_string()));
    assert_eq!(request.uid, Some("uid".to_string()));
    assert_eq!(request.name, None);
    let tags = request.tags.expect("the tag filter is always there");
    assert_eq!(tags.len(), 1);
    assert_eq!(tags.get("a"), Some(&"1".to_string()));
}

#[test]
fn list_output_follows_status_and_body() {
    let response = ListCardResponse { cards: vec![test_card()] };
    assert_eq!(list_cards_output(200, Some(&response)), Ok(parse_list_response(&response)));
    assert_eq!(list_cards_output(201, Some(&response)), Ok(parse_list_response(&response)));
    assert_eq!(list_cards_output(200, None), Err(OpsmlError::DecodeError));
    assert_eq!(
        list_cards_output(404, Some(&response)),
        Err(OpsmlError::UnexpectedStatus { status: 404 })
    );
    assert_eq!(list_cards_output(500, None), Err(OpsmlError::UnexpectedStatus { status: 500 }));
    assert_eq!(list_cards_output(304, None), Err(OpsmlError::UnexpectedStatus { status: 304 }));
}
