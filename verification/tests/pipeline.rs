use forvo::anki::{anki_request, anki_response_result, store_media_params};
use forvo::config::Config;
use forvo::download::{audio_file_name, audio_target_path, check_status, TransferError};
use forvo::json::JsonValue;
use forvo::{
    create_forvo_url, find_highest_score, parse_pronunciation_item, parse_pronunciations,
    strip_acute, Pronunciation,
};

fn field(key: &str, value: JsonValue) -> (String, JsonValue) {
    (String::from(key), value)
}

fn sample_item(id: i64, hits: i64, username: &str, pathmp3: &str, votes: i64) -> JsonValue {
    JsonValue::Obj(vec![
        field("id", JsonValue::Int(id)),
        field("hits", JsonValue::Int(hits)),
        field("username", JsonValue::Str(String::from(username))),
        field("pathmp3", JsonValue::Str(String::from(pathmp3))),
        field("num_positive_votes", JsonValue::Int(votes)),
    ])
}

fn record(id: i32, hits: i32, username: &str, pathmp3: &str, votes: i32) -> Pronunciation {
    Pronunciation::new(id, hits, String::from(username), String::from(pathmp3), votes)
}

#[test]
fn test_remove_syllabic_stress() {
    let actual = strip_acute("многоба́йтовый");
    let expected = "многобайтовый";
    assert_eq!(actual, expected);
}

#[test]
fn strip_acute_is_idempotent_on_example() {
    let once = strip_acute("многоба́йтовый");
    let twice = strip_acute(&once);
    assert_eq!(once, twice);
}

#[test]
fn strip_acute_keeps_plain_text() {
    assert_eq!(strip_acute(""), "");
    assert_eq!(strip_acute("dog"), "dog");
}

#[test]
fn test_create_forvo_url() {
    let api_key = "test_api_key";
    let word = "собака";
    let expected: &str = "https://apifree.forvo.com/key/test_api_key/format/json/action/word-pronunciations/word/собака/language/ru";
    let actual = create_forvo_url(api_key, word);
    assert_eq!(actual, expected);
}

#[test]
fn test_parse_pronunciation_item() {
    let json_item = sample_item(123, 50, "1640max", "http://example.com/pronunciation.mp3", 5);

    let expected = Pronunciation {
        id: 123,
        hits: 50,
        username: "1640max".to_string(),
        pathmp3: "http://example.com/pronunciation.mp3".to_string(),
        num_positive_votes: 5,
        score: 7, // 5 votes + 2 bonus
    };

    let actual = parse_pronunciation_item(&json_item);
    assert_eq!(actual, expected);
}

#[test]
fn test_parse_pronunciations() {
    let json_data = JsonValue::Obj(vec![field(
        "items",
        JsonValue::Arr(vec![
            sample_item(123, 50, "1640max", "http://example.com/pronunciation.mp3", 5),
            sample_item(456, 30, "another_user", "http://example.com/another_pronunciation.mp3", 3),
        ]),
    )]);

    let expected = vec![
        Pronunciation {
            id: 123,
            hits: 50,
            username: "1640max".to_string(),
            pathmp3: "http://example.com/pronunciation.mp3".to_string(),
            num_positive_votes: 5,
            score: 7, // 5 votes + 2 bonus
        },
        Pronunciation {
            id: 456,
            hits: 30,
            username: "another_user".to_string(),
            pathmp3: "http://example.com/another_pronunciation.mp3".to_string(),
            num_positive_votes: 3,
            score: 3, // 3 votes, no bonus
        },
    ];

    let actual = parse_pronunciations(&json_data);
    assert_eq!(actual, expected);
}

#[test]
fn test_pronunciation_new() {
    let id = 123;
    let hits = 50;
    let username = "1640max".to_string();
    let pathmp3 = "http://example.com/pronunciation.mp3".to_string();
    let num_positive_votes = 5;

    let pronunciation = Pronunciation::new(id, hits, username, pathmp3, num_positive_votes);

    assert_eq!(pronunciation.score, 7); // 5 votes + 2 bonus
}

#[test]
fn score_has_no_bonus_off_the_allow_list() {
    let p = record(1, 0, "another_user", "http://example.com/a.mp3", 3);
    assert_eq!(p.score, 3);
}

#[test]
fn parse_defaults_missing_and_mistyped_fields() {
    let item = JsonValue::Obj(vec![
        field("id", JsonValue::Str(String::from("123"))),
        field("username", JsonValue::Int(9)),
    ]);
    let p = parse_pronunciation_item(&item);
    assert_eq!(p.id, 0);
    assert_eq!(p.hits, 0);
    assert_eq!(p.username, "");
    assert_eq!(p.pathmp3, "");
    assert_eq!(p.num_positive_votes, 0);
    assert_eq!(p.score, 0);
}

#[test]
fn parse_without_items_yields_nothing() {
    let empty_doc = JsonValue::Obj(vec![]);
    assert_eq!(parse_pronunciations(&empty_doc).len(), 0);
    let not_an_array = JsonValue::Obj(vec![field("items", JsonValue::Int(3))]);
    assert_eq!(parse_pronunciations(&not_an_array).len(), 0);
}

#[test]
fn selector_picks_the_highest_score() {
    let records = vec![
        record(1, 0, "1640max", "http://example.com/a.mp3", 5),
        record(2, 0, "another_user", "http://example.com/b.mp3", 3),
    ];
    let best = find_highest_score(&records).expect("a candidate");
    assert_eq!(best.id, 1);
    assert_eq!(best.score, 7);
}

#[test]
fn selector_keeps_the_first_of_a_tie() {
    let records = vec![
        record(1, 0, "user_one", "http://example.com/a.mp3", 5),
        record(2, 0, "user_two", "http://example.com/b.mp3", 5),
        record(3, 0, "user_three", "http://example.com/c.mp3", 3),
    ];
    let best = find_highest_score(&records).expect("a candidate");
    assert_eq!(best.id, 1);
}

#[test]
fn selector_finds_nothing_in_an_empty_sequence() {
    let records: Vec<Pronunciation> = vec![];
    assert!(find_highest_score(&records).is_none());
}

#[test]
fn audio_names_and_paths() {
    assert_eq!(audio_file_name("собака"), "собака.mp3");
    assert_eq!(audio_target_path("/tmp/audio", "собака"), "/tmp/audio/собака.mp3");
    assert_eq!(audio_target_path("/tmp/audio/", "собака"), "/tmp/audio/собака.mp3");
    assert_eq!(audio_target_path("", "word"), "word.mp3");
}

#[test]
fn status_check_accepts_success_only() {
    assert!(check_status(200).is_ok());
    assert!(check_status(204).is_ok());
    assert!(check_status(299).is_ok());
    match check_status(404) {
        Err(TransferError::Status(code)) => assert_eq!(code, 404),
        _ => panic!("a 404 status must fail"),
    }
    assert!(check_status(301).is_err());
    assert!(check_status(199).is_err());
}

#[test]
fn transfer_error_messages_name_the_cause() {
    let status_err = TransferError::Status(404);
    assert_eq!(status_err.message(), "Failed to download file: status 404");
    let io_err = TransferError::Io(String::from("connection reset"));
    assert_eq!(io_err.message(), "Failed to download file: connection reset");
}

#[test]
fn anki_request_carries_the_envelope() {
    let request = anki_request("storeMediaFile", JsonValue::Null);
    assert_eq!(request.i64_at("version"), 6);
    assert_eq!(request.str_at("action"), "storeMediaFile");
    assert!(matches!(request.get("params"), Some(JsonValue::Null)));
}

#[test]
fn store_media_params_carry_name_and_path() {
    let params = store_media_params("собака.mp3", "/tmp/audio/собака.mp3");
    assert_eq!(params.str_at("filename"), "собака.mp3");
    assert_eq!(params.str_at("path"), "/tmp/audio/собака.mp3");
}

#[test]
fn anki_response_error_text_fails() {
    let resp = JsonValue::Obj(vec![
        field("error", JsonValue::Str(String::from("collection not found"))),
        field("result", JsonValue::Null),
    ]);
    match anki_response_result(resp) {
        Err(message) => assert_eq!(message, "Error from AnkiConnect: collection not found"),
        Ok(_) => panic!("a non-empty error must fail"),
    }
}

#[test]
fn anki_response_result_is_handed_back() {
    let resp = JsonValue::Obj(vec![
        field("error", JsonValue::Str(String::new())),
        field("result", JsonValue::Int(42)),
    ]);
    assert!(matches!(anki_response_result(resp), Ok(JsonValue::Int(42))));
    let bare = JsonValue::Obj(vec![]);
    assert!(matches!(anki_response_result(bare), Ok(JsonValue::Null)));
}

#[test]
fn default_config_is_all_empty() {
    let config = Config::default();
    assert!(config.api_key.is_none());
    assert!(config.anki2_path.is_none());
    assert!(config.default_collection.is_none());
}
