use ankiconnect::endpoints::request::Request;
use ankiconnect::endpoints::{
    AddTags, DeckNames, DeleteDecks, GetCollectionStatsHtml, GetEaseFactors, GuiBrowse,
    GuiBrowseBuilder, GuiImportFile, InsertReviews,
};
use ankiconnect::json::Json;
use ankiconnect::models::card_review::{CardReview, CardReviewWithoutCardId};
use ankiconnect::models::{BrowserColumn, Order};

fn obj(pairs: Vec<(&str, Json)>) -> Json {
    Json::Object(pairs.into_iter().map(|(k, v)| (k.to_string(), v)).collect())
}

#[test]
fn serialize_note_creation() {
    let value = BrowserColumn::NoteCreation;
    assert_eq!(value.to_json(), Json::Text("noteCrt".to_string()));
}

#[test]
fn serialize_ascending() {
    let value = Order::Ascending;
    assert_eq!(value.to_json(), Json::Text("ascending".to_string()));
}

#[test]
fn serialize_descending() {
    let value = Order::Descending;
    assert_eq!(value.to_json(), Json::Text("descending".to_string()));
}

#[test]
fn get_ease_factors_params() {
    let request = GetEaseFactors::new(vec![3, 1]);
    assert_eq!(request.get_action(), "getEaseFactors");
    assert_eq!(request.get_version(), 6);
    let params = request.get_params().unwrap();
    assert_eq!(
        params,
        obj(vec![(
            "cards",
            Json::Array(vec![Json::Num("3".to_string()), Json::Num("1".to_string())])
        )])
    );
}

#[test]
fn unit_actions_send_no_params() {
    let request = DeckNames;
    assert_eq!(request.get_action(), "deckNames");
    assert!(request.get_params().is_none());
}

#[test]
fn get_decks_default_asks_for_no_cards() {
    let request = ankiconnect::endpoints::GetDecks::default();
    assert_eq!(request.get_action(), "getDecks");
    assert_eq!(
        request.get_params().unwrap(),
        obj(vec![("cards", Json::Array(vec![]))])
    );
}

#[test]
fn with_query_replaces_the_query() {
    let options = ankiconnect::endpoints::GuiBrowseOptions::query("old".to_string())
        .with_query("new".to_string());
    assert_eq!(options.query, Some("new".to_string()));
    assert!(options.reorder_cards.is_none());
}

#[test]
fn delete_decks_single() {
    let request = DeleteDecks::single("Default".to_string());
    let params = request.get_params().unwrap();
    assert_eq!(
        params,
        obj(vec![("decks", Json::Array(vec![Json::Text("Default".to_string())]))])
    );
}

#[test]
fn add_tags_params() {
    let request = AddTags::new(vec![10, 20], "leech review".to_string());
    let params = request.get_params().unwrap();
    assert_eq!(
        params,
        obj(vec![
            (
                "notes",
                Json::Array(vec![Json::Num("10".to_string()), Json::Num("20".to_string())])
            ),
            ("tags", Json::Text("leech review".to_string())),
        ])
    );
}

#[test]
fn collection_stats_params_only_when_set() {
    assert!(GetCollectionStatsHtml::new(None).get_params().is_none());
    let request = GetCollectionStatsHtml::new(Some(true));
    assert_eq!(
        request.get_params().unwrap(),
        obj(vec![("wholeCollection", Json::Bool(true))])
    );
}

#[test]
fn gui_import_file_params_only_when_path_set() {
    let without = GuiImportFile { path: None };
    assert!(without.get_params().is_none());
    let with = GuiImportFile { path: Some("/tmp/deck.apkg".to_string()) };
    assert_eq!(
        with.get_params().unwrap(),
        obj(vec![("path", Json::Text("/tmp/deck.apkg".to_string()))])
    );
}

#[test]
fn browse_builder_empty_builds_no_options() {
    let request = GuiBrowseBuilder::new().build();
    assert!(request.options.is_none());
    assert!(request.get_params().is_none());
}

#[test]
fn browse_builder_query_only() {
    let request = GuiBrowse::builder().query("is:due".to_string()).build();
    let options = request.options.clone().unwrap();
    assert_eq!(options.query, Some("is:due".to_string()));
    assert!(options.reorder_cards.is_none());
    assert_eq!(
        request.get_params().unwrap(),
        obj(vec![("query", Json::Text("is:due".to_string()))])
    );
}

#[test]
fn browse_builder_order_and_column() {
    let request = GuiBrowse::builder()
        .ascending()
        .column(BrowserColumn::NoteCreation)
        .build();
    let params = request.get_params().unwrap();
    assert_eq!(
        params,
        obj(vec![(
            "reorderCards",
            obj(vec![
                ("order", Json::Text("ascending".to_string())),
                ("columnId", Json::Text("noteCrt".to_string())),
            ])
        )])
    );
}

#[test]
fn card_review_tuple_round_trip() {
    let review = CardReview {
        id: 1651339382994,
        card_id: 1650953679220,
        usn: -1,
        ease: 3,
        new_interval: 2,
        last_interval: -60,
        new_factor: 2500,
        review_duration: 11591,
        review_type: 0,
    };
    let tuple = review.as_tuple();
    assert_eq!(
        tuple,
        (1651339382994, 1650953679220, -1, 3, 2, -60, 2500, 11591, 0)
    );
    assert_eq!(CardReview::from_tuple(&tuple), review);
}

#[test]
fn with_card_id_fills_in_the_card() {
    let without = CardReviewWithoutCardId {
        id: 5,
        usn: -1,
        ease: 2,
        new_interval: 1,
        last_interval: -600,
        new_factor: 0,
        review_duration: 500,
        review_type: 0,
    };
    let review = without.with_card_id(77);
    assert_eq!(review.card_id, 77);
    assert_eq!(review.id, 5);
    assert_eq!(review.last_interval, -600);
}

#[test]
fn dropping_the_card_id_keeps_the_rest() {
    let review = CardReview {
        id: 9,
        card_id: 70,
        usn: -1,
        ease: 2,
        new_interval: 1,
        last_interval: -600,
        new_factor: 0,
        review_duration: 500,
        review_type: 1,
    };
    let without = CardReviewWithoutCardId::from(review);
    assert_eq!(without.id, 9);
    assert_eq!(without.review_type, 1);
    assert_eq!(without.with_card_id(70), review);
}

#[test]
fn insert_reviews_serializes_tuples_as_arrays() {
    let review = CardReview {
        id: 2,
        card_id: 3,
        usn: -1,
        ease: 4,
        new_interval: 5,
        last_interval: -6,
        new_factor: 7,
        review_duration: 8,
        review_type: 9,
    };
    let request = InsertReviews::new_from(&vec![review]);
    let params = request.get_params().unwrap();
    let expected_row = Json::Array(vec![
        Json::Num("2".to_string()),
        Json::Num("3".to_string()),
        Json::Num("-1".to_string()),
        Json::Num("4".to_string()),
        Json::Num("5".to_string()),
        Json::Num("-6".to_string()),
        Json::Num("7".to_string()),
        Json::Num("8".to_string()),
        Json::Num("9".to_string()),
    ]);
    assert_eq!(params, obj(vec![("reviews", Json::Array(vec![expected_row]))]));
}
