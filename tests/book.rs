use bilibilicomic_download::book::Book;
use bilibilicomic_download::chapter::Chapter;
use bilibilicomic_download::json::Json;
use bilibilicomic_download::response::{book_from_json, parse_book};
use bilibilicomic_download::ComicError;

#[test]
fn book_it_works() {}

fn feed_of(ids: &[u32]) -> Vec<Chapter> {
    ids.iter()
        .map(|&i| Chapter::new(i, (i - 99).to_string(), format!("Ep{}", i - 99), false))
        .collect()
}

#[test]
fn end_to_end_catalog_is_oldest_first() {
    let body = r#"{"code":0,"data":{"title":"Some Comic","total":2,"ep_list":[
        {"id":100,"ord":"1","title":"Ep1","is_locked":false},
        {"id":101,"ord":"2","title":"Ep2","is_locked":false}]}}"#;
    let book = parse_book(42, body).unwrap();
    assert_eq!(book.id(), 42);
    assert_eq!(book.name(), "Some Comic");
    assert_eq!(book.get_total(), 2);
    assert_eq!(book.get_chapter(0).get_id(), 101);
    assert_eq!(book.get_chapter(0).get_title(), "Ep2");
    assert_eq!(book.get_chapter(0).get_chapter_id(), "2");
    assert!(!book.get_chapter(0).get_locked());
    assert_eq!(book.get_chapter(1).get_chapter_id(), "1");
    assert_eq!(book.get_chapter(1).get_id(), 100);
    assert_eq!(book.get_chapter(1).get_title(), "Ep1");
    assert!(!book.get_chapter(1).get_locked());
}

#[test]
fn catalog_counts_only_total_entries() {
    let book = Book::from_feed(7, "n".to_string(), 3, feed_of(&[100, 101, 102, 103, 104])).unwrap();
    assert_eq!(book.get_total(), 3);
    let ids: Vec<u32> = (0..3).map(|i| book.get_chapter(i).get_id()).collect();
    assert_eq!(ids, vec![102, 101, 100]);
}

#[test]
fn catalog_with_short_feed_fails() {
    let r = Book::from_feed(7, "n".to_string(), 4, feed_of(&[100, 101]));
    assert!(matches!(r, Err(ComicError::GetBookFailed(_))));
}

#[test]
fn empty_catalog() {
    let book = Book::from_feed(1, String::new(), 0, Vec::new()).unwrap();
    assert_eq!(book.get_total(), 0);
}

#[test]
fn catalog_reads_locked_flag() {
    let body = r#"{"data":{"title":"T","total":1,"ep_list":[
        {"id":5,"ord":3,"title":"Paid","is_locked":true}]}}"#;
    let book = parse_book(9, body).unwrap();
    assert!(book.get_chapter(0).get_locked());
}

#[test]
fn malformed_catalog_fails() {
    assert!(matches!(parse_book(1, "not json"), Err(ComicError::GetBookFailed(_))));
    assert!(matches!(parse_book(1, r#"{"data":{}}"#), Err(ComicError::GetBookFailed(_))));
    let missing_id = r#"{"data":{"title":"T","total":1,"ep_list":[
        {"ord":3,"title":"x","is_locked":true}]}}"#;
    assert!(matches!(parse_book(1, missing_id), Err(ComicError::GetBookFailed(_))));
    let too_few = r#"{"data":{"title":"T","total":2,"ep_list":[
        {"id":5,"ord":3,"title":"x","is_locked":true}]}}"#;
    assert!(matches!(parse_book(1, too_few), Err(ComicError::GetBookFailed(_))));
}

fn obj(fields: Vec<(&str, Json)>) -> Json {
    Json::Object(fields.into_iter().map(|(k, v)| (k.to_string(), v)).collect())
}

fn ep(id: u64, ord: u64, title: &str) -> Json {
    obj(vec![
        ("id", Json::Number(Some(id), id.to_string())),
        ("ord", Json::Number(Some(ord), ord.to_string())),
        ("title", Json::Str(title.to_string())),
        ("is_locked", Json::Bool(false)),
    ])
}

#[test]
fn catalog_from_decoded_document() {
    let doc = obj(vec![(
        "data",
        obj(vec![
            ("total", Json::Number(Some(2), "2".to_string())),
            ("title", Json::Str("C".to_string())),
            ("ep_list", Json::Array(vec![ep(100, 1, "Ep1"), ep(101, 2, "Ep2"), ep(102, 3, "Ep3")])),
        ]),
    )]);
    let book = book_from_json(42, &doc).unwrap();
    assert_eq!(book.get_total(), 2);
    assert_eq!(book.get_chapter(0).get_id(), 101);
    assert_eq!(book.get_chapter(1).get_id(), 100);
    assert_eq!(book.name(), "C");
}

#[test]
fn catalog_with_oversized_id_fails() {
    let doc = obj(vec![(
        "data",
        obj(vec![
            ("total", Json::Number(Some(1), "1".to_string())),
            ("title", Json::Str("C".to_string())),
            ("ep_list", Json::Array(vec![ep(1 << 40, 1, "Ep1")])),
        ]),
    )]);
    assert!(matches!(book_from_json(1, &doc), Err(ComicError::GetBookFailed(_))));
}

#[test]
fn numeric_ordinals_are_read_as_text() {
    let body = r#"{"data":{"title":"T","total":2,"ep_list":[
        {"id":7,"ord":12,"title":"B","is_locked":false},
        {"id":6,"ord":11.5,"title":"A","is_locked":false}]}}"#;
    let book = parse_book(3, body).unwrap();
    assert_eq!(book.get_chapter(0).get_chapter_id(), "11.5");
    assert_eq!(book.get_chapter(1).get_chapter_id(), "12");
    assert_eq!(book.get_chapter(1).dir_name(), "12-B");
}

#[test]
fn ordinal_of_another_kind_fails() {
    let body = r#"{"data":{"title":"T","total":1,"ep_list":[
        {"id":7,"ord":true,"title":"B","is_locked":false}]}}"#;
    assert!(matches!(parse_book(3, body), Err(ComicError::GetBookFailed(_))));
}
