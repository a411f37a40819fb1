use actix_crud::document::{
    arrange_page, created_response, deleted_response, found_response, idempotent_insert, listing_response,
    next_page_header, page_ends, prev_page_header, search_pattern, update_target, updated_response, Document,
    DocumentQuery, NewDocument, PrimaryKeyQuery,
};
use actix_crud::error::{Error, ErrorKind};
use actix_crud::json::Json;
use actix_crud::response::Body;

fn json(s: &str) -> Json {
    Json::parse(s.to_string()).unwrap()
}

fn doc(pk: i64, id: &str, data: &str) -> Document {
    NewDocument { id: id.to_string(), created: 1000 + pk, data: json(data) }.stored(pk)
}

#[test]
fn json_is_checked_and_trimmed() {
    assert_eq!(json(" {\"a\": 1} ").as_str(), "{\"a\": 1}");
    assert!(Json::parse("{\"a\":".to_string()).is_none());
    assert!(Json::parse("1 2".to_string()).is_none());
    assert!(Json::parse("".to_string()).is_none());
    assert_eq!(Json::null().as_str(), "null");
    assert!(json("[1,2]").same_as(&json("[1,2]")));
    assert!(!json("[1,2]").same_as(&json("[1, 2]")));
}

#[test]
fn primary_key_query_from_parameters() {
    assert_eq!(PrimaryKeyQuery::from_parameters(Some(3), None), PrimaryKeyQuery::Above(3));
    assert_eq!(PrimaryKeyQuery::from_parameters(None, Some(4)), PrimaryKeyQuery::Below(4));
    assert_eq!(PrimaryKeyQuery::from_parameters(None, None), PrimaryKeyQuery::Latest);
}

#[test]
fn primary_key_query_statements() {
    assert_eq!(
        PrimaryKeyQuery::Above(1).statement(),
        "select pk, id, created, data from document where pk > :pk and username = :username order by pk asc limit 100"
    );
    assert_eq!(
        PrimaryKeyQuery::Below(1).statement(),
        "select pk, id, created, data from document where pk < :pk and username = :username order by pk desc limit 100"
    );
    assert_eq!(
        PrimaryKeyQuery::Latest.statement(),
        "select pk, id, created, data from document where username = :username order by pk desc limit 100"
    );
    assert_eq!(PrimaryKeyQuery::Above(5).key(), Some(5));
    assert_eq!(PrimaryKeyQuery::Below(6).key(), Some(6));
    assert_eq!(PrimaryKeyQuery::Latest.key(), None);
}

#[test]
fn listing_parameters() {
    assert_eq!(DocumentQuery::from_parameters(None, None, None), Ok(DocumentQuery::Page(PrimaryKeyQuery::Latest)));
    assert_eq!(
        DocumentQuery::from_parameters(Some("10"), None, None),
        Ok(DocumentQuery::Page(PrimaryKeyQuery::Above(10)))
    );
    assert_eq!(
        DocumentQuery::from_parameters(None, Some("-3"), None),
        Ok(DocumentQuery::Page(PrimaryKeyQuery::Below(-3)))
    );
    // a key that is not a number counts as absent
    assert_eq!(
        DocumentQuery::from_parameters(Some("x"), Some("5"), None),
        Ok(DocumentQuery::Page(PrimaryKeyQuery::Below(5)))
    );
    assert_eq!(
        DocumentQuery::from_parameters(Some("1"), Some("5"), None),
        Err(Error { kind: ErrorKind::BadRequest, message: "both above_pk and below_pk are not allowed".to_string() })
    );
    assert_eq!(
        DocumentQuery::from_parameters(Some("1"), Some("5"), Some("cat")).unwrap_err().kind,
        ErrorKind::BadRequest
    );
}

#[test]
fn listing_search_parameters() {
    assert_eq!(
        DocumentQuery::from_parameters(None, None, Some("cat")),
        Ok(DocumentQuery::Matching { below_pk: i64::MAX, pattern: "%cat%".to_string() })
    );
    assert_eq!(
        DocumentQuery::from_parameters(None, Some("20"), Some("")),
        Ok(DocumentQuery::Matching { below_pk: 20, pattern: "%%".to_string() })
    );
    // above_pk plays no part in a search
    assert_eq!(
        DocumentQuery::from_parameters(Some("3"), None, Some("dog")),
        Ok(DocumentQuery::Matching { below_pk: i64::MAX, pattern: "%dog%".to_string() })
    );
    assert_eq!(search_pattern("a b"), "%a b%");
}

#[test]
fn pages_above_a_key_are_reversed() {
    let ascending = vec![doc(1, "a", "1"), doc(2, "b", "2"), doc(3, "c", "3")];
    let arranged = arrange_page(&PrimaryKeyQuery::Above(0), ascending.clone());
    assert_eq!(arranged.iter().map(|d| d.pk).collect::<Vec<_>>(), vec![3, 2, 1]);
    let same = arrange_page(&PrimaryKeyQuery::Below(9), ascending.clone());
    assert_eq!(same, ascending);
    assert_eq!(arrange_page(&PrimaryKeyQuery::Latest, vec![]), vec![]);
    assert_eq!(arrange_page(&PrimaryKeyQuery::Above(1), vec![]), vec![]);
}

#[test]
fn page_links() {
    assert_eq!(
        next_page_header(17, 3),
        Some(("Link-Next".to_string(), "/document?below_pk=17".to_string()))
    );
    assert_eq!(next_page_header(17, 0), None);
    assert_eq!(
        prev_page_header(-2, 1),
        Some(("Link-Prev".to_string(), "/document?above_pk=-2".to_string()))
    );
    assert_eq!(prev_page_header(5, 0), None);
    let page = vec![doc(9, "a", "1"), doc(7, "b", "2")];
    assert_eq!(page_ends(&page), Some((9, 7)));
    assert_eq!(page_ends(&vec![]), None);
}

#[test]
fn following_a_page_link_lists_the_next_page() {
    let (_, link) = next_page_header(42, 1).unwrap();
    let value = link.strip_prefix("/document?below_pk=").unwrap();
    assert_eq!(
        DocumentQuery::from_parameters(None, Some(value), None),
        Ok(DocumentQuery::Page(PrimaryKeyQuery::Below(42)))
    );
    let (_, link) = prev_page_header(i64::MIN, 1).unwrap();
    let value = link.strip_prefix("/document?above_pk=").unwrap();
    assert_eq!(
        DocumentQuery::from_parameters(Some(value), None, None),
        Ok(DocumentQuery::Page(PrimaryKeyQuery::Above(i64::MIN)))
    );
}

#[test]
fn listing_answer() {
    let entries = vec![doc(2, "b", "2")];
    let r = listing_response(entries.clone(), next_page_header(2, 1), prev_page_header(2, 4));
    assert_eq!(r.status, 200);
    assert_eq!(
        r.headers,
        vec![
            ("Link-Next".to_string(), "/document?below_pk=2".to_string()),
            ("Link-Prev".to_string(), "/document?above_pk=2".to_string())
        ]
    );
    assert_eq!(r.body, Body::Documents(entries.clone()));
    let r = listing_response(entries, None, prev_page_header(2, 4));
    assert_eq!(r.headers, vec![("Link-Prev".to_string(), "/document?above_pk=2".to_string())]);
}

#[test]
fn new_documents() {
    let d = NewDocument::with_id("my-id".to_string(), json("{}"));
    assert_eq!(d.id, "my-id");
    assert_eq!(d.data.as_str(), "{}");
    let before = chrono::Utc::now().timestamp();
    let stored = NewDocument::with_id("x".to_string(), json("1")).stored(12);
    assert!(stored.created >= before - 1);
    assert_eq!(stored.pk, 12);
    let fresh = NewDocument::with_new_id(json("2"));
    assert_eq!(fresh.id.len(), 36);
    assert!(uuid::Uuid::parse_str(&fresh.id).is_ok());
    assert_ne!(fresh.id, NewDocument::with_new_id(json("2")).id);
}

#[test]
fn updated_documents_keep_their_identity() {
    let old = doc(5, "id5", "{\"v\":1}");
    let new = old.clone().with_data(json("{\"v\":2}"));
    assert_eq!((new.pk, new.id.as_str(), new.created), (old.pk, old.id.as_str(), old.created));
    assert_eq!(new.data.as_str(), "{\"v\":2}");
    let bare = Document::without_data(5, "id5".to_string(), 1005);
    assert_eq!(bare.data.as_str(), "null");
}

#[test]
fn update_needs_a_stored_document() {
    let d = doc(1, "abc", "1");
    assert_eq!(update_target("abc", Some(d.clone())), Ok(d));
    assert_eq!(
        update_target("abc", None),
        Err(Error { kind: ErrorKind::NotFound, message: "abc not found".to_string() })
    );
    assert_eq!(updated_response().body, Body::Text("updated".to_string()));
}

#[test]
fn idempotent_inserts() {
    let d = doc(1, "abc", "{\"x\":1}");
    assert_eq!(idempotent_insert("abc", None, &json("{\"x\":1}")), Ok(None));
    assert_eq!(idempotent_insert("abc", Some(d.clone()), &json("{\"x\":1}")), Ok(Some(d.clone())));
    assert_eq!(
        idempotent_insert("abc", Some(d), &json("{\"x\":2}")),
        Err(Error { kind: ErrorKind::Conflict, message: "abc already exists and data is not the same".to_string() })
    );
}

#[test]
fn document_answers() {
    let d = doc(1, "abc", "1");
    let r = created_response(d.clone());
    assert_eq!((r.status, r.body.clone()), (201, Body::Document(d.clone())));
    assert!(r.headers.is_empty());
    assert_eq!(found_response(d.clone()).status, 200);
    let r = deleted_response(true);
    assert_eq!((r.status, r.body), (200, Body::Text("deleted".to_string())));
    let r = deleted_response(false);
    assert_eq!((r.status, r.body), (404, Body::Text("not found".to_string())));
}
