//! Documents: JSON data that a user stores under an id, listed newest
//! first in pages of at most a hundred.

use vstd::prelude::*;
use crate::decimal::{format_i64, parse_i64, spec_int_text, spec_parse_i64};
use crate::error::{Error, ErrorKind};
use crate::ids::{new_uuid, spec_is_random_uuid, spec_uuid_text, uuid_text};
use crate::json::Json;
use crate::response::{Body, Response, spec_header, spec_text_body};

verus! {

/// A stored document: its primary key (the order of insertion), its id,
/// its creation time in seconds since the epoch, and its data.
#[derive(Clone, Debug, PartialEq, Eq)]
pub struct Document {
    pub pk: i64,
    pub id: String,
    pub created: i64,
    pub data: Json,
}

/// A document about to be stored: everything but the primary key that the
/// store will give it.
#[derive(Clone, Debug, PartialEq, Eq)]
pub struct NewDocument {
    pub id: String,
    pub created: i64,
    pub data: Json,
}

/// Calls `chrono::Utc::now().timestamp()`. Nothing is claimed of the
/// value: it is the clock's.
#[verifier::external_body]
fn now_timestamp() -> (r: i64) {
    chrono::Utc::now().timestamp()
}

impl NewDocument {
    /// A document with the given id and data, created now.
    pub fn with_id(id: String, data: Json) -> (r: NewDocument)
        ensures
            r.id == id,
            r.data == data,
    {
        let created = now_timestamp();
        Self::created_at(id, data, created)
    }

    /// A document with the given id and data, created at the given time
    /// (seconds since the epoch, as the clock reads it).
    pub fn created_at(id: String, data: Json, created: i64) -> (r: NewDocument)
        ensures
            r.id == id,
            r.data == data,
            r.created == created,
    {
        NewDocument { id, created, data }
    }

    /// A document with the given data and a fresh random UUID as its id,
    /// created now.
    pub fn with_new_id(data: Json) -> (r: NewDocument)
        ensures
            exists|u: u128| spec_is_random_uuid(u) && r.id@ == spec_uuid_text(u),
            r.data == data,
    {
        let u = new_uuid();
        let id = uuid_text(u);
        Self::with_id(id, data)
    }

    /// The document as stored under the primary key the store gave it.
    pub fn stored(self, pk: i64) -> (r: Document)
        ensures
            r.pk == pk,
            r.id == self.id,
            r.created == self.created,
            r.data == self.data,
    {
        Document { pk, id: self.id, created: self.created, data: self.data }
    }
}

impl Document {
    /// A document read without its data, which stands as `null`.
    pub fn without_data(pk: i64, id: String, created: i64) -> (r: Document)
        ensures
            r.pk == pk,
            r.id == id,
            r.created == created,
            r.data@ == "null"@,
    {
        Document { pk, id, created, data: Json::null() }
    }

    /// The document after its data is replaced: same key, id and creation
    /// time.
    pub fn with_data(self, data: Json) -> (r: Document)
        ensures
            r.pk == self.pk,
            r.id == self.id,
            r.created == self.created,
            r.data == data,
    {
        Document { pk: self.pk, id: self.id, created: self.created, data }
    }
}

/// Which page of a user's documents a listing asks for.
#[derive(Clone, Copy, Debug, PartialEq, Eq, Structural)]
pub enum PrimaryKeyQuery {
    /// The documents after the given key (newer ones).
    Above(i64),
    /// The documents before the given key (older ones).
    Below(i64),
    /// The newest documents.
    Latest,
}

pub open spec fn spec_from_parameters(above: Option<i64>, below: Option<i64>) -> PrimaryKeyQuery {
    match (above, below) {
        (Some(value), None) => PrimaryKeyQuery::Above(value),
        (None, Some(value)) => PrimaryKeyQuery::Below(value),
        _ => PrimaryKeyQuery::Latest,
    }
}

impl PrimaryKeyQuery {
    /// The page that the `above_pk` and `below_pk` parameters ask for. The
    /// two together are ambiguous and not accepted.
    pub fn from_parameters(above: Option<i64>, below: Option<i64>) -> (r: PrimaryKeyQuery)
        requires
            !(above is Some && below is Some),
        ensures
            r == spec_from_parameters(above, below),
    {
        match (above, below) {
            (Some(value), None) => PrimaryKeyQuery::Above(value),
            (None, Some(value)) => PrimaryKeyQuery::Below(value),
            _ => PrimaryKeyQuery::Latest,
        }
    }

    /// The SQL statement that reads the page: at most a hundred of the
    /// user's documents next to the key, in ascending key order for
    /// `Above` and descending otherwise.
    pub fn statement(&self) -> (r: &'static str)
        ensures
            *self matches PrimaryKeyQuery::Above(_) ==> r@ == "select pk, id, created, data from document where pk > :pk and username = :username order by pk asc limit 100"@,
            *self matches PrimaryKeyQuery::Below(_) ==> r@ == "select pk, id, created, data from document where pk < :pk and username = :username order by pk desc limit 100"@,
            *self matches PrimaryKeyQuery::Latest ==> r@ == "select pk, id, created, data from document where username = :username order by pk desc limit 100"@,
    {
        match self {
            PrimaryKeyQuery::Above(_) =>
                "select pk, id, created, data from document where pk > :pk and username = :username order by pk asc limit 100",
            PrimaryKeyQuery::Below(_) =>
                "select pk, id, created, data from document where pk < :pk and username = :username order by pk desc limit 100",
            PrimaryKeyQuery::Latest =>
                "select pk, id, created, data from document where username = :username order by pk desc limit 100",
        }
    }

    /// The key that the statement is bound to, if it takes one.
    pub fn key(&self) -> (r: Option<i64>)
        ensures
            r == (match *self {
                PrimaryKeyQuery::Above(pk) => Some(pk),
                PrimaryKeyQuery::Below(pk) => Some(pk),
                PrimaryKeyQuery::Latest => None::<i64>,
            }),
    {
        match self {
            PrimaryKeyQuery::Above(pk) => Some(*pk),
            PrimaryKeyQuery::Below(pk) => Some(*pk),
            PrimaryKeyQuery::Latest => None,
        }
    }
}

/// What a listing of documents asks for.
#[derive(Clone, Debug, PartialEq, Eq)]
pub enum DocumentQuery {
    /// The documents below a key whose data matches an SQL `like` pattern.
    Matching { below_pk: i64, pattern: String },
    /// A page of documents.
    Page(PrimaryKeyQuery),
}

/// A query parameter read as an `i64`; absent where it is absent or not a
/// number.
pub open spec fn spec_key_parameter(p: Option<Seq<char>>) -> Option<i64> {
    match p {
        Some(s) => spec_parse_i64(s),
        None => None,
    }
}

fn key_parameter(p: Option<&str>) -> (r: Option<i64>)
    ensures
        r == spec_key_parameter(match p { Some(s) => Some(s@), None => None }),
{
    match p {
        Some(s) => parse_i64(s),
        None => None,
    }
}

/// The SQL `like` pattern that matches data containing a text.
pub fn search_pattern(text: &str) -> (r: String)
    ensures
        r@ == "%"@ + text@ + "%"@,
{
    let mut r = String::from_str("%");
    r.append(text);
    r.append("%");
    r
}

impl DocumentQuery {
    /// The listing that the `above_pk`, `below_pk` and `search` parameters
    /// ask for. A key that is not a number counts as absent; both keys
    /// together are refused. A search lists the matches below `below_pk`
    /// (below every key where it is absent), whatever `above_pk` says.
    pub fn from_parameters(above_pk: Option<&str>, below_pk: Option<&str>, search: Option<&str>) -> (r: Result<DocumentQuery, Error>)
        ensures
            ({
                let above = spec_key_parameter(match above_pk { Some(s) => Some(s@), None => None });
                let below = spec_key_parameter(match below_pk { Some(s) => Some(s@), None => None });
                &&& (r is Err <==> (above is Some && below is Some))
                &&& r matches Err(e) ==> e.kind == ErrorKind::BadRequest
                    && e.message@ == "both above_pk and below_pk are not allowed"@
                &&& r matches Ok(q) ==> match search {
                    Some(text) => q matches DocumentQuery::Matching { below_pk: b, pattern }
                        && b == (match below { Some(v) => v, None => i64::MAX })
                        && pattern@ == "%"@ + text@ + "%"@,
                    None => q == DocumentQuery::Page(spec_from_parameters(above, below)),
                }
            }),
    {
        let above = key_parameter(above_pk);
        let below = key_parameter(below_pk);
        if above.is_some() && below.is_some() {
            return Err(Error::new(ErrorKind::BadRequest, "both above_pk and below_pk are not allowed"));
        }
        match search {
            Some(text) => {
                let b = match below {
                    Some(v) => v,
                    None => i64::MAX,
                };
                Ok(DocumentQuery::Matching { below_pk: b, pattern: search_pattern(text) })
            },
            None => Ok(DocumentQuery::Page(PrimaryKeyQuery::from_parameters(above, below))),
        }
    }
}

pub open spec fn spec_arranged(query: PrimaryKeyQuery, entries: Seq<Document>) -> Seq<Document> {
    if query is Above {
        entries.reverse()
    } else {
        entries
    }
}

/// Puts a page in the order in which listings are answered, newest first:
/// a page read above a key, which comes in ascending order, is reversed.
pub fn arrange_page(query: &PrimaryKeyQuery, entries: Vec<Document>) -> (r: Vec<Document>)
    ensures
        r@ == spec_arranged(*query, entries@),
        !(*query is Above) ==> r@ == entries@,
        *query is Above ==> r@.len() == entries@.len(),
        *query is Above ==> forall|i: int| 0 <= i < entries@.len() ==> #[trigger] r@[i] == entries@[entries@.len() - 1 - i],
{
    proof {
        lemma_arranged_page_exact(*query, entries@);
    }
    match query {
        PrimaryKeyQuery::Above(_) => {
            let ghost given = entries@;
            let mut rest = entries;
            let mut out: Vec<Document> = Vec::new();
            while rest.len() > 0
                invariant
                    rest@.len() <= given.len(),
                    rest@ == given.subrange(0, rest@.len() as int),
                    out@ == given.subrange(rest@.len() as int, given.len() as int).reverse(),
                decreases rest@.len(),
            {
                let ghost before = rest@.len();
                let x = rest.pop().unwrap();
                proof {
                    assert(x == given[before - 1]);
                    assert(given.subrange(before - 1, given.len() as int).reverse() =~= given.subrange(before as int, given.len() as int).reverse().push(x));
                }
                out.push(x);
            }
            proof {
                assert(given.subrange(0, given.len() as int) =~= given);
            }
            out
        },
        _ => entries,
    }
}

/// Arranging a page keeps every document read, and only a page read above
/// a key changes order: it comes out exactly reversed. No document is
/// dropped, added or moved otherwise.
pub proof fn lemma_arranged_page_exact(query: PrimaryKeyQuery, entries: Seq<Document>)
    ensures
        spec_arranged(query, entries).len() == entries.len(),
        !(query is Above) ==> spec_arranged(query, entries) == entries,
        query is Above ==> forall|i: int| 0 <= i < entries.len() ==>
            #[trigger] spec_arranged(query, entries)[i] == entries[entries.len() - 1 - i],
{
}

pub open spec fn ascending(entries: Seq<Document>) -> bool {
    forall|i: int, j: int| 0 <= i < j < entries.len() ==> entries[i].pk < entries[j].pk
}

pub open spec fn descending(entries: Seq<Document>) -> bool {
    forall|i: int, j: int| 0 <= i < j < entries.len() ==> entries[i].pk > entries[j].pk
}

/// A page read above a key in ascending key order is answered in
/// descending key order, as every other page is read.
pub proof fn lemma_arranged_page_descending(query: PrimaryKeyQuery, entries: Seq<Document>)
    requires
        query is Above ==> ascending(entries),
        !(query is Above) ==> descending(entries),
    ensures
        descending(spec_arranged(query, entries)),
{
    if query is Above {
        let r = entries.reverse();
        assert forall|i: int, j: int| 0 <= i < j < r.len() implies r[i].pk > r[j].pk by {
            assert(r[i] == entries[entries.len() - 1 - i]);
            assert(r[j] == entries[entries.len() - 1 - j]);
        }
    }
}

/// The keys of the first and the last document of a page, which the page
/// links are counted from; none for an empty page.
pub fn page_ends(entries: &Vec<Document>) -> (r: Option<(i64, i64)>)
    ensures
        entries@.len() == 0 ==> r is None,
        entries@.len() > 0 ==> r == Some((entries@[0].pk, entries@.last().pk)),
{
    if entries.len() == 0 {
        None
    } else {
        Some((entries[0].pk, entries[entries.len() - 1].pk))
    }
}

/// The link to a neighbouring page: `/document?<parameter>=<key>`.
pub open spec fn spec_page_link(parameter: Seq<char>, pk: i64) -> Seq<char> {
    "/document?"@ + parameter + "="@ + spec_int_text(pk as int)
}

/// A page link is `/document?`, the parameter, `=` and the key's decimal
/// text: reading the text after `=` gives back exactly the key.
pub proof fn lemma_page_link_key(parameter: Seq<char>, pk: i64)
    ensures
        spec_page_link(parameter, pk).len() == parameter.len() + 11 + spec_int_text(pk as int).len(),
        spec_page_link(parameter, pk).take(parameter.len() + 11int) == "/document?"@ + parameter + "="@,
        spec_parse_i64(spec_page_link(parameter, pk).skip(parameter.len() + 11int)) == Some(pk),
{
    reveal_strlit("/document?");
    reveal_strlit("=");
    crate::decimal::lemma_parse_format_i64(pk);
    let head = "/document?"@ + parameter + "="@;
    assert(head.len() == parameter.len() + 11);
    assert(spec_page_link(parameter, pk).take(parameter.len() + 11int) =~= head);
    assert(spec_page_link(parameter, pk).skip(parameter.len() + 11int) =~= spec_int_text(pk as int));
}

fn page_link(name: &str, parameter: &str, pk: i64) -> (r: (String, String))
    ensures
        r.0@ == name@,
        r.1@ == spec_page_link(parameter@, pk),
{
    let mut v = String::from_str("/document?");
    v.append(parameter);
    v.append("=");
    let digits = format_i64(pk);
    v.append(digits.as_str());
    (String::from_str(name), v)
}

/// The `Link-Next` header of a listing whose last document has key
/// `last_pk`: present when the user has documents below that key.
pub fn next_page_header(last_pk: i64, count_below: i64) -> (r: Option<(String, String)>)
    ensures
        r is Some <==> count_below > 0,
        r matches Some(h) ==> spec_header(h, "Link-Next"@, spec_page_link("below_pk"@, last_pk)),
        r matches Some(h) ==> h.1@.take(19) == "/document?below_pk="@ && spec_parse_i64(h.1@.skip(19)) == Some(last_pk),
{
    proof {
        reveal_strlit("below_pk");
        reveal_strlit("/document?below_pk=");
        reveal_strlit("/document?");
        reveal_strlit("=");
        lemma_page_link_key("below_pk"@, last_pk);
        assert("/document?"@ + "below_pk"@ + "="@ =~= "/document?below_pk="@);
    }
    if count_below > 0 {
        Some(page_link("Link-Next", "below_pk", last_pk))
    } else {
        None
    }
}

/// The `Link-Prev` header of a listing whose first document has key
/// `first_pk`: present when the user has documents above that key.
pub fn prev_page_header(first_pk: i64, count_above: i64) -> (r: Option<(String, String)>)
    ensures
        r is Some <==> count_above > 0,
        r matches Some(h) ==> spec_header(h, "Link-Prev"@, spec_page_link("above_pk"@, first_pk)),
        r matches Some(h) ==> h.1@.take(19) == "/document?above_pk="@ && spec_parse_i64(h.1@.skip(19)) == Some(first_pk),
{
    proof {
        reveal_strlit("above_pk");
        reveal_strlit("/document?above_pk=");
        reveal_strlit("/document?");
        reveal_strlit("=");
        lemma_page_link_key("above_pk"@, first_pk);
        assert("/document?"@ + "above_pk"@ + "="@ =~= "/document?above_pk="@);
    }
    if count_above > 0 {
        Some(page_link("Link-Prev", "above_pk", first_pk))
    } else {
        None
    }
}

/// Following a `Link-Next` link lists the page below the last document
/// shown; following a `Link-Prev` link lists the page above the first.
pub proof fn lemma_page_links_round_trip(pk: i64)
    ensures
        spec_from_parameters(None, spec_key_parameter(Some(spec_int_text(pk as int)))) == PrimaryKeyQuery::Below(pk),
        spec_from_parameters(spec_key_parameter(Some(spec_int_text(pk as int))), None) == PrimaryKeyQuery::Above(pk),
{
    crate::decimal::lemma_parse_format_i64(pk);
}

/// The answer to a listing: the documents, with the page links found.
pub fn listing_response(entries: Vec<Document>, next: Option<(String, String)>, prev: Option<(String, String)>) -> (r: Response)
    ensures
        r.status == 200,
        r.body == Body::Documents(entries),
        r.headers@ == (match (next, prev) {
            (Some(n), Some(p)) => seq![n, p],
            (Some(n), None) => seq![n],
            (None, Some(p)) => seq![p],
            (None, None) => Seq::<(String, String)>::empty(),
        }),
{
    let mut r = Response::new(200, Body::Documents(entries));
    match next {
        Some(n) => r.add_header(n),
        None => {},
    }
    match prev {
        Some(p) => r.add_header(p),
        None => {},
    }
    r
}

/// The answer to a stored new document: 201 with the document.
pub fn created_response(document: Document) -> (r: Response)
    ensures
        r.status == 201,
        r.headers@.len() == 0,
        r.body == Body::Document(document),
{
    Response::new(201, Body::Document(document))
}

/// The answer to a document read: 200 with the document.
pub fn found_response(document: Document) -> (r: Response)
    ensures
        r.status == 200,
        r.headers@.len() == 0,
        r.body == Body::Document(document),
{
    Response::new(200, Body::Document(document))
}

/// The stored document that an update replaces the data of: the user's
/// document with that id, or not found.
pub fn update_target(id: &str, existing: Option<Document>) -> (r: Result<Document, Error>)
    ensures
        existing matches Some(d) ==> r == Ok::<Document, Error>(d),
        existing is None ==> (r matches Err(e) && e.kind == ErrorKind::NotFound
            && e.message@ == id@ + " not found"@),
{
    match existing {
        Some(d) => Ok(d),
        None => {
            let mut m = String::from_str(id);
            m.append(" not found");
            Err(Error { kind: ErrorKind::NotFound, message: m })
        },
    }
}

/// The answer to an update that was stored: 200 "updated".
pub fn updated_response() -> (r: Response)
    ensures
        r.status == 200,
        r.headers@.len() == 0,
        spec_text_body(r.body, "updated"@),
{
    Response::text(200, "updated")
}

/// What an idempotent insert under a given id does, given the user's
/// document stored under that id if there is one: answer with the stored
/// document when its data is the same (`Ok(Some)`), refuse it when the
/// data differs, and store a new document when there is none (`Ok(None)`).
pub fn idempotent_insert(id: &str, existing: Option<Document>, data: &Json) -> (r: Result<Option<Document>, Error>)
    ensures
        existing is None ==> r == Ok::<Option<Document>, Error>(None),
        existing matches Some(d) ==> (d.data@ == data@ ==> r == Ok::<Option<Document>, Error>(Some(d))),
        existing matches Some(d) ==> (d.data@ != data@ ==> (r matches Err(e) && e.kind == ErrorKind::Conflict
            && e.message@ == id@ + " already exists and data is not the same"@)),
{
    match existing {
        Some(d) => {
            if d.data.same_as(data) {
                Ok(Some(d))
            } else {
                let mut m = String::from_str(id);
                m.append(" already exists and data is not the same");
                Err(Error { kind: ErrorKind::Conflict, message: m })
            }
        },
        None => Ok(None),
    }
}

/// The answer to a delete: 200 "deleted" when a document went, 404
/// "not found" when the user had none with that id.
pub fn deleted_response(deleted: bool) -> (r: Response)
    ensures
        r.headers@.len() == 0,
        deleted ==> r.status == 200 && spec_text_body(r.body, "deleted"@),
        !deleted ==> r.status == 404 && spec_text_body(r.body, "not found"@),
{
    if deleted {
        Response::text(200, "deleted")
    } else {
        Response::text(404, "not found")
    }
}

} // verus!
