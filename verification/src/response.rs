//! What the answers of the service hold: the hits of a search, the plain
//! text of a page, and a list of random pages.

use crate::json::{document, parse_json, Json, ResponseError};
use crate::numbers::{decimal, to_decimal};
use vstd::prelude::*;

verus! {

/// A hit of a search.
#[derive(Clone, Debug, PartialEq, Eq)]
pub struct SearchResult {
    pub title: String,
    pub pageid: u64,
}

/// A page picked at random.
#[derive(Clone, Debug, PartialEq, Eq)]
pub struct RandomPage {
    pub title: String,
    pub id: u64,
}

impl View for SearchResult {
    type V = (Seq<char>, u64);

    open spec fn view(&self) -> (Seq<char>, u64) {
        (self.title@, self.pageid)
    }
}

impl View for RandomPage {
    type V = (Seq<char>, u64);

    open spec fn view(&self) -> (Seq<char>, u64) {
        (self.title@, self.id)
    }
}

/// The title and number of a list entry: its member `title`, a string, and
/// its member `id_key`, an unsigned integer. `None` where either is missing
/// or of another type.
pub open spec fn entry_fields(entry: Json, id_key: Seq<char>) -> Option<(Seq<char>, u64)> {
    match (entry.member("title"@), entry.member(id_key)) {
        (Some(Json::Text(title)), Some(Json::Number(Some(id)))) => Some((title@, id)),
        _ => None,
    }
}

/// The entries of the array `query.<list>` of `doc`, each as its title and
/// the number under `id_key`, in the order of the array. `None` where the
/// array is missing or one of its entries is not of that shape.
pub open spec fn listing(doc: Json, list: Seq<char>, id_key: Seq<char>) -> Option<
    Seq<(Seq<char>, u64)>,
> {
    match doc.member("query"@) {
        Some(query) => match query.member(list) {
            Some(Json::Array(items)) => if forall|i: int|
                0 <= i < items@.len() ==> (#[trigger] entry_fields(items@[i], id_key)) is Some {
                Some(Seq::new(items@.len(), |i: int| entry_fields(items@[i], id_key)->0))
            } else {
                None
            },
            _ => None,
        },
        None => None,
    }
}

/// The string `query.pages.<pageid>.extract` of `doc`, the page number
/// written in decimal. `None` where the path is missing or does not end in a
/// string.
pub open spec fn extract_of(doc: Json, pageid: u64) -> Option<Seq<char>> {
    match doc.member("query"@) {
        Some(query) => match query.member("pages"@) {
            Some(pages) => match pages.member(decimal(pageid as nat)) {
                Some(page) => match page.member("extract"@) {
                    Some(Json::Text(extract)) => Some(extract@),
                    _ => None,
                },
                None => None,
            },
            None => None,
        },
        None => None,
    }
}

fn read_entry(entry: &Json, id_key: &str) -> (r: Option<(String, u64)>)
    ensures
        match r {
            Some((title, id)) => entry_fields(*entry, id_key@) == Some((title@, id)),
            None => entry_fields(*entry, id_key@) is None,
        },
{
    let title = match entry.get("title") {
        Some(Json::Text(title)) => title.clone(),
        _ => { return None; },
    };
    match entry.get(id_key) {
        Some(Json::Number(Some(id))) => Some((title, *id)),
        _ => None,
    }
}

fn list_items<'a>(doc: &'a Json, list: &str) -> (r: Option<&'a Vec<Json>>)
    ensures
        match r {
            Some(items) => doc.member("query"@) is Some
                && doc.member("query"@)->0.member(list@) is Some
                && doc.member("query"@)->0.member(list@)->0.items() == Some(items@),
            None => doc.member("query"@) is None || doc.member("query"@)->0.member(list@) is None
                || doc.member("query"@)->0.member(list@)->0.items() is None,
        },
{
    match doc.get("query") {
        Some(query) => match query.get(list) {
            Some(items) => items.as_array(),
            None => None,
        },
        None => None,
    }
}

/// The hits in the answer to a search, in the order of the answer.
pub fn search_results(doc: &Json) -> (r: Result<Vec<SearchResult>, ResponseError>)
    ensures
        match r {
            Ok(hits) => listing(*doc, "search"@, "pageid"@) == Some(
                hits@.map_values(|h: SearchResult| h@),
            ),
            Err(e) => e == ResponseError::Shape && listing(*doc, "search"@, "pageid"@) is None,
        },
{
    let items = match list_items(doc, "search") {
        Some(items) => items,
        None => { return Err(ResponseError::Shape); },
    };
    let mut hits: Vec<SearchResult> = Vec::new();
    let mut i: usize = 0;
    while i < items.len()
        invariant
            i <= items.len(),
            doc.member("query"@) is Some,
            doc.member("query"@)->0.member("search"@) is Some,
            doc.member("query"@)->0.member("search"@)->0.items() == Some(items@),
            hits@.len() == i,
            forall|k: int|
                0 <= k < i ==> entry_fields(items@[k], "pageid"@) == Some(#[trigger] hits@[k]@),
        decreases items.len() - i,
    {
        match read_entry(&items[i], "pageid") {
            Some((title, pageid)) => {
                hits.push(SearchResult { title, pageid });
            },
            None => {
                assert(entry_fields(items@[i as int], "pageid"@) is None);
                return Err(ResponseError::Shape);
            },
        }
        i += 1;
    }
    proof {
        let found = hits@.map_values(|h: SearchResult| h@);
        assert forall|k: int| 0 <= k < items@.len() implies (#[trigger] entry_fields(
            items@[k],
            "pageid"@,
        )) is Some by {
            assert(entry_fields(items@[k], "pageid"@) == Some(hits@[k]@));
        }
        assert(found =~= Seq::new(
            items@.len(),
            |k: int| entry_fields(items@[k], "pageid"@)->0,
        )) by {
            assert forall|k: int| 0 <= k < found.len() implies found[k] == entry_fields(
                items@[k],
                "pageid"@,
            )->0 by {
                assert(entry_fields(items@[k], "pageid"@) == Some(hits@[k]@));
            }
        }
    }
    Ok(hits)
}

/// The pages in the answer to a request for random pages, in the order of
/// the answer.
pub fn random_pages(doc: &Json) -> (r: Result<Vec<RandomPage>, ResponseError>)
    ensures
        match r {
            Ok(pages) => listing(*doc, "random"@, "id"@) == Some(
                pages@.map_values(|p: RandomPage| p@),
            ),
            Err(e) => e == ResponseError::Shape && listing(*doc, "random"@, "id"@) is None,
        },
{
    let items = match list_items(doc, "random") {
        Some(items) => items,
        None => { return Err(ResponseError::Shape); },
    };
    let mut pages: Vec<RandomPage> = Vec::new();
    let mut i: usize = 0;
    while i < items.len()
        invariant
            i <= items.len(),
            doc.member("query"@) is Some,
            doc.member("query"@)->0.member("random"@) is Some,
            doc.member("query"@)->0.member("random"@)->0.items() == Some(items@),
            pages@.len() == i,
            forall|k: int|
                0 <= k < i ==> entry_fields(items@[k], "id"@) == Some(#[trigger] pages@[k]@),
        decreases items.len() - i,
    {
        match read_entry(&items[i], "id") {
            Some((title, id)) => {
                pages.push(RandomPage { title, id });
            },
            None => {
                assert(entry_fields(items@[i as int], "id"@) is None);
                return Err(ResponseError::Shape);
            },
        }
        i += 1;
    }
    proof {
        let found = pages@.map_values(|p: RandomPage| p@);
        assert forall|k: int| 0 <= k < items@.len() implies (#[trigger] entry_fields(
            items@[k],
            "id"@,
        )) is Some by {
            assert(entry_fields(items@[k], "id"@) == Some(pages@[k]@));
        }
        assert(found =~= Seq::new(items@.len(), |k: int| entry_fields(items@[k], "id"@)->0)) by {
            assert forall|k: int| 0 <= k < found.len() implies found[k] == entry_fields(
                items@[k],
                "id"@,
            )->0 by {
                assert(entry_fields(items@[k], "id"@) == Some(pages@[k]@));
            }
        }
    }
    Ok(pages)
}

/// The plain text of page `pageid` in the answer to a request for it.
pub fn page_extract(doc: &Json, pageid: u64) -> (r: Result<String, ResponseError>)
    ensures
        match r {
            Ok(extract) => extract_of(*doc, pageid) == Some(extract@),
            Err(e) => e == ResponseError::Shape && extract_of(*doc, pageid) is None,
        },
{
    let key = to_decimal(pageid);
    let query = match doc.get("query") {
        Some(query) => query,
        None => { return Err(ResponseError::Shape); },
    };
    let pages = match query.get("pages") {
        Some(pages) => pages,
        None => { return Err(ResponseError::Shape); },
    };
    let page = match pages.get(key.as_str()) {
        Some(page) => page,
        None => { return Err(ResponseError::Shape); },
    };
    match page.get("extract") {
        Some(Json::Text(extract)) => Ok(extract.clone()),
        _ => Err(ResponseError::Shape),
    }
}

/// Reads the hits from the body of the answer to a search.
pub fn read_search(body: &str) -> (r: Result<Vec<SearchResult>, ResponseError>)
    ensures
        match r {
            Ok(hits) => document(body@) is Some && listing(
                document(body@)->0,
                "search"@,
                "pageid"@,
            ) == Some(hits@.map_values(|h: SearchResult| h@)),
            Err(ResponseError::Malformed) => document(body@) is None,
            Err(ResponseError::Shape) => document(body@) is Some && listing(
                document(body@)->0,
                "search"@,
                "pageid"@,
            ) is None,
        },
{
    match parse_json(body) {
        Ok(doc) => search_results(&doc),
        Err(e) => Err(e),
    }
}

/// Reads the plain text of page `pageid` from the body of the answer.
pub fn read_page(body: &str, pageid: u64) -> (r: Result<String, ResponseError>)
    ensures
        match r {
            Ok(extract) => document(body@) is Some && extract_of(document(body@)->0, pageid)
                == Some(extract@),
            Err(ResponseError::Malformed) => document(body@) is None,
            Err(ResponseError::Shape) => document(body@) is Some && extract_of(
                document(body@)->0,
                pageid,
            ) is None,
        },
{
    match parse_json(body) {
        Ok(doc) => page_extract(&doc, pageid),
        Err(e) => Err(e),
    }
}

/// Reads the pages from the body of the answer to a request for random pages.
pub fn read_random(body: &str) -> (r: Result<Vec<RandomPage>, ResponseError>)
    ensures
        match r {
            Ok(pages) => document(body@) is Some && listing(document(body@)->0, "random"@, "id"@)
                == Some(pages@.map_values(|p: RandomPage| p@)),
            Err(ResponseError::Malformed) => document(body@) is None,
            Err(ResponseError::Shape) => document(body@) is Some && listing(
                document(body@)->0,
                "random"@,
                "id"@,
            ) is None,
        },
{
    match parse_json(body) {
        Ok(doc) => random_pages(&doc),
        Err(e) => Err(e),
    }
}

} // verus!
