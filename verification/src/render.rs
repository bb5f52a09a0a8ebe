//! The lines shown for an answer: one per hit or random page, or the text
//! of a page.

use crate::command::{Command, CommandView};
use crate::json::{document, parse_json, Json, ResponseError};
use crate::numbers::{decimal, push_decimal};
use crate::response::{extract_of, listing, page_extract, random_pages, search_results, RandomPage, SearchResult};
use vstd::prelude::*;
use vstd::string::*;

verus! {

/// The line of a list entry: the title, a space, and the number in
/// parentheses.
pub open spec fn entry_line(entry: (Seq<char>, u64)) -> Seq<char> {
    entry.0 + " ("@ + decimal(entry.1 as nat) + ")"@
}

/// The lines of the entries, in their order.
pub open spec fn entry_lines(entries: Seq<(Seq<char>, u64)>) -> Seq<Seq<char>> {
    Seq::new(entries.len(), |i: int| entry_line(entries[i]))
}

/// The views of the lines, in order.
pub open spec fn line_texts(lines: Seq<String>) -> Seq<Seq<char>> {
    Seq::new(lines.len(), |i: int| lines[i]@)
}

/// The lines that answer `command` when the service sent `doc`: `None`
/// where `doc` is not of the shape that the command expects.
pub open spec fn answer_lines(command: CommandView, doc: Json) -> Option<Seq<Seq<char>>> {
    match command {
        CommandView::Search(_) => match listing(doc, "search"@, "pageid"@) {
            Some(entries) => Some(entry_lines(entries)),
            None => None,
        },
        CommandView::Page(pageid) => match extract_of(doc, pageid) {
            Some(extract) => Some(seq![extract]),
            None => None,
        },
        CommandView::Random(_) => match listing(doc, "random"@, "id"@) {
            Some(entries) => Some(entry_lines(entries)),
            None => None,
        },
    }
}

/// What is written out for `lines`: each line, followed by a line break.
pub open spec fn printed_text(lines: Seq<Seq<char>>) -> Seq<char>
    decreases lines.len(),
{
    if lines.len() == 0 {
        Seq::empty()
    } else {
        printed_text(lines.drop_last()) + lines.last() + seq!['\n']
    }
}

/// The text to write out for `lines`: each line, followed by a line break.
pub fn printed(lines: &Vec<String>) -> (r: String)
    ensures
        r@ == printed_text(line_texts(lines@)),
{
    let ghost all = line_texts(lines@);
    let mut out = String::new();
    let mut i: usize = 0;
    assert(all.subrange(0, 0) =~= Seq::<Seq<char>>::empty());
    while i < lines.len()
        invariant
            i <= lines.len(),
            all == line_texts(lines@),
            out@ == printed_text(all.subrange(0, i as int)),
        decreases lines.len() - i,
    {
        assert(all.subrange(0, i + 1).drop_last() =~= all.subrange(0, i as int));
        assert(all.subrange(0, i + 1).last() == lines@[i as int]@);
        out.append(lines[i].as_str());
        out.append("\n");
        proof {
            reveal_strlit("\n");
            assert("\n"@ =~= seq!['\n']);
        }
        i += 1;
    }
    assert(all.subrange(0, i as int) =~= all);
    out
}

/// The line `<title> (<number>)`.
pub fn format_entry(title: &str, number: u64) -> (r: String)
    ensures
        r@ == entry_line((title@, number)),
{
    let mut line = title.to_owned();
    line.append(" (");
    push_decimal(&mut line, number);
    line.append(")");
    assert(line@ =~= entry_line((title@, number)));
    line
}

/// One line per hit, in the order of the hits.
pub fn search_lines(hits: &Vec<SearchResult>) -> (r: Vec<String>)
    ensures
        line_texts(r@) == entry_lines(hits@.map_values(|h: SearchResult| h@)),
{
    let mut lines: Vec<String> = Vec::new();
    let mut i: usize = 0;
    while i < hits.len()
        invariant
            i <= hits.len(),
            lines@.len() == i,
            forall|k: int| 0 <= k < i ==> (#[trigger] lines@[k])@ == entry_line(hits@[k]@),
        decreases hits.len() - i,
    {
        lines.push(format_entry(hits[i].title.as_str(), hits[i].pageid));
        i += 1;
    }
    assert(line_texts(lines@) =~= entry_lines(hits@.map_values(|h: SearchResult| h@)));
    lines
}

/// One line per page, in the order of the pages.
pub fn random_lines(pages: &Vec<RandomPage>) -> (r: Vec<String>)
    ensures
        line_texts(r@) == entry_lines(pages@.map_values(|p: RandomPage| p@)),
{
    let mut lines: Vec<String> = Vec::new();
    let mut i: usize = 0;
    while i < pages.len()
        invariant
            i <= pages.len(),
            lines@.len() == i,
            forall|k: int| 0 <= k < i ==> (#[trigger] lines@[k])@ == entry_line(pages@[k]@),
        decreases pages.len() - i,
    {
        lines.push(format_entry(pages[i].title.as_str(), pages[i].id));
        i += 1;
    }
    assert(line_texts(lines@) =~= entry_lines(pages@.map_values(|p: RandomPage| p@)));
    lines
}

/// The lines that answer `command` when the service sent the document `doc`.
pub fn render_document(command: &Command, doc: &Json) -> (r: Result<Vec<String>, ResponseError>)
    ensures
        match r {
            Ok(lines) => answer_lines(command@, *doc) == Some(line_texts(lines@)),
            Err(e) => e == ResponseError::Shape && answer_lines(command@, *doc) is None,
        },
{
    match command {
        Command::Search(_) => match search_results(doc) {
            Ok(hits) => Ok(search_lines(&hits)),
            Err(e) => Err(e),
        },
        Command::Page(pageid) => match page_extract(doc, *pageid) {
            Ok(extract) => {
                let lines = vec![extract];
                assert(line_texts(lines@) =~= seq![extract@]);
                Ok(lines)
            },
            Err(e) => Err(e),
        },
        Command::Random(_) => match random_pages(doc) {
            Ok(pages) => Ok(random_lines(&pages)),
            Err(e) => Err(e),
        },
    }
}

/// The lines that answer `command` when the service sent `body`: each is to
/// be shown followed by a line break. A body that is no JSON document is
/// `Malformed`; a document of another shape than the command expects is
/// `Shape`.
pub fn render(command: &Command, body: &str) -> (r: Result<Vec<String>, ResponseError>)
    ensures
        match r {
            Ok(lines) => document(body@) is Some && answer_lines(command@, document(body@)->0)
                == Some(line_texts(lines@)),
            Err(ResponseError::Malformed) => document(body@) is None,
            Err(ResponseError::Shape) => document(body@) is Some && answer_lines(
                command@,
                document(body@)->0,
            ) is None,
        },
{
    match parse_json(body) {
        Ok(doc) => render_document(command, &doc),
        Err(e) => Err(e),
    }
}

} // verus!
