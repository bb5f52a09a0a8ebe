//! The address of a request: the fixed endpoint of the service, followed by
//! the query that names the operation and carries its argument.

use crate::encoding::{form_decode, form_encode, lemma_decode_encode};
use crate::numbers::{decimal, to_decimal};
use vstd::prelude::*;
use vstd::string::*;
use vstd::utf8::*;

verus! {

/// The endpoint of the service.
pub const API_URL: &'static str = "https://en.wikipedia.org/w/api.php";

/// A query parameter: a name and the value given to it.
#[derive(Clone, Debug, PartialEq, Eq)]
pub struct Param {
    pub name: String,
    pub value: String,
}

impl View for Param {
    type V = (Seq<char>, Seq<char>);

    open spec fn view(&self) -> (Seq<char>, Seq<char>) {
        (self.name@, self.value@)
    }
}

/// The encoded form of a piece of text: that of its UTF-8 bytes.
pub open spec fn encode_text(text: Seq<char>) -> Seq<char> {
    form_encode(encode_utf8(text))
}

/// The text that an encoded component stands for.
pub open spec fn decode_text(encoded: Seq<char>) -> Seq<char> {
    decode_utf8(form_decode(encoded))
}

/// The text of a pair: the encoded name, `=`, and the encoded value.
pub open spec fn pair_text(pair: (Seq<char>, Seq<char>)) -> Seq<char> {
    encode_text(pair.0) + seq!['='] + encode_text(pair.1)
}

/// A query with one more pair at its end: a `&` where the query held
/// something, then the text of the pair.
pub open spec fn with_pair(query: Seq<char>, name: Seq<char>, value: Seq<char>) -> Seq<char> {
    query + (if query.len() > 0 {
        seq!['&']
    } else {
        Seq::empty()
    }) + pair_text((name, value))
}

/// The query made of `params`, in their order.
pub open spec fn query_of(params: Seq<(Seq<char>, Seq<char>)>) -> Seq<char>
    decreases params.len(),
{
    if params.len() == 0 {
        Seq::empty()
    } else {
        with_pair(query_of(params.drop_last()), params.last().0, params.last().1)
    }
}

/// The address of the request that carries `params`.
pub open spec fn request_text(params: Seq<(Seq<char>, Seq<char>)>) -> Seq<char> {
    API_URL@ + seq!['?'] + query_of(params)
}

/// The parameters of a search for `term`.
pub open spec fn search_params(term: Seq<char>) -> Seq<(Seq<char>, Seq<char>)> {
    seq![
        ("action"@, "query"@),
        ("list"@, "search"@),
        ("srsearch"@, term),
        ("format"@, "json"@),
    ]
}

/// The parameters of the request for the plain text of page `pageid`.
pub open spec fn page_params(pageid: u64) -> Seq<(Seq<char>, Seq<char>)> {
    seq![
        ("action"@, "query"@),
        ("prop"@, "extracts"@),
        ("explaintext"@, ""@),
        ("exsectionformat"@, "plain"@),
        ("pageids"@, decimal(pageid as nat)),
        ("format"@, "json"@),
    ]
}

/// The parameters of the request for `n` random pages of the main namespace.
pub open spec fn random_params(n: u64) -> Seq<(Seq<char>, Seq<char>)> {
    seq![
        ("action"@, "query"@),
        ("list"@, "random"@),
        ("rnlimit"@, decimal(n as nat)),
        ("rnnamespace"@, "0"@),
        ("format"@, "json"@),
    ]
}

/// Reading an encoded piece of text back gives the text: a term that holds
/// spaces, `&`, `=` or any other reserved character is recovered exactly
/// from the query built with it.
pub proof fn lemma_term_recovered(term: Seq<char>)
    ensures
        decode_text(encode_text(term)) == term,
{
    lemma_decode_encode(encode_utf8(term));
    encode_utf8_decode_utf8(term);
}

/// `url::form_urlencoded::Serializer::append_pair`, on a serializer made by
/// `Serializer::new` over `query` and finished right after: the pair is
/// written behind what `query` holds, after a `&` unless `query` is empty,
/// as the byte serialisation of the name, `=`, and that of the value.
#[verifier::external_body]
fn append_pair(query: String, name: &str, value: &str) -> (r: String)
    ensures
        r@ == with_pair(query@, name@, value@),
{
    let mut serializer = url::form_urlencoded::Serializer::new(query);
    serializer.append_pair(name, value);
    serializer.finish()
}

fn param(name: &str, value: &str) -> (r: Param)
    ensures
        r@ == (name@, value@),
{
    Param { name: name.to_owned(), value: value.to_owned() }
}

/// The address of the request that carries `params`.
pub fn request_url(params: &Vec<Param>) -> (r: String)
    ensures
        r@ == request_text(params@.map_values(|p: Param| p@)),
{
    let ghost all = params@.map_values(|p: Param| p@);
    let mut query = String::new();
    let mut i: usize = 0;
    assert(all.subrange(0, 0) =~= Seq::empty());
    while i < params.len()
        invariant
            i <= params.len(),
            all == params@.map_values(|p: Param| p@),
            query@ == query_of(all.subrange(0, i as int)),
        decreases params.len() - i,
    {
        assert(all.subrange(0, i + 1).drop_last() =~= all.subrange(0, i as int));
        assert(all.subrange(0, i + 1).last() == params@[i as int]@);
        query = append_pair(query, params[i].name.as_str(), params[i].value.as_str());
        i += 1;
    }
    assert(all.subrange(0, i as int) =~= all);
    let mut url = API_URL.to_owned();
    url.append("?");
    url.append(query.as_str());
    proof {
        reveal_strlit("?");
        assert("?"@ =~= seq!['?']);
    }
    url
}

/// The address of a search for `term`.
pub fn search_url(term: &str) -> (r: String)
    ensures
        r@ == request_text(search_params(term@)),
{
    let params = vec![
        param("action", "query"),
        param("list", "search"),
        param("srsearch", term),
        param("format", "json"),
    ];
    assert(params@.map_values(|p: Param| p@) =~= search_params(term@));
    request_url(&params)
}

/// The address of the request for the plain text of page `pageid`.
pub fn page_url(pageid: u64) -> (r: String)
    ensures
        r@ == request_text(page_params(pageid)),
{
    let id = to_decimal(pageid);
    let params = vec![
        param("action", "query"),
        param("prop", "extracts"),
        param("explaintext", ""),
        param("exsectionformat", "plain"),
        param("pageids", id.as_str()),
        param("format", "json"),
    ];
    assert(params@.map_values(|p: Param| p@) =~= page_params(pageid));
    request_url(&params)
}

/// The address of the request for `n` random pages.
pub fn random_url(n: u64) -> (r: String)
    ensures
        r@ == request_text(random_params(n)),
{
    let limit = to_decimal(n);
    let params = vec![
        param("action", "query"),
        param("list", "random"),
        param("rnlimit", limit.as_str()),
        param("rnnamespace", "0"),
        param("format", "json"),
    ];
    assert(params@.map_values(|p: Param| p@) =~= random_params(n));
    request_url(&params)
}

} // verus!
