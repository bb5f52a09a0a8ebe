//! Reading a query back: the pairs that a query string stands for, and the
//! proof that a built query stands for the parameters it was built from.

use crate::encoding::lemma_encode_chars;
use crate::request::{
    decode_text, encode_text, lemma_term_recovered, pair_text, query_of, request_text,
    search_params, API_URL,
};
use vstd::prelude::*;
use vstd::string::*;
use vstd::utf8::encode_utf8;

verus! {

/// The place of the first `c` in `s`, or the length of `s` if it holds none.
pub open spec fn first_index(s: Seq<char>, c: char) -> nat
    decreases s.len(),
{
    if s.len() == 0 || s[0] == c {
        0
    } else {
        1 + first_index(s.skip(1), c)
    }
}

/// What follows the first `c` in `s`: nothing if `s` holds none.
pub open spec fn after_first(s: Seq<char>, c: char) -> Seq<char> {
    if first_index(s, c) < s.len() {
        s.skip(first_index(s, c) as int + 1)
    } else {
        Seq::empty()
    }
}

/// The name and value that one segment of a query stands for: what stands
/// before its first `=` and what follows it, both decoded.
pub open spec fn read_pair(segment: Seq<char>) -> (Seq<char>, Seq<char>) {
    (
        decode_text(segment.take(first_index(segment, '=') as int)),
        decode_text(after_first(segment, '=')),
    )
}

/// The pairs that a query stands for: its segments between `&`, the empty
/// ones left out, each read as a pair.
pub open spec fn read_query(query: Seq<char>) -> Seq<(Seq<char>, Seq<char>)>
    decreases query.len(),
{
    if query.len() == 0 {
        Seq::empty()
    } else {
        let segment = query.take(first_index(query, '&') as int);
        (if segment.len() == 0 {
            Seq::empty()
        } else {
            seq![read_pair(segment)]
        }) + read_query(after_first(query, '&'))
    }
}

/// The query of an address: what follows its first `?`.
pub open spec fn address_query(address: Seq<char>) -> Seq<char> {
    after_first(address, '?')
}

proof fn lemma_first_index_bound(s: Seq<char>, c: char)
    ensures
        first_index(s, c) <= s.len(),
    decreases s.len(),
{
    if !(s.len() == 0 || s[0] == c) {
        lemma_first_index_bound(s.skip(1), c);
    }
}

/// Where `head` holds no `c`, the first `c` of `head` followed by `c` and
/// more stands right behind `head`.
proof fn lemma_first_index_split(head: Seq<char>, c: char, tail: Seq<char>)
    requires
        forall|i: int| 0 <= i < head.len() ==> head[i] != c,
    ensures
        first_index(head + seq![c] + tail, c) == head.len(),
        first_index(head, c) == head.len(),
        (head + seq![c] + tail).take(head.len() as int) == head,
        after_first(head + seq![c] + tail, c) == tail,
        after_first(head, c) == Seq::<char>::empty(),
    decreases head.len(),
{
    let whole = head + seq![c] + tail;
    if head.len() > 0 {
        let rest = head.skip(1);
        assert(whole.skip(1) =~= rest + seq![c] + tail);
        assert(whole[0] == head[0]);
        assert forall|i: int| 0 <= i < rest.len() implies rest[i] != c by {
            assert(rest[i] == head[i + 1]);
        }
        lemma_first_index_split(rest, c, tail);
    } else {
        assert(whole[0] == c);
    }
    assert(whole.take(head.len() as int) =~= head);
    assert(whole.skip(head.len() as int + 1) =~= tail);
}

/// Encoded text holds neither `=` nor `&`.
proof fn lemma_encoded_text_plain(text: Seq<char>)
    ensures
        forall|i: int| 0 <= i < encode_text(text).len() ==> encode_text(text)[i] != '=',
        forall|i: int| 0 <= i < encode_text(text).len() ==> encode_text(text)[i] != '&',
{
    assert forall|i: int| 0 <= i < encode_text(text).len() implies encode_text(text)[i] != '='
        && encode_text(text)[i] != '&' by {
        lemma_encode_chars(encode_utf8(text), i);
    }
}

/// A pair is read back from its text.
proof fn lemma_read_pair(pair: (Seq<char>, Seq<char>))
    ensures
        read_pair(pair_text(pair)) == pair,
        pair_text(pair).len() > 0,
        forall|i: int| 0 <= i < pair_text(pair).len() ==> pair_text(pair)[i] != '&',
{
    let name = encode_text(pair.0);
    let value = encode_text(pair.1);
    lemma_encoded_text_plain(pair.0);
    lemma_encoded_text_plain(pair.1);
    lemma_first_index_split(name, '=', value);
    lemma_term_recovered(pair.0);
    lemma_term_recovered(pair.1);
    assert forall|i: int| 0 <= i < pair_text(pair).len() implies pair_text(pair)[i] != '&' by {
        if i < name.len() {
            assert(pair_text(pair)[i] == name[i]);
        } else if i > name.len() {
            assert(pair_text(pair)[i] == value[i - name.len() - 1]);
        }
    }
}

/// A query is the text of its first pair, followed, where more pairs
/// follow, by `&` and the query of those.
proof fn lemma_query_front(first: (Seq<char>, Seq<char>), rest: Seq<(Seq<char>, Seq<char>)>)
    ensures
        query_of(seq![first] + rest) == pair_text(first) + (if rest.len() > 0 {
            seq!['&'] + query_of(rest)
        } else {
            Seq::empty()
        }),
        query_of(seq![first] + rest).len() > 0,
    decreases rest.len(),
{
    let all = seq![first] + rest;
    if rest.len() == 0 {
        assert(all.drop_last() =~= Seq::<(Seq<char>, Seq<char>)>::empty());
        assert(query_of(all.drop_last()) =~= Seq::<char>::empty());
        assert(all.last() == first);
        assert(query_of(all) =~= pair_text(first));
    } else {
        let shorter = rest.drop_last();
        assert(all.drop_last() =~= seq![first] + shorter);
        assert(all.last() == rest.last());
        lemma_query_front(first, shorter);
        if shorter.len() > 0 {
            assert(seq![shorter[0]] + shorter.skip(1) =~= shorter);
            lemma_query_front(shorter[0], shorter.skip(1));
        }
        assert(query_of(all) =~= pair_text(first) + (seq!['&'] + query_of(rest)));
    }
}

/// Reading a built query back gives the parameters it was built from, each
/// name and each value exactly, whatever characters they hold.
pub proof fn lemma_query_read_back(params: Seq<(Seq<char>, Seq<char>)>)
    ensures
        read_query(query_of(params)) == params,
    decreases params.len(),
{
    if params.len() > 0 {
        let first = params[0];
        let rest = params.skip(1);
        assert(seq![first] + rest =~= params);
        lemma_query_front(first, rest);
        lemma_read_pair(first);
        lemma_query_read_back(rest);
        if rest.len() > 0 {
            lemma_first_index_split(pair_text(first), '&', query_of(rest));
            assert(query_of(params) =~= pair_text(first) + seq!['&'] + query_of(rest));
        } else {
            lemma_first_index_split(pair_text(first), '&', Seq::empty());
            assert(query_of(params) =~= pair_text(first));
            assert(query_of(params).take(query_of(params).len() as int) =~= query_of(params));
        }
        assert(read_query(query_of(params)) =~= seq![first] + rest);
    }
}

/// The query of a built address is the query of its parameters.
pub proof fn lemma_address_query(params: Seq<(Seq<char>, Seq<char>)>)
    ensures
        address_query(request_text(params)) == query_of(params),
{
    reveal_strlit("https://en.wikipedia.org/w/api.php");
    assert forall|i: int| 0 <= i < API_URL@.len() implies API_URL@[i] != '?' by {}
    lemma_first_index_split(API_URL@, '?', query_of(params));
}

/// Reading the address of a search back gives the term that was searched
/// for, exactly: also where it holds spaces, `&`, `=` or other reserved
/// characters.
pub proof fn lemma_search_term_read_back(term: Seq<char>)
    ensures
        read_query(address_query(request_text(search_params(term)))) == search_params(term),
        read_query(address_query(request_text(search_params(term))))[2] == ("srsearch"@, term),
{
    lemma_address_query(search_params(term));
    lemma_query_read_back(search_params(term));
}

} // verus!
