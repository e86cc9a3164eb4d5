//! `application/x-www-form-urlencoded` pairs, as query strings and token requests carry them.
use crate::response::header_safe;
use crate::text::str_eq;
use vstd::prelude::*;
use vstd::utf8::encode_utf8;

verus! {

/// The value of the first pair that has this key.
pub open spec fn lookup<T>(pairs: Seq<(Seq<char>, T)>, key: Seq<char>) -> Option<T>
    decreases pairs.len(),
{
    if pairs.len() == 0 {
        None
    } else if pairs[0].0 == key {
        Some(pairs[0].1)
    } else {
        lookup(pairs.drop_first(), key)
    }
}

/// The pairs that a form holds, percent-decoded, in order: what
/// `url::form_urlencoded::parse` yields.
pub uninterp spec fn form_pairs(form: Seq<u8>) -> Seq<(Seq<char>, Seq<char>)>;

/// The form that holds these pairs: what `url::form_urlencoded::Serializer` writes.
pub uninterp spec fn form_text(pairs: Seq<(Seq<char>, Seq<char>)>) -> Seq<char>;

/// Calls `url::form_urlencoded::parse` and collects its pairs. Claimed: the pairs are a
/// function of the bytes.
#[verifier::external_body]
pub(crate) fn parse_form(form: &[u8]) -> (pairs: Vec<(String, String)>)
    ensures
        pairs.deep_view() == form_pairs(form@),
{
    url::form_urlencoded::parse(form).into_owned().collect()
}

/// Calls `url::form_urlencoded::Serializer` on the pairs. Claimed: the text is a function of
/// the pairs, parsing it gives the pairs back, and it is printable, so that a header can carry
/// it.
#[verifier::external_body]
pub(crate) fn write_form(pairs: &Vec<(String, String)>) -> (form: String)
    ensures
        form@ == form_text(pairs.deep_view()),
        form_pairs(encode_utf8(form@)) == pairs.deep_view(),
        header_safe(form@),
{
    url::form_urlencoded::Serializer::new(String::new()).extend_pairs(pairs).finish()
}

/// A first match at `i` is what `lookup` finds.
pub proof fn lemma_lookup_at<T>(pairs: Seq<(Seq<char>, T)>, key: Seq<char>, i: int)
    requires
        0 <= i < pairs.len(),
        pairs[i].0 == key,
        forall|j: int| 0 <= j < i ==> pairs[j].0 != key,
    ensures
        lookup(pairs, key) == Some(pairs[i].1),
    decreases i,
{
    if i > 0 {
        assert(pairs.drop_first()[i - 1] == pairs[i]);
        assert forall|j: int| 0 <= j < i - 1 implies pairs.drop_first()[j].0 != key by {
            assert(pairs.drop_first()[j] == pairs[j + 1]);
        }
        lemma_lookup_at(pairs.drop_first(), key, i - 1);
    }
}

/// Without a pair of that key `lookup` finds nothing.
pub proof fn lemma_lookup_none<T>(pairs: Seq<(Seq<char>, T)>, key: Seq<char>)
    requires
        forall|j: int| 0 <= j < pairs.len() ==> pairs[j].0 != key,
    ensures
        lookup(pairs, key) is None,
    decreases pairs.len(),
{
    if pairs.len() > 0 {
        assert forall|j: int| 0 <= j < pairs.drop_first().len() implies pairs.drop_first()[j].0
            != key by {
            assert(pairs.drop_first()[j] == pairs[j + 1]);
        }
        lemma_lookup_none(pairs.drop_first(), key);
    }
}

/// Finds the first pair with this key.
pub fn find<'a, T: DeepView>(pairs: &'a Vec<(String, T)>, key: &str) -> (r: Option<&'a T>)
    ensures
        r.deep_view() == lookup(pairs.deep_view(), key@),
{
    let mut i: usize = 0;
    while i < pairs.len()
        invariant
            i <= pairs@.len(),
            forall|j: int| 0 <= j < i ==> (#[trigger] pairs.deep_view()[j]).0 != key@,
        decreases pairs@.len() - i,
    {
        if str_eq(pairs[i].0.as_str(), key) {
            proof {
                lemma_lookup_at(pairs.deep_view(), key@, i as int);
            }
            return Some(&pairs[i].1);
        }
        i += 1;
    }
    proof {
        lemma_lookup_none(pairs.deep_view(), key@);
    }
    None
}

/// The value of the first pair with this key.
pub fn get<'a>(pairs: &'a Vec<(String, String)>, key: &str) -> (r: Option<&'a str>)
    ensures
        r.deep_view() == lookup(pairs.deep_view(), key@),
{
    match find(pairs, key) {
        Some(v) => Some(v.as_str()),
        None => None,
    }
}

/// The pairs of a request's query string; a request without one has none.
pub open spec fn query_pairs_spec(query: Option<Seq<char>>) -> Seq<(Seq<char>, Seq<char>)> {
    match query {
        Some(q) => form_pairs(encode_utf8(q)),
        None => Seq::empty(),
    }
}

/// The pairs of a request's query string.
pub fn query_pairs(query: Option<&str>) -> (pairs: Vec<(String, String)>)
    ensures
        pairs.deep_view() == query_pairs_spec(query.deep_view()),
{
    match query {
        Some(q) => parse_form(q.as_bytes()),
        None => {
            let pairs: Vec<(String, String)> = Vec::new();
            assert(pairs.deep_view() =~= Seq::empty());
            pairs
        },
    }
}

} // verus!
