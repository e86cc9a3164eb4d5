//! URLs: where one points, and one with a longer query.
use crate::form::form_pairs;
use crate::response::header_safe;
use crate::text::first_index;
use crate::text::split_once_spec;
use vstd::prelude::*;
use vstd::string::StrSliceExecFns;
use vstd::utf8::encode_utf8;

verus! {

/// The scheme and the host of a URL; nothing where the text is no URL.
pub uninterp spec fn url_origin(uri: Seq<char>) -> Option<(Seq<char>, Option<Seq<char>>)>;

/// The URL with these pairs added to its query, in order; nothing where the text is no URL.
pub uninterp spec fn url_with_params(
    uri: Seq<char>,
    params: Seq<(Seq<char>, Seq<char>)>,
) -> Option<Seq<char>>;

/// The longest URL, with what is added to it, that is handled here. Percent-encoding and
/// internationalised hosts make a URL longer, and the `url` crate counts in 32 bits.
pub const URL_MAX: usize = 0x200_0000;

/// The characters of these pairs, with their separators.
pub open spec fn params_len(params: Seq<(Seq<char>, Seq<char>)>) -> nat
    decreases params.len(),
{
    if params.len() == 0 {
        0
    } else {
        params_len(params.drop_last()) + params.last().0.len() + params.last().1.len() + 2
    }
}

/// The URL and the pairs are short enough to be put together.
pub open spec fn url_fits(uri: Seq<char>, params: Seq<(Seq<char>, Seq<char>)>) -> bool {
    uri.len() + params_len(params) <= URL_MAX
}

/// The query of a URL as it is written out: what stands after the first `?`, up to the fragment.
pub open spec fn query_of(url: Seq<char>) -> Option<Seq<char>> {
    match split_once_spec(url.subrange(0, first_index(url, '#')), '?') {
        Some((_, query)) => Some(query),
        None => None,
    }
}

/// The pairs of a URI's own query; a URI without one has none.
pub open spec fn own_pairs(uri: Seq<char>) -> Seq<(Seq<char>, Seq<char>)> {
    match query_of(uri) {
        Some(query) => form_pairs(encode_utf8(query)),
        None => Seq::empty(),
    }
}

/// A URI that is read as it stands: control characters, and spaces around it, would be dropped.
pub open spec fn is_clean(uri: Seq<char>) -> bool {
    &&& forall|i: int| 0 <= i < uri.len() ==> #[trigger] uri[i] as u32 >= 32
    &&& uri.len() > 0 ==> uri[0] != ' ' && uri.last() != ' '
}

/// Whoever reads the query of `url` finds these pairs at its end, and before them those of the
/// query of `uri`, which it was made from. What is read of a URI that is not clean is left open,
/// but without a `?` there is no query in it.
pub open spec fn tells(
    url: Seq<char>,
    uri: Seq<char>,
    params: Seq<(Seq<char>, Seq<char>)>,
) -> bool {
    &&& query_of(url) is Some
    &&& exists|before: Seq<(Seq<char>, Seq<char>)>|
        {
            &&& form_pairs(encode_utf8(query_of(url)->0)) == #[trigger] (before + params)
            &&& is_clean(uri) ==> before == own_pairs(uri)
            &&& !uri.contains('?') ==> before.len() == 0
        }
}

/// Calls `url::Url::parse`, `scheme` and `host_str`. Claimed: the outcome is a function of the
/// text.
#[verifier::external_body]
pub(crate) fn parse_origin(uri: &str) -> (r: Option<(String, Option<String>)>)
    ensures
        r.deep_view() == url_origin(uri@),
{
    let url = url::Url::parse(uri).ok()?;
    Some((url.scheme().to_string(), url.host_str().map(str::to_string)))
}

/// Calls `url::Url::parse_with_params`. Claimed: the outcome is a function of the text and the
/// pairs; there is a URL exactly where the text alone is one; its query holds the pairs, after
/// those that the text's own query had, which percent-encoding does not change; and it is
/// printable ASCII, so that a header can carry it.
#[verifier::external_body]
pub(crate) fn with_params(uri: &str, params: &Vec<(String, String)>) -> (r: Option<String>)
    requires
        url_fits(uri@, params.deep_view()),
    ensures
        r.deep_view() == url_with_params(uri@, params.deep_view()),
        r is Some <==> url_origin(uri@) is Some,
        r matches Some(url) ==> tells(url@, uri@, params.deep_view()),
        r matches Some(url) ==> header_safe(url@),
{
    url::Url::parse_with_params(uri, params).ok().map(String::from)
}

proof fn lemma_params_len_grows(params: Seq<(Seq<char>, Seq<char>)>, i: int)
    requires
        0 <= i <= params.len(),
    ensures
        params_len(params.take(i)) <= params_len(params),
    decreases params.len(),
{
    if i == params.len() {
        assert(params.take(i) =~= params);
    } else {
        lemma_params_len_grows(params.drop_last(), i);
        assert(params.drop_last().take(i) =~= params.take(i));
    }
}

/// Whether the URL and the pairs are short enough to be put together.
pub fn fits(uri: &str, params: &Vec<(String, String)>) -> (r: bool)
    ensures
        r == url_fits(uri@, params.deep_view()),
{
    let ghost all = params.deep_view();
    let mut total: usize = uri.unicode_len();
    if total > URL_MAX {
        return false;
    }
    let mut i: usize = 0;
    while i < params.len()
        invariant
            i <= params@.len(),
            all == params.deep_view(),
            total == uri@.len() + params_len(all.take(i as int)),
            total <= URL_MAX,
        decreases params@.len() - i,
    {
        let k = params[i].0.as_str().unicode_len();
        let v = params[i].1.as_str().unicode_len();
        proof {
            assert(all.take(i + 1).drop_last() =~= all.take(i as int));
            assert(all.take(i + 1).last() == all[i as int]);
            lemma_params_len_grows(all, i + 1);
        }
        if k > URL_MAX || v > URL_MAX {
            return false;
        }
        if total + k + v + 2 > URL_MAX {
            return false;
        }
        total = total + k + v + 2;
        i += 1;
    }
    assert(all.take(i as int) =~= all);
    true
}

} // verus!
