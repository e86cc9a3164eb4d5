//! Laws of token requests.
use crate::exchange::exchange_pairs;
use crate::exchange::rewrite_token_form;
use crate::form::form_pairs;
use crate::form::lemma_lookup_at;
use crate::form::lemma_lookup_none;
use crate::seal::SealingKey;
use crate::text::utf8_lossy;
use crate::token::opened_code;
use crate::token::SealedCode;
use vstd::prelude::*;
use vstd::utf8::encode_utf8;
use vstd::utf8::valid_utf8;

verus! {

/// The pair at `i` is the first of its name.
pub open spec fn first_of_name(pairs: Seq<(Seq<char>, Seq<char>)>, i: int, name: Seq<char>) -> bool {
    &&& 0 <= i < pairs.len()
    &&& pairs[i].0 == name
    &&& forall|j: int| 0 <= j < i ==> (#[trigger] pairs[j]).0 != name
}

/// There is no pair of that name.
pub open spec fn has_no(pairs: Seq<(Seq<char>, Seq<char>)>, name: Seq<char>) -> bool {
    forall|j: int| 0 <= j < pairs.len() ==> (#[trigger] pairs[j]).0 != name
}

/// `out` is `pairs` with this value under `code` and that one under `redirect_uri`: pairs keep
/// their places and names, and all others their values.
pub open spec fn is_swapped(
    pairs: Seq<(Seq<char>, Seq<char>)>,
    out: Seq<(Seq<char>, Seq<char>)>,
    code: Seq<char>,
    redirect_uri: Seq<char>,
) -> bool {
    &&& out.len() == pairs.len()
    &&& forall|i: int|
        0 <= i < pairs.len() ==> {
            &&& (#[trigger] out[i]).0 == pairs[i].0
            &&& pairs[i].0 == "code"@ ==> out[i].1 == code
            &&& pairs[i].0 == "redirect_uri"@ ==> out[i].1 == redirect_uri
            &&& pairs[i].0 != "code"@ && pairs[i].0 != "redirect_uri"@ ==> out[i].1 == pairs[i].1
        }
}

proof fn lemma_names_differ()
    ensures
        "code"@ != "redirect_uri"@,
{
    reveal_strlit("code");
    reveal_strlit("redirect_uri");
    assert("code"@.len() == 4 && "redirect_uri"@.len() == 12);
}

/// A request that redeems a code, wherever in it the grant type stands, is swapped where the code
/// was sealed for the redirect URI that the request names; refused, for its own reason each, where
/// the code was not sealed here, where the request names another redirect URI, and where it names
/// none.
pub proof fn redeeming_requests_are_swapped_or_refused(
    pairs: &Vec<(String, String)>,
    sealed: &Option<SealedCode>,
    callback: &str,
    r: Result<Option<Vec<(String, String)>>, &'static str>,
    grant: int,
    uri: int,
)
    requires
        call_ensures(exchange_pairs, (pairs, sealed, callback), r),
        first_of_name(pairs.deep_view(), grant, "grant_type"@),
        pairs.deep_view()[grant].1 == "authorization_code"@,
    ensures
        *sealed is None ==> (r matches Err(why) && why@ == "code was not issued by this gateway"@),
        *sealed matches Some(sc) ==> {
            &&& first_of_name(pairs.deep_view(), uri, "redirect_uri"@)
                && pairs.deep_view()[uri].1 == sc.redirect_uri@ ==> (r matches Ok(Some(out))
                && is_swapped(pairs.deep_view(), out.deep_view(), sc.code@, callback@))
            &&& first_of_name(pairs.deep_view(), uri, "redirect_uri"@)
                && pairs.deep_view()[uri].1 != sc.redirect_uri@ ==> (r matches Err(why) && why@
                == "redirect_uri does not match the authorization request"@)
            &&& has_no(pairs.deep_view(), "redirect_uri"@) ==> (r matches Err(why) && why@
                == "redirect_uri does not match the authorization request"@)
        },
{
    lemma_names_differ();
    let p = pairs.deep_view();
    lemma_lookup_at(p, "grant_type"@, grant);
    if first_of_name(p, uri, "redirect_uri"@) {
        lemma_lookup_at(p, "redirect_uri"@, uri);
    }
    if has_no(p, "redirect_uri"@) {
        lemma_lookup_none(p, "redirect_uri"@);
    }
}

/// A request whose grant type is another one, or that has none, is left alone.
pub proof fn other_requests_are_left_alone(
    pairs: &Vec<(String, String)>,
    sealed: &Option<SealedCode>,
    callback: &str,
    r: Result<Option<Vec<(String, String)>>, &'static str>,
    grant: int,
)
    requires
        call_ensures(exchange_pairs, (pairs, sealed, callback), r),
        has_no(pairs.deep_view(), "grant_type"@) || (first_of_name(
            pairs.deep_view(),
            grant,
            "grant_type"@,
        ) && pairs.deep_view()[grant].1 != "authorization_code"@),
    ensures
        r matches Ok(None),
{
    let p = pairs.deep_view();
    if has_no(p, "grant_type"@) {
        lemma_lookup_none(p, "grant_type"@);
    } else {
        lemma_lookup_at(p, "grant_type"@, grant);
    }
}

/// The form that goes to the provider reads as the client's form with the provider's code and the
/// gateway's callback, wherever in it the grant type, the code and the redirect URI stand.
pub proof fn redeemed_forms_read_as_swapped(
    key: &SealingKey,
    form: &[u8],
    callback: &str,
    r: Result<String, &'static str>,
    grant: int,
    code: int,
    uri: int,
)
    requires
        call_ensures(rewrite_token_form, (key, form, callback), r),
        first_of_name(form_pairs(form@), grant, "grant_type"@),
        form_pairs(form@)[grant].1 == "authorization_code"@,
        first_of_name(form_pairs(form@), code, "code"@),
    ensures
        opened_code(key@, form_pairs(form@)[code].1) is None ==> (r matches Err(why) && why@
            == "code was not issued by this gateway"@),
        opened_code(key@, form_pairs(form@)[code].1) matches Some(sc) ==> {
            &&& first_of_name(form_pairs(form@), uri, "redirect_uri"@)
                && form_pairs(form@)[uri].1 == sc.redirect_uri ==> (r matches Ok(out)
                && is_swapped(
                form_pairs(form@),
                form_pairs(encode_utf8(out@)),
                sc.code,
                callback@,
            ))
            &&& first_of_name(form_pairs(form@), uri, "redirect_uri"@)
                && form_pairs(form@)[uri].1 != sc.redirect_uri ==> (r matches Err(why) && why@
                == "redirect_uri does not match the authorization request"@)
            &&& has_no(form_pairs(form@), "redirect_uri"@) ==> (r matches Err(why) && why@
                == "redirect_uri does not match the authorization request"@)
        },
{
    lemma_names_differ();
    let p = form_pairs(form@);
    lemma_lookup_at(p, "grant_type"@, grant);
    lemma_lookup_at(p, "code"@, code);
    if first_of_name(p, uri, "redirect_uri"@) {
        lemma_lookup_at(p, "redirect_uri"@, uri);
    }
    if has_no(p, "redirect_uri"@) {
        lemma_lookup_none(p, "redirect_uri"@);
    }
}

/// A form that redeems a code but holds none is refused.
pub proof fn forms_without_a_code_are_refused(
    key: &SealingKey,
    form: &[u8],
    callback: &str,
    r: Result<String, &'static str>,
    grant: int,
)
    requires
        call_ensures(rewrite_token_form, (key, form, callback), r),
        first_of_name(form_pairs(form@), grant, "grant_type"@),
        form_pairs(form@)[grant].1 == "authorization_code"@,
        has_no(form_pairs(form@), "code"@),
    ensures
        r matches Err(why) && why@ == "code was not issued by this gateway"@,
{
    lemma_lookup_at(form_pairs(form@), "grant_type"@, grant);
    lemma_lookup_none(form_pairs(form@), "code"@);
}

/// A form of another grant, or of none, goes on byte for byte where it is UTF-8, and as the nearest
/// text where it is not.
pub proof fn other_forms_go_on_as_they_are(
    key: &SealingKey,
    form: &[u8],
    callback: &str,
    r: Result<String, &'static str>,
    grant: int,
)
    requires
        call_ensures(rewrite_token_form, (key, form, callback), r),
        has_no(form_pairs(form@), "grant_type"@) || (first_of_name(
            form_pairs(form@),
            grant,
            "grant_type"@,
        ) && form_pairs(form@)[grant].1 != "authorization_code"@),
    ensures
        r matches Ok(out) && out@ == utf8_lossy(form@),
        valid_utf8(form@) ==> (r matches Ok(out) && encode_utf8(out@) == form@),
{
    let p = form_pairs(form@);
    if has_no(p, "grant_type"@) {
        lemma_lookup_none(p, "grant_type"@);
    } else {
        lemma_lookup_at(p, "grant_type"@, grant);
    }
}

} // verus!
