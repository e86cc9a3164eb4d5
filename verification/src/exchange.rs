//! Token requests through the gateway: the code that the client holds is swapped for the
//! provider's.
use crate::form::form_pairs;
use crate::form::form_text;
use crate::form::get;
use crate::form::lookup;
use crate::form::parse_form;
use crate::form::write_form;
use crate::text::lossy_text;
use crate::text::str_eq;
use crate::text::utf8_lossy;
use crate::seal::SealingKey;
use crate::token::opened_code;
use crate::token::CodeView;
use crate::token::SealedCode;
use vstd::prelude::*;
use vstd::utf8::encode_utf8;
use vstd::utf8::valid_utf8;

verus! {

/// A pair of the token request as the provider gets it: its own code, and the redirect URI that
/// it knows.
pub open spec fn swapped(
    pair: (Seq<char>, Seq<char>),
    code: Seq<char>,
    callback: Seq<char>,
) -> (Seq<char>, Seq<char>) {
    if pair.0 == "code"@ {
        (pair.0, code)
    } else if pair.0 == "redirect_uri"@ {
        (pair.0, callback)
    } else {
        pair
    }
}

/// All pairs of the token request as the provider gets them.
pub open spec fn swapped_pairs(
    pairs: Seq<(Seq<char>, Seq<char>)>,
    code: Seq<char>,
    callback: Seq<char>,
) -> Seq<(Seq<char>, Seq<char>)> {
    Seq::new(pairs.len(), |i: int| swapped(pairs[i], code, callback))
}

/// The request redeems a code.
pub open spec fn redeems_code(pairs: Seq<(Seq<char>, Seq<char>)>) -> bool {
    lookup(pairs, "grant_type"@) == Some("authorization_code"@)
}

/// What becomes of a token request with these pairs: nothing is swapped unless it redeems a code;
/// otherwise the new pairs, or why there are none. `sealed` is what the request's code holds.
pub open spec fn exchange_pairs_spec(
    pairs: Seq<(Seq<char>, Seq<char>)>,
    sealed: Option<CodeView>,
    callback: Seq<char>,
) -> Result<Option<Seq<(Seq<char>, Seq<char>)>>, Seq<char>> {
    if !redeems_code(pairs) {
        Ok(None)
    } else {
        match sealed {
            None => Err("code was not issued by this gateway"@),
            Some(sc) => if lookup(pairs, "redirect_uri"@) != Some(sc.redirect_uri) {
                Err("redirect_uri does not match the authorization request"@)
            } else {
                Ok(Some(swapped_pairs(pairs, sc.code, callback)))
            },
        }
    }
}

/// What the code of a token request holds under this key.
pub open spec fn redeemed(key: Seq<u8>, pairs: Seq<(Seq<char>, Seq<char>)>) -> Option<CodeView> {
    match lookup(pairs, "code"@) {
        Some(token) => opened_code(key, token),
        None => None,
    }
}

/// The token request that the provider gets for this one, or why it gets none.
pub open spec fn rewrite_token_form_spec(
    key: Seq<u8>,
    form: Seq<u8>,
    callback: Seq<char>,
) -> Result<Seq<char>, Seq<char>> {
    let pairs = form_pairs(form);
    match exchange_pairs_spec(pairs, redeemed(key, pairs), callback) {
        Err(why) => Err(why),
        Ok(None) => Ok(utf8_lossy(form)),
        Ok(Some(out)) => Ok(form_text(out)),
    }
}

/// What a rewriting hands back, as plain content.
pub open spec fn form_outcome(r: Result<String, &'static str>) -> Result<Seq<char>, Seq<char>> {
    match r {
        Ok(form) => Ok(form@),
        Err(why) => Err(why@),
    }
}

/// What an exchange hands back, as plain content.
pub open spec fn exchange_outcome(
    r: Result<Option<Vec<(String, String)>>, &'static str>,
) -> Result<Option<Seq<(Seq<char>, Seq<char>)>>, Seq<char>> {
    match r {
        Ok(pairs) => Ok(pairs.deep_view()),
        Err(why) => Err(why@),
    }
}

fn swap_pairs(pairs: &Vec<(String, String)>, code: &str, callback: &str) -> (r: Vec<
    (String, String),
>)
    ensures
        r.deep_view() == swapped_pairs(pairs.deep_view(), code@, callback@),
{
    let mut out: Vec<(String, String)> = Vec::new();
    let mut i: usize = 0;
    while i < pairs.len()
        invariant
            i <= pairs@.len(),
            out@.len() == i,
            forall|j: int|
                0 <= j < i ==> #[trigger] out.deep_view()[j] == swapped(
                    pairs.deep_view()[j],
                    code@,
                    callback@,
                ),
        decreases pairs@.len() - i,
    {
        let ghost before = out.deep_view();
        let k = pairs[i].0.as_str();
        let v = if str_eq(k, "code") {
            code
        } else if str_eq(k, "redirect_uri") {
            callback
        } else {
            pairs[i].1.as_str()
        };
        out.push((pairs[i].0.clone(), v.to_owned()));
        assert(out.deep_view() =~= before.push(
            swapped(pairs.deep_view()[i as int], code@, callback@),
        ));
        i += 1;
    }
    assert(out.deep_view() =~= swapped_pairs(pairs.deep_view(), code@, callback@));
    out
}

/// Decides on a token request. `sealed` is what the request's code holds.
pub fn exchange_pairs(
    pairs: &Vec<(String, String)>,
    sealed: &Option<SealedCode>,
    callback: &str,
) -> (r: Result<Option<Vec<(String, String)>>, &'static str>)
    ensures
        exchange_outcome(r) == exchange_pairs_spec(
            pairs.deep_view(),
            sealed.deep_view(),
            callback@,
        ),
{
    let redeems = match get(pairs, "grant_type") {
        Some(g) => str_eq(g, "authorization_code"),
        None => false,
    };
    if !redeems {
        return Ok(None);
    }
    let sc = match sealed {
        Some(sc) => sc,
        None => return Err("code was not issued by this gateway"),
    };
    let same = match get(pairs, "redirect_uri") {
        Some(u) => str_eq(u, sc.redirect_uri.as_str()),
        None => false,
    };
    if !same {
        return Err("redirect_uri does not match the authorization request");
    }
    Ok(Some(swap_pairs(pairs, sc.code.as_str(), callback)))
}

/// Swaps the sealed code for the provider's and the client's redirect URI for the gateway's
/// callback. Other grants pass through untouched; a form that is not UTF-8 is made so.
pub fn rewrite_token_form(key: &SealingKey, form: &[u8], callback: &str) -> (r: Result<
    String,
    &'static str,
>)
    ensures
        form_outcome(r) == rewrite_token_form_spec(key@, form@, callback@),
        !redeems_code(form_pairs(form@)) && valid_utf8(form@) ==> {
            &&& r matches Ok(out)
            &&& encode_utf8(out@) == form@
        },
        r matches Ok(out) ==> redeems_code(form_pairs(form@)) ==> form_pairs(encode_utf8(out@))
            == swapped_pairs(
            form_pairs(form@),
            redeemed(key@, form_pairs(form@))->0.code,
            callback@,
        ),
{
    let pairs = parse_form(form);
    let sealed = match get(&pairs, "code") {
        Some(token) => SealedCode::open(key, token),
        None => None,
    };
    match exchange_pairs(&pairs, &sealed, callback) {
        Err(why) => Err(why),
        Ok(None) => Ok(lossy_text(form)),
        Ok(Some(out)) => Ok(write_form(&out)),
    }
}

} // verus!
