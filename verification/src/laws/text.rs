//! Laws of texts, numerals, pairs and URLs.
use crate::clock::reading_secs;
use crate::form::get;
use crate::form::query_pairs;
use crate::form::form_pairs;
use crate::form::lemma_lookup_at;
use crate::form::lemma_lookup_none;
use crate::text::decimal;
use crate::text::decimal_text;
use crate::text::digit;
use crate::text::ends_with;
use crate::text::first_index;
use crate::text::join;
use crate::text::lemma_first_index;
use crate::text::lemma_first_index_unique;
use crate::text::signed_decimal;
use crate::text::split_once;
use crate::text::str_eq;
use crate::text::strip_prefix;
use crate::text::strip_suffix;
use crate::weburl::fits;
use crate::weburl::own_pairs;
use crate::weburl::params_len;
use crate::weburl::query_of;
use vstd::prelude::*;
use vstd::utf8::encode_utf8;

verus! {

/// Two texts are told apart exactly where they differ.
pub proof fn equality_is_of_texts(a: &str, b: &str, r: bool)
    requires
        call_ensures(str_eq, (a, b), r),
    ensures
        r <==> a@ == b@,
{
}

/// A prefix comes off exactly where the text is the prefix and a rest, and leaves the rest.
pub proof fn prefix_and_rest_make_the_text(s: &str, prefix: &str, rest: Seq<char>, r: Option<&str>)
    requires
        call_ensures(strip_prefix, (s, prefix), r),
    ensures
        r matches Some(left) ==> s@ == prefix@ + left@,
        s@ == prefix@ + rest ==> (r matches Some(left) && left@ == rest),
{
    if s@ == prefix@ + rest {
        assert(s@.subrange(0, prefix@.len() as int) =~= prefix@);
        assert(s@.subrange(prefix@.len() as int, s@.len() as int) =~= rest);
    }
    if let Some(left) = r {
        assert(s@ =~= s@.subrange(0, prefix@.len() as int) + s@.subrange(
            prefix@.len() as int,
            s@.len() as int,
        ));
    }
}

/// A suffix comes off exactly where the text is a rest and the suffix, and leaves the rest.
pub proof fn rest_and_suffix_make_the_text(
    s: &str,
    suffix: &str,
    rest: Seq<char>,
    r: Option<&str>,
    ends: bool,
)
    requires
        call_ensures(strip_suffix, (s, suffix), r),
        call_ensures(ends_with, (s, suffix), ends),
    ensures
        r matches Some(left) ==> s@ == left@ + suffix@,
        s@ == rest + suffix@ ==> (r matches Some(left) && left@ == rest),
        ends <==> r is Some,
{
    if s@ == rest + suffix@ {
        assert(s@.subrange(s@.len() - suffix@.len(), s@.len() as int) =~= suffix@);
        assert(s@.subrange(0, s@.len() - suffix@.len()) =~= rest);
    }
    if let Some(left) = r {
        assert(s@ =~= s@.subrange(0, s@.len() - suffix@.len()) + s@.subrange(
            s@.len() - suffix@.len(),
            s@.len() as int,
        ));
    }
}

/// A text is parted at its first separator: the halves with the separator between them make the
/// text, the first half has none, and a text without one is not parted.
pub proof fn halves_make_the_text(
    s: &str,
    c: char,
    a: Seq<char>,
    b: Seq<char>,
    r: Option<(&str, &str)>,
)
    requires
        call_ensures(split_once, (s, c), r),
    ensures
        r matches Some((x, y)) ==> s@ == x@ + seq![c] + y@ && !x@.contains(c),
        s@ == a + seq![c] + b && !a.contains(c) ==> (r matches Some((x, y)) && x@ == a && y@ == b),
        !s@.contains(c) ==> r is None,
{
    lemma_first_index(s@, c);
    let i = first_index(s@, c);
    if i < s@.len() {
        assert(s@ =~= s@.subrange(0, i) + seq![c] + s@.subrange(i + 1, s@.len() as int));
        assert forall|j: int| 0 <= j < i implies #[trigger] s@.subrange(0, i)[j] != c by {
            assert(s@.subrange(0, i)[j] == s@[j]);
        }
        assert(s@[i] == c);
    }
    if s@ == a + seq![c] + b && !a.contains(c) {
        assert forall|j: int| 0 <= j < a.len() implies s@[j] != c by {
            assert(s@[j] == a[j]);
        }
        lemma_first_index_unique(s@, c, a.len() as int);
        assert(s@.subrange(0, a.len() as int) =~= a);
        assert(s@.subrange(a.len() + 1int, s@.len() as int) =~= b);
    }
}

/// Two texts joined: the first is in front, the second behind, and nothing is between.
pub proof fn joined_texts(a: &str, b: &str, r: String)
    requires
        call_ensures(join, (a, b), r),
    ensures
        r@.len() == a@.len() + b@.len(),
        forall|i: int| 0 <= i < a@.len() ==> r@[i] == a@[i],
        forall|i: int| 0 <= i < b@.len() ==> r@[a@.len() + i] == b@[i],
{
}

/// The number that a row of decimal digits stands for.
pub open spec fn numeral_value(s: Seq<char>) -> int
    decreases s.len(),
{
    if s.len() == 0 {
        0
    } else {
        10 * numeral_value(s.drop_last()) + (s.last() as int - 48)
    }
}

/// A numeral stands for its number, has digits only, and begins with a zero only where that is
/// all.
pub proof fn numerals_stand_for_their_number(n: nat)
    ensures
        numeral_value(decimal(n)) == n,
        decimal(n).len() > 0,
        forall|i: int| 0 <= i < decimal(n).len() ==> 48 <= #[trigger] decimal(n)[i] as int <= 57,
        decimal(n)[0] as int == 48 ==> n == 0 && decimal(n).len() == 1,
    decreases n,
{
    reveal_with_fuel(numeral_value, 2);
    if n < 10 {
        assert(seq![digit(n)].drop_last() =~= Seq::empty());
        assert(decimal(n).last() == digit(n));
        assert(digit(n) as int == 48 + n);
    } else {
        numerals_stand_for_their_number(n / 10);
        assert(decimal(n).drop_last() =~= decimal(n / 10));
        assert(decimal(n).last() == digit(n % 10));
        assert(digit(n % 10) as int == 48 + n % 10);
        assert(decimal(n)[0] == decimal(n / 10)[0]);
    }
}

/// The numeral that is written of a number stands for it.
pub proof fn written_numerals(n: u64, r: String)
    requires
        call_ensures(decimal_text, (n,), r),
    ensures
        numeral_value(r@) == n,
        r@.len() > 0,
        forall|i: int| 0 <= i < r@.len() ==> 48 <= #[trigger] r@[i] as int <= 57,
        r@[0] as int == 48 ==> r@.len() == 1,
{
    numerals_stand_for_their_number(n as nat);
}

/// A negative number is a minus sign and the numeral of its opposite.
pub proof fn signs_stand_in_front(n: nat)
    ensures
        signed_decimal(n as int) == decimal(n),
        n > 0 ==> signed_decimal(-n) == seq!['-'] + decimal(n),
{
    reveal_strlit("-");
    assert("-"@ =~= seq!['-']);
}

/// Looking up finds the value of the first pair with the name, and nothing without one.
pub proof fn lookup_finds_the_first(pairs: &Vec<(String, String)>, key: &str, i: int, r: Option<&str>)
    requires
        call_ensures(get, (pairs, key), r),
    ensures
        0 <= i < pairs@.len() && pairs@[i].0@ == key@ && (forall|j: int|
            0 <= j < i ==> (#[trigger] pairs@[j]).0@ != key@) ==> (r matches Some(v) && v@
            == pairs@[i].1@),
        (forall|j: int| 0 <= j < pairs@.len() ==> (#[trigger] pairs@[j]).0@ != key@) ==> r is None,
{
    let p = pairs.deep_view();
    assert(forall|j: int| 0 <= j < p.len() ==> #[trigger] p[j] == (pairs@[j].0@, pairs@[j].1@));
    if 0 <= i < pairs@.len() && pairs@[i].0@ == key@ && (forall|j: int|
        0 <= j < i ==> (#[trigger] pairs@[j]).0@ != key@) {
        lemma_lookup_at(p, key@, i);
    }
    if forall|j: int| 0 <= j < pairs@.len() ==> (#[trigger] pairs@[j]).0@ != key@ {
        lemma_lookup_none(p, key@);
    }
}

/// A request without a query has no pairs; one with a query has those of the query.
pub proof fn queries_hold_their_pairs(query: Option<&str>, r: Vec<(String, String)>)
    requires
        call_ensures(query_pairs, (query,), r),
    ensures
        query is None ==> r@.len() == 0,
        query matches Some(q) ==> r.deep_view() == form_pairs(encode_utf8(q@)),
{
    assert(r.deep_view().len() == r@.len());
}

/// A clock that is set after the epoch gives its whole seconds, any other gives zero.
pub proof fn clock_readings(
    reading: Result<std::time::Duration, std::time::SystemTimeError>,
    r: u64,
)
    requires
        call_ensures(reading_secs, (reading,), r),
    ensures
        reading matches Ok(d) ==> r == crate::clock::whole_seconds(d),
        reading is Err ==> r == 0,
{
}

/// The length of pairs adds up: each pair counts its name, its value and two separators.
pub proof fn lengths_add_up(
    a: Seq<(Seq<char>, Seq<char>)>,
    b: Seq<(Seq<char>, Seq<char>)>,
    name: Seq<char>,
    value: Seq<char>,
)
    ensures
        params_len(Seq::empty()) == 0,
        params_len(seq![(name, value)]) == name.len() + value.len() + 2,
        params_len(a + b) == params_len(a) + params_len(b),
    decreases b.len(),
{
    reveal_with_fuel(params_len, 2);
    assert(seq![(name, value)].drop_last() =~= Seq::empty());
    if b.len() == 0 {
        assert(a + b =~= a);
    } else {
        lengths_add_up(a, b.drop_last(), name, value);
        assert((a + b).drop_last() =~= a + b.drop_last());
        assert((a + b).last() == b.last());
    }
}

/// A URL and its pairs fit exactly where together they are no longer than the limit.
pub proof fn fitting_is_a_matter_of_length(uri: &str, params: &Vec<(String, String)>, r: bool)
    requires
        call_ensures(fits, (uri, params), r),
    ensures
        r <==> uri@.len() + params_len(params.deep_view()) <= 0x200_0000,
{
}

/// The query of a URL stands between its first `?` and its fragment.
pub proof fn queries_stand_before_the_fragment(
    head: Seq<char>,
    query: Seq<char>,
    fragment: Seq<char>,
)
    requires
        !head.contains('?'),
        !head.contains('#'),
        !query.contains('#'),
    ensures
        query_of(head) is None,
        query_of(head + seq!['?'] + query) == Some(query),
        query_of(head + seq!['?'] + query + seq!['#'] + fragment) == Some(query),
        query_of(head + seq!['#'] + fragment) is None,
        own_pairs(head).len() == 0,
        own_pairs(head + seq!['?'] + query) == form_pairs(encode_utf8(query)),
{
    let a = head + seq!['?'] + query;
    let b = a + seq!['#'] + fragment;
    let c = head + seq!['#'] + fragment;
    assert forall|j: int| 0 <= j < head.len() implies head[j] != '?' && head[j] != '#' by {
        assert(head.contains(head[j]));
    }
    assert forall|j: int| 0 <= j < query.len() implies query[j] != '#' by {
        assert(query.contains(query[j]));
    }
    assert forall|j: int| 0 <= j < a.len() implies a[j] != '#' by {
        if j < head.len() {
            assert(a[j] == head[j]);
        } else if j > head.len() {
            assert(a[j] == query[j - head.len() - 1]);
        }
    }
    lemma_first_index_unique(head, '#', head.len() as int);
    lemma_first_index_unique(head, '?', head.len() as int);
    lemma_first_index_unique(a, '#', a.len() as int);
    lemma_first_index_unique(a, '?', head.len() as int);
    lemma_first_index_unique(b, '#', a.len() as int);
    lemma_first_index_unique(c, '#', head.len() as int);
    assert(head.subrange(0, head.len() as int) =~= head);
    assert(a.subrange(0, a.len() as int) =~= a);
    assert(b.subrange(0, a.len() as int) =~= a);
    assert(c.subrange(0, head.len() as int) =~= head);
    assert(a.subrange(head.len() + 1int, a.len() as int) =~= query);
}

} // verus!
