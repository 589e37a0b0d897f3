//! Query-string assembly: each present parameter is percent-encoded and
//! joined with `&`, the first one prefixed with `?`; absent parameters
//! contribute nothing.

use vstd::prelude::*;
use crate::text;

verus! {

/// Whether percent-encoding leaves a character unchanged: ASCII
/// alphanumerics and `-`, `.`, `_`, `~`.
pub open spec fn is_unreserved(c: char) -> bool {
    ('0' <= c && c <= '9') || ('A' <= c && c <= 'Z') || ('a' <= c && c <= 'z') || c == '-' || c
        == '.' || c == '_' || c == '~'
}

/// The uppercase hexadecimal digit character for a value below sixteen.
pub open spec fn spec_hex_digit(d: int) -> char {
    if d == 0 {
        '0'
    } else if d == 1 {
        '1'
    } else if d == 2 {
        '2'
    } else if d == 3 {
        '3'
    } else if d == 4 {
        '4'
    } else if d == 5 {
        '5'
    } else if d == 6 {
        '6'
    } else if d == 7 {
        '7'
    } else if d == 8 {
        '8'
    } else if d == 9 {
        '9'
    } else if d == 10 {
        'A'
    } else if d == 11 {
        'B'
    } else if d == 12 {
        'C'
    } else if d == 13 {
        'D'
    } else if d == 14 {
        'E'
    } else {
        'F'
    }
}

/// The percent-encoding of one ASCII character.
pub open spec fn spec_encode_char(c: char) -> Seq<char> {
    if is_unreserved(c) {
        seq![c]
    } else {
        seq!['%', spec_hex_digit((c as int) / 16), spec_hex_digit((c as int) % 16)]
    }
}

/// The percent-encoding of a sequence of ASCII characters, character by
/// character (for ASCII text the UTF-8 bytes are the characters).
pub open spec fn spec_encode_ascii(s: Seq<char>) -> Seq<char>
    decreases s.len(),
{
    if s.len() == 0 {
        Seq::<char>::empty()
    } else {
        spec_encode_char(s[0]) + spec_encode_ascii(s.drop_first())
    }
}

/// What `urlencoding::encode` returns for a given string: a pure function
/// of the characters alone.
pub uninterp spec fn percent_encoded(s: Seq<char>) -> Seq<char>;

/// Relies on `urlencoding::encode`: it percent-encodes every byte of the
/// UTF-8 form except ASCII alphanumerics and `-`, `.`, `_`, `~`, using
/// uppercase hexadecimal digits, and depends on the input alone; on ASCII
/// input the bytes are exactly the characters.
#[verifier::external_body]
pub(crate) fn percent_encode(s: &str) -> (r: String)
    ensures
        r@ == percent_encoded(s@),
        vstd::utf8::is_ascii_chars(s@) ==> r@ == spec_encode_ascii(s@),
{
    urlencoding::encode(s).into_owned()
}

/// One assembly step: how a query string grows by one (key, optional value)
/// parameter. A present value is percent-encoded and appended as
/// `key=value`, prefixed with `?` if the query is still empty and with `&`
/// otherwise; an absent value leaves the query unchanged.
pub open spec fn spec_query_step(acc: Seq<char>, key: Seq<char>, value: Option<Seq<char>>) -> Seq<
    char,
> {
    match value {
        Option::Some(v) => if acc.len() == 0 {
            acc + "?"@ + key + "="@ + percent_encoded(v)
        } else {
            acc + "&"@ + key + "="@ + percent_encoded(v)
        },
        Option::None => acc,
    }
}

/// The query string of a list of (key, optional value) parameters, built
/// left to right by [`spec_query_step`].
pub open spec fn spec_query_string(params: Seq<(Seq<char>, Option<Seq<char>>)>) -> Seq<char>
    decreases params.len(),
{
    if params.len() == 0 {
        Seq::<char>::empty()
    } else {
        spec_query_step(
            spec_query_string(params.drop_last()),
            params.last().0,
            params.last().1,
        )
    }
}

/// Appends one (key, optional value) parameter to a query string under
/// construction.
pub fn append_query_param(query: &mut String, key: &str, value: Option<&str>)
    ensures
        final (query)@ == spec_query_step(
            old(query)@,
            key@,
            match value {
                Option::Some(v) => Option::Some(v@),
                Option::None => Option::<Seq<char>>::None,
            },
        ),
{
    match value {
        Option::Some(v) => {
            let encoded = percent_encode(v);
            if query.as_str().is_empty() {
                let appended = text::concat4("?", key, "=", encoded.as_str());
                query.append(appended.as_str());
                assert(query@ =~= old(query)@ + "?"@ + key@ + "="@ + percent_encoded(v@));
            } else {
                let appended = text::concat4("&", key, "=", encoded.as_str());
                query.append(appended.as_str());
                assert(query@ =~= old(query)@ + "&"@ + key@ + "="@ + percent_encoded(v@));
            }
        },
        Option::None => {},
    }
}

/// The view of an optional string parameter value.
pub open spec fn spec_opt_str(v: Option<String>) -> Option<Seq<char>> {
    match v {
        Option::Some(s) => Option::Some(s@),
        Option::None => Option::None,
    }
}

/// The view of an optional numeric parameter value, rendered in decimal.
pub open spec fn spec_opt_decimal(v: Option<u64>) -> Option<Seq<char>> {
    match v {
        Option::Some(n) => Option::Some(text::spec_decimal(n as int)),
        Option::None => Option::None,
    }
}

/// Borrows an optional string parameter value.
pub fn opt_as_str(v: &Option<String>) -> (r: Option<&str>)
    ensures
        match v {
            Option::Some(s) => r matches Option::Some(rs) && rs@ == s@,
            Option::None => r is None,
        },
{
    match v {
        Option::Some(s) => Option::Some(s.as_str()),
        Option::None => Option::None,
    }
}

/// Extending a parameter list by one parameter extends its query string by
/// one assembly step.
pub proof fn lemma_query_string_push(
    params: Seq<(Seq<char>, Option<Seq<char>>)>,
    key: Seq<char>,
    value: Option<Seq<char>>,
)
    ensures
        spec_query_string(params.push((key, value))) == spec_query_step(
            spec_query_string(params),
            key,
            value,
        ),
{
    assert(params.push((key, value)).drop_last() =~= params);
}

/// A parameter whose value is absent contributes nothing to the query
/// string.
pub proof fn lemma_absent_value_contributes_nothing(
    params: Seq<(Seq<char>, Option<Seq<char>>)>,
    key: Seq<char>,
)
    ensures
        spec_query_string(params.push((key, Option::None))) == spec_query_string(params),
{
    let pushed = params.push((key, Option::<Seq<char>>::None));
    assert(pushed.drop_last() =~= params);
}

/// A parameter list whose values are all absent renders the empty query.
pub proof fn lemma_all_absent_renders_empty(params: Seq<(Seq<char>, Option<Seq<char>>)>)
    requires
        forall|i: int| 0 <= i < params.len() ==> #[trigger] params[i].1 is None,
    ensures
        spec_query_string(params).len() == 0,
    decreases params.len(),
{
    if params.len() > 0 {
        lemma_all_absent_renders_empty(params.drop_last());
    }
}

/// A non-empty query string starts with `?`.
pub proof fn lemma_query_starts_with_question_mark(params: Seq<(Seq<char>, Option<Seq<char>>)>)
    ensures
        spec_query_string(params).len() > 0 ==> spec_query_string(params)[0] == '?',
    decreases params.len(),
{
    reveal_strlit("?");
    reveal_strlit("&");
    reveal_strlit("=");
    if params.len() > 0 {
        lemma_query_starts_with_question_mark(params.drop_last());
    }
}

} // verus!
