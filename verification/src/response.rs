//! Interpreting the inference server's reply: extracting the embedded JSON
//! object between the outermost braces, and deciding the outcome of one
//! generation call from the HTTP status and the reply body.

use vstd::prelude::*;
use crate::errors::{ExtractError, GenError};
use crate::jsondoc::{
    get_string_field, json_text_ok, json_text_str_fields, parse_json_text,
};

verus! {

/// The generated site: full HTML markup, plain CSS text, plain JS text.
#[derive(Debug, PartialEq, Eq)]
pub struct Triple {
    pub html: String,
    pub css: String,
    pub js: String,
}

/// The slice of `s` from the first `{` to the last `}`, both inclusive;
/// empty when the last `}` comes before the first `{`.
pub open spec fn braced_slice(s: Seq<char>) -> Seq<char>
    recommends
        s.index_of_first('{') is Some,
        s.index_of_last('}') is Some,
{
    let a = s.index_of_first('{')->0;
    let b = s.index_of_last('}')->0;
    if a <= b {
        s.subrange(a, b + 1)
    } else {
        Seq::empty()
    }
}

/// What extraction yields on reply text `s`: the three field texts in the
/// order html, css, js, or the first failure on the way there.
pub open spec fn extract_outcome(s: Seq<char>) -> Result<
    (Seq<char>, Seq<char>, Seq<char>),
    ExtractError,
> {
    if s.index_of_first('{') is None {
        Err(ExtractError::NoStart)
    } else if s.index_of_last('}') is None {
        Err(ExtractError::NoEnd)
    } else if !json_text_ok(braced_slice(s)) {
        Err(ExtractError::NotJson)
    } else {
        let fields = json_text_str_fields(braced_slice(s));
        if !fields.contains_key("html"@) {
            Err(ExtractError::MissingHtml)
        } else if !fields.contains_key("css"@) {
            Err(ExtractError::MissingCss)
        } else if !fields.contains_key("js"@) {
            Err(ExtractError::MissingJs)
        } else {
            Ok((fields["html"@], fields["css"@], fields["js"@]))
        }
    }
}

/// The index of the first occurrence of `c` in `s`, if any.
fn find_first_char(s: &str, c: char) -> (r: Option<usize>)
    ensures
        (match r {
            Some(i) => s@.index_of_first(c) == Some(i as int),
            None => s@.index_of_first(c) is None,
        }),
{
    let n = s.unicode_len();
    let mut i: usize = 0;
    while i < n
        invariant
            i <= n,
            n == s@.len(),
            forall|j: int| 0 <= j < i ==> s@[j] != c,
        decreases n - i,
    {
        if s.get_char(i) == c {
            proof {
                s@.index_of_first_ensures(c);
                assert(s@.contains(c)) by {
                    assert(s@[i as int] == c);
                }
            }
            return Some(i);
        }
        i = i + 1;
    }
    proof {
        s@.index_of_first_ensures(c);
    }
    None
}

/// The index of the last occurrence of `c` in `s`, if any.
fn find_last_char(s: &str, c: char) -> (r: Option<usize>)
    ensures
        (match r {
            Some(i) => s@.index_of_last(c) == Some(i as int),
            None => s@.index_of_last(c) is None,
        }),
{
    let n = s.unicode_len();
    let mut i: usize = n;
    while i > 0
        invariant
            i <= n,
            n == s@.len(),
            forall|j: int| i <= j < n ==> s@[j] != c,
        decreases i,
    {
        i = i - 1;
        if s.get_char(i) == c {
            proof {
                s@.index_of_last_ensures(c);
                assert(s@.contains(c)) by {
                    assert(s@[i as int] == c);
                }
            }
            return Some(i);
        }
    }
    proof {
        s@.index_of_last_ensures(c);
    }
    None
}

/// Extracts the site triple embedded in the model's reply: takes the slice
/// from the first `{` to the last `}` and reads the string fields `html`,
/// `css` and `js` of the JSON object it forms.
pub fn extract_json_triple(s: &str) -> (r: Result<Triple, ExtractError>)
    ensures
        (match r {
            Ok(t) => extract_outcome(s@) == Ok::<_, ExtractError>((t.html@, t.css@, t.js@)),
            Err(e) => extract_outcome(s@) == Err::<(Seq<char>, Seq<char>, Seq<char>), _>(e),
        }),
{
    let n = s.unicode_len();
    let start = match find_first_char(s, '{') {
        Some(i) => i,
        None => {
            return Err(ExtractError::NoStart);
        },
    };
    let end = match find_last_char(s, '}') {
        Some(i) => i,
        None => {
            return Err(ExtractError::NoEnd);
        },
    };
    proof {
        s@.index_of_first_ensures('{');
        s@.index_of_last_ensures('}');
        assert(end < n);
    }
    let slice: &str = if start <= end {
        s.substring_char(start, end + 1)
    } else {
        ""
    };
    proof {
        if start > end {
            reveal_strlit("");
            assert(slice@ =~= braced_slice(s@));
        }
        assert(slice@ == braced_slice(s@));
    }
    let parsed = match parse_json_text(slice) {
        Ok(v) => v,
        Err(_) => {
            return Err(ExtractError::NotJson);
        },
    };
    let html = match get_string_field(&parsed, "html") {
        Some(f) => f,
        None => {
            return Err(ExtractError::MissingHtml);
        },
    };
    let css = match get_string_field(&parsed, "css") {
        Some(f) => f,
        None => {
            return Err(ExtractError::MissingCss);
        },
    };
    let js = match get_string_field(&parsed, "js") {
        Some(f) => f,
        None => {
            return Err(ExtractError::MissingJs);
        },
    };
    Ok(Triple { html, css, js })
}

/// Whether an HTTP status code lies in the success range.
pub fn status_is_success(status: u16) -> (r: bool)
    ensures
        r == (200 <= status < 300),
{
    200 <= status && status < 300
}

/// What one generation call yields once the HTTP reply is in hand: a
/// failing status fails at once; otherwise the body must be a JSON object
/// with a string field `response`, and the triple is extracted from that
/// text.
pub open spec fn response_outcome(status: u16, body: Seq<char>) -> Result<
    (Seq<char>, Seq<char>, Seq<char>),
    GenError,
> {
    if !(200 <= status < 300) {
        Err(GenError::BadStatus(status))
    } else if !json_text_ok(body) {
        Err(GenError::BodyNotJson)
    } else if !json_text_str_fields(body).contains_key("response"@) {
        Err(GenError::MissingResponse)
    } else {
        match extract_outcome(json_text_str_fields(body)["response"@]) {
            Ok(t) => Ok(t),
            Err(e) => Err(GenError::Extract(e)),
        }
    }
}

/// Decides one generation call from the HTTP status and the reply body.
/// On any status outside the success range it fails without looking at the
/// body.
pub fn process_response(status: u16, body: &str) -> (r: Result<Triple, GenError>)
    ensures
        (match r {
            Ok(t) => response_outcome(status, body@) == Ok::<_, GenError>(
                (t.html@, t.css@, t.js@),
            ),
            Err(e) => response_outcome(status, body@) == Err::<
                (Seq<char>, Seq<char>, Seq<char>),
                _,
            >(e),
        }),
        !(200 <= status < 300) ==> r == Err::<Triple, GenError>(GenError::BadStatus(status)),
{
    if !status_is_success(status) {
        return Err(GenError::BadStatus(status));
    }
    let parsed = match parse_json_text(body) {
        Ok(v) => v,
        Err(_) => {
            return Err(GenError::BodyNotJson);
        },
    };
    let reply_text = match get_string_field(&parsed, "response") {
        Some(f) => f,
        None => {
            return Err(GenError::MissingResponse);
        },
    };
    match extract_json_triple(reply_text.as_str()) {
        Ok(t) => Ok(t),
        Err(e) => Err(GenError::Extract(e)),
    }
}

/// Law: a reply whose outermost braces enclose valid JSON carrying string
/// fields `html`, `css` and `js` extracts exactly those three texts,
/// unmodified and in that order.
pub proof fn lemma_extract_complete(s: Seq<char>)
    requires
        s.index_of_first('{') is Some,
        s.index_of_last('}') is Some,
        json_text_ok(braced_slice(s)),
        json_text_str_fields(braced_slice(s)).contains_key("html"@),
        json_text_str_fields(braced_slice(s)).contains_key("css"@),
        json_text_str_fields(braced_slice(s)).contains_key("js"@),
    ensures
        extract_outcome(s) == Ok::<_, ExtractError>(
            (
                json_text_str_fields(braced_slice(s))["html"@],
                json_text_str_fields(braced_slice(s))["css"@],
                json_text_str_fields(braced_slice(s))["js"@],
            ),
        ),
{
}

/// Law: a reply with no `{` or no `}` never extracts a triple; the outcome
/// is an error, and it says which brace was missing.
pub proof fn lemma_extract_needs_braces(s: Seq<char>)
    requires
        s.index_of_first('{') is None || s.index_of_last('}') is None,
    ensures
        extract_outcome(s) is Err,
        s.index_of_first('{') is None ==> extract_outcome(s) == Err::<
            (Seq<char>, Seq<char>, Seq<char>),
            _,
        >(ExtractError::NoStart),
        s.index_of_first('{') is Some ==> extract_outcome(s) == Err::<
            (Seq<char>, Seq<char>, Seq<char>),
            _,
        >(ExtractError::NoEnd),
{
}

/// Law: when the braced slice parses as JSON but one of the three required
/// fields is absent, the failure names the first absent field and is not
/// the parse failure.
pub proof fn lemma_extract_names_missing_field(s: Seq<char>)
    requires
        s.index_of_first('{') is Some,
        s.index_of_last('}') is Some,
        json_text_ok(braced_slice(s)),
        !(json_text_str_fields(braced_slice(s)).contains_key("html"@)
            && json_text_str_fields(braced_slice(s)).contains_key("css"@)
            && json_text_str_fields(braced_slice(s)).contains_key("js"@)),
    ensures
        extract_outcome(s) is Err,
        extract_outcome(s) != Err::<(Seq<char>, Seq<char>, Seq<char>), _>(ExtractError::NotJson),
        !json_text_str_fields(braced_slice(s)).contains_key("html"@) ==> extract_outcome(s)
            == Err::<(Seq<char>, Seq<char>, Seq<char>), _>(ExtractError::MissingHtml),
        json_text_str_fields(braced_slice(s)).contains_key("html"@) && !json_text_str_fields(
            braced_slice(s),
        ).contains_key("css"@) ==> extract_outcome(s) == Err::<
            (Seq<char>, Seq<char>, Seq<char>),
            _,
        >(ExtractError::MissingCss),
        json_text_str_fields(braced_slice(s)).contains_key("html"@) && json_text_str_fields(
            braced_slice(s),
        ).contains_key("css"@) && !json_text_str_fields(braced_slice(s)).contains_key("js"@)
            ==> extract_outcome(s) == Err::<(Seq<char>, Seq<char>, Seq<char>), _>(
            ExtractError::MissingJs,
        ),
{
}

/// Law: a status outside the success range fails the call before the body
/// is looked at: the outcome is the status failure, whatever the body.
pub proof fn lemma_bad_status_fails_first(status: u16, body: Seq<char>)
    requires
        !(200 <= status < 300),
    ensures
        response_outcome(status, body) == Err::<(Seq<char>, Seq<char>, Seq<char>), _>(
            GenError::BadStatus(status),
        ),
{
}

} // verus!
