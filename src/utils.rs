//! Request lines for the log, with secret query values masked.
use vstd::prelude::*;

verus! {

/// What `form_urlencoded::parse` yields for a query text: its decoded
/// name/value pairs, in order.
pub uninterp spec fn form_parse(s: Seq<char>) -> Seq<(Seq<char>, Seq<char>)>;

/// What `form_urlencoded::Serializer` writes for a list of name/value pairs.
pub uninterp spec fn form_serialize(pairs: Seq<(Seq<char>, Seq<char>)>) -> Seq<char>;

/// Relies on `form_urlencoded::parse`: the decoded pairs of a query text;
/// an empty text has none.
#[verifier::external_body]
pub(crate) fn parse_pairs(s: &str) -> (r: Vec<(String, String)>)
    ensures
        r.deep_view() == form_parse(s@),
        s@.len() == 0 ==> r@.len() == 0,
{
    url::form_urlencoded::parse(s.as_bytes()).into_owned().collect()
}

/// Relies on `form_urlencoded::Serializer` (`extend_pairs`, `finish`): the
/// encoded pairs; it writes `name=` for each pair, so the text is empty
/// exactly when there are no pairs.
#[verifier::external_body]
pub(crate) fn serialize_pairs(pairs: &Vec<(String, String)>) -> (r: String)
    ensures
        r@ == form_serialize(pairs.deep_view()),
        r@.len() == 0 <==> pairs@.len() == 0,
{
    url::form_urlencoded::Serializer::new(String::new()).extend_pairs(pairs).finish()
}

/// A text between an ANSI foreground colour code and the code that resets it.
pub open spec fn ansi_fg(code: Seq<char>, s: Seq<char>) -> Seq<char> {
    seq!['\x1b', '['] + code + seq!['m'] + s + seq!['\x1b', '[', '3', '9', 'm']
}

/// Relies on `owo_colors::OwoColorize::green`, whose display writes
/// `ESC[32m`, the text, then `ESC[39m`.
#[verifier::external_body]
fn green(s: &str) -> (r: String)
    ensures
        r@ == ansi_fg(seq!['3', '2'], s@),
{
    format!("{}", owo_colors::OwoColorize::green(&s))
}

/// Relies on `owo_colors::OwoColorize::cyan`, whose display writes
/// `ESC[36m`, the text, then `ESC[39m`.
#[verifier::external_body]
fn cyan(s: &str) -> (r: String)
    ensures
        r@ == ansi_fg(seq!['3', '6'], s@),
{
    format!("{}", owo_colors::OwoColorize::cyan(&s))
}

/// The text logged in place of a secret query value.
pub open spec fn redaction_mark() -> Seq<char> {
    "******REDACTED******"@
}

/// Query keys whose values never reach the log.
pub open spec fn is_secret_key(k: Seq<char>) -> bool {
    k == "apiKey"@ || k == "access_token"@
}

/// The pairs with each secret value replaced by the mark.
pub open spec fn redact(pairs: Seq<(Seq<char>, Seq<char>)>) -> Seq<(Seq<char>, Seq<char>)> {
    Seq::new(
        pairs.len(),
        |i: int|
            if is_secret_key(pairs[i].0) {
                (pairs[i].0, redaction_mark())
            } else {
                pairs[i]
            },
    )
}

/// An encoded query as it follows a path: `?` and the text, or nothing.
pub open spec fn query_suffix_of(q: Seq<char>) -> Seq<char> {
    if q.len() == 0 {
        Seq::empty()
    } else {
        seq!['?'] + q
    }
}

/// The query part of a logged path for the query text `q`.
pub open spec fn logged_query(q: Seq<char>) -> Seq<char> {
    query_suffix_of(form_serialize(redact(form_parse(q))))
}

/// Replaces the value of every pair keyed `apiKey` or `access_token` with the
/// redaction mark; every other pair, and the order, stay as they are.
pub fn redact_pairs(pairs: Vec<(String, String)>) -> (r: Vec<(String, String)>)
    ensures
        r.deep_view() == redact(pairs.deep_view()),
        r@.len() == pairs@.len(),
        forall|i: int|
            0 <= i < pairs@.len() ==> {
                &&& (#[trigger] r.deep_view()[i]).0 == pairs.deep_view()[i].0
                &&& r.deep_view()[i].1 == if is_secret_key(pairs.deep_view()[i].0) {
                    redaction_mark()
                } else {
                    pairs.deep_view()[i].1
                }
            },
{
    let api_key = String::from_str("apiKey");
    let access_token = String::from_str("access_token");
    let mut out: Vec<(String, String)> = Vec::new();
    let mut i: usize = 0;
    while i < pairs.len()
        invariant
            i <= pairs@.len(),
            api_key@ == "apiKey"@,
            access_token@ == "access_token"@,
            out@.len() == i,
            forall|k: int| 0 <= k < i ==> #[trigger] out.deep_view()[k] == redact(pairs.deep_view())[k],
        decreases pairs@.len() - i,
    {
        let key = pairs[i].0.clone();
        let value = if key == api_key || key == access_token {
            String::from_str("******REDACTED******")
        } else {
            pairs[i].1.clone()
        };
        proof {
            reveal_strlit("apiKey");
            reveal_strlit("access_token");
            reveal_strlit("******REDACTED******");
        }
        let ghost before = out@;
        let ghost before_deep = out.deep_view();
        out.push((key, value));
        proof {
            assert(out@ == before.push((key, value)));
            assert(out.deep_view()[i as int] == redact(pairs.deep_view())[i as int]);
            assert forall|k: int| 0 <= k < i implies #[trigger] out.deep_view()[k] == redact(
                pairs.deep_view(),
            )[k] by {
                assert(before_deep[k] == redact(pairs.deep_view())[k]);
                assert(out@[k] == before[k]);
                assert(out.deep_view()[k] == before[k].deep_view());
            }
        }
        i = i + 1;
    }
    assert(out.deep_view() =~= redact(pairs.deep_view()));
    out
}

/// `?` followed by an encoded query, or nothing for an empty one.
pub fn query_suffix(encoded: String) -> (r: String)
    ensures
        r@ == query_suffix_of(encoded@),
{
    if encoded.unicode_len() == 0 {
        encoded
    } else {
        let mut r = String::from_str("?");
        r.append(encoded.as_str());
        proof {
            reveal_strlit("?");
            assert(r@ =~= seq!['?'] + encoded@);
        }
        r
    }
}

/// The query as it is logged: decoded, secret values masked, encoded again,
/// behind a `?` unless it is empty.
pub fn format_query(uri: &str) -> (r: String)
    ensures
        r@ == logged_query(uri@),
        uri@.len() == 0 ==> r@.len() == 0,
{
    let parsed = parse_pairs(uri);
    let redacted = redact_pairs(parsed);
    let encoded = serialize_pairs(&redacted);
    query_suffix(encoded)
}

/// A request as it is logged: the method in green, then the path and its
/// logged query in cyan.
pub fn format_req(method: &str, path: &str, query: Option<&str>) -> (r: String)
    ensures
        r@ == ansi_fg(seq!['3', '2'], method@) + seq![' '] + ansi_fg(
            seq!['3', '6'],
            path@ + match query {
                Some(q) => logged_query(q@),
                None => Seq::empty(),
            },
        ),
{
    let q = match query {
        Some(q) => format_query(q),
        None => format_query(""),
    };
    let mut full = String::from_str(path);
    full.append(q.as_str());
    let mut r = green(method);
    r.append(" ");
    let coloured = cyan(full.as_str());
    r.append(coloured.as_str());
    proof {
        reveal_strlit("");
        reveal_strlit(" ");
        if query is None {
            assert(q@ =~= Seq::<char>::empty());
        }
        assert(full@ =~= path@ + match query {
            Some(q) => logged_query(q@),
            None => Seq::empty(),
        });
    }
    r
}

} // verus!
