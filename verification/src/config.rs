use vstd::prelude::*;
use crate::text::{
    concat_str,
    is_white_space,
    lemma_split_on_count,
    lemma_split_on_no_sep,
    lemma_split_on_whole,
    lemma_trim_ends,
    lemma_trim_within,
    occurrences,
    split_on,
    split_trimmed,
    trim,
    trim_all,
    trim_offset,
    views_of,
};

verus! {

/// What `url::Url::parse` makes of a text: the URL's serialization, or the text of the
/// parse error.
pub uninterp spec fn url_parse(text: Seq<char>) -> Result<Seq<char>, Seq<char>>;

/// Calls `url::Url::parse(text)` and hands back the parsed URL's serialization
/// (`Url::as_str`) or the error's `Display` text.
/// Claimed: the outcome depends on `text` alone. What the URL standard makes of the text
/// (normalisation, which texts are refused) is not restated here.
#[verifier::external_body]
fn parse_url_text(text: &str) -> (r: Result<String, String>)
    ensures
        match r {
            Ok(u) => url_parse(text@) == Ok::<Seq<char>, Seq<char>>(u@),
            Err(e) => url_parse(text@) == Err::<Seq<char>, Seq<char>>(e@),
        },
{
    match url::Url::parse(text) {
        Ok(u) => Ok(u.as_str().to_string()),
        Err(e) => Err(e.to_string()),
    }
}

/// The outcome of checking an `ODOO_URL` value, given what the URL parser made of it:
/// the serialization, or the parser's message behind `invalid URL: `.
pub open spec fn url_check(parsed: Result<Seq<char>, Seq<char>>) -> Result<Seq<char>, Seq<char>> {
    match parsed {
        Ok(u) => Ok(u),
        Err(e) => Err("invalid URL: "@ + e),
    }
}

/// The comma-separated list in `s`: each piece trimmed; no piece at all when `s` is empty.
pub open spec fn comma_list(s: Seq<char>) -> Seq<Seq<char>> {
    if s.len() == 0 {
        Seq::empty()
    } else {
        trim_all(split_on(s, ','))
    }
}

/// Turns the parser's outcome for an `ODOO_URL` value into the value kept or the message
/// shown.
pub fn url_check_outcome(parsed: Result<String, String>) -> (r: Result<String, String>)
    ensures
        match (r, parsed) {
            (Ok(u), Ok(p)) => url_check(Ok(p@)) == Ok::<Seq<char>, Seq<char>>(u@),
            (Err(e), Err(p)) => url_check(Err(p@)) == Err::<Seq<char>, Seq<char>>(e@),
            _ => false,
        },
{
    match parsed {
        Ok(u) => Ok(u),
        Err(e) => Err(concat_str("invalid URL: ", e.as_str())),
    }
}

/// Checks an `ODOO_URL` value: its serialization as a URL, or `invalid URL: ` and the reason.
pub fn parse_url(s: &str) -> (r: Result<String, String>)
    ensures
        match r {
            Ok(u) => url_check(url_parse(s@)) == Ok::<Seq<char>, Seq<char>>(u@),
            Err(e) => url_check(url_parse(s@)) == Err::<Seq<char>, Seq<char>>(e@),
        },
{
    url_check_outcome(parse_url_text(s))
}

/// `s` split at commas, each piece trimmed; the empty string gives no piece.
pub fn parse_comma_list(s: &str) -> (r: Vec<String>)
    ensures
        views_of(r@) == comma_list(s@),
{
    split_trimmed(s)
}

/// The server's settings.
pub struct Config {
    /// URL of the Odoo instance, as the URL parser serializes it.
    pub odoo_url: String,
    /// Bearer token for the Odoo API.
    pub odoo_api_key: String,
    /// Odoo database name.
    pub odoo_db: String,
    /// Comma-separated glob patterns of models to expose.
    pub model_include_raw: String,
    /// Comma-separated glob patterns of models to hide.
    pub model_exclude_raw: String,
    /// Whether all write operations are blocked.
    pub read_only: bool,
    /// Default page size for list operations.
    pub page_size: u32,
}

impl Config {
    /// The glob patterns of models to expose.
    pub fn model_include(&self) -> (r: Vec<String>)
        ensures
            views_of(r@) == comma_list(self.model_include_raw@),
    {
        parse_comma_list(self.model_include_raw.as_str())
    }

    /// The glob patterns of models to hide.
    pub fn model_exclude(&self) -> (r: Vec<String>)
        ensures
            views_of(r@) == comma_list(self.model_exclude_raw@),
    {
        parse_comma_list(self.model_exclude_raw.as_str())
    }
}

/// The shape of a comma-separated list: an empty text gives no pattern; any other text gives
/// one pattern more than it has commas, none of them with white space at either end; a text
/// without a comma gives just itself, trimmed.
pub proof fn lemma_comma_list_shape(s: Seq<char>)
    ensures
        s.len() == 0 ==> comma_list(s) == Seq::<Seq<char>>::empty(),
        s.len() > 0 ==> comma_list(s).len() == occurrences(s, ',') + 1,
        forall|i: int|
            0 <= i < comma_list(s).len() && (#[trigger] comma_list(s)[i]).len() > 0 ==> (
            !is_white_space(comma_list(s)[i][0]) && !is_white_space(comma_list(s)[i].last())),
        s.len() > 0 && !s.contains(',') ==> comma_list(s) == seq![trim(s)],
{
    if s.len() > 0 {
        lemma_split_on_count(s, ',');
        assert forall|i: int|
            0 <= i < comma_list(s).len() && (#[trigger] comma_list(s)[i]).len() > 0 implies (
            !is_white_space(comma_list(s)[i][0]) && !is_white_space(comma_list(s)[i].last())) by {
            lemma_trim_ends(split_on(s, ',')[i]);
        }
        if !s.contains(',') {
            lemma_split_on_whole(s, ',');
            assert(comma_list(s) =~= seq![trim(s)]);
        }
    }
}

/// A refused `ODOO_URL` is reported as `invalid URL: ` followed by the parser's reason; an
/// accepted one is kept as the parser serialized it.
pub proof fn lemma_url_check(parsed: Result<Seq<char>, Seq<char>>)
    ensures
        parsed matches Ok(u) ==> url_check(parsed) == Ok::<Seq<char>, Seq<char>>(u),
        parsed matches Err(reason) ==> (url_check(parsed) matches Err(m) && "invalid URL: "@.is_prefix_of(
            m,
        ) && m.subrange("invalid URL: "@.len() as int, m.len() as int) == reason),
{
    if let Err(reason) = parsed {
        let m = "invalid URL: "@ + reason;
        assert(m.subrange(0, "invalid URL: "@.len() as int) =~= "invalid URL: "@);
        assert(m.subrange("invalid URL: "@.len() as int, m.len() as int) =~= reason);
    }
}

/// No piece of a comma-separated list holds a comma.
pub proof fn lemma_comma_list_pieces(s: Seq<char>)
    ensures
        forall|i: int| 0 <= i < comma_list(s).len() ==> !(#[trigger] comma_list(s)[i]).contains(','),
{
    if s.len() > 0 {
        lemma_split_on_no_sep(s, ',');
        assert forall|i: int| 0 <= i < comma_list(s).len() implies !(
        #[trigger] comma_list(s)[i]).contains(',') by {
            let piece = split_on(s, ',')[i];
            lemma_trim_within(piece);
            if trim(piece).contains(',') {
                let j = choose|j: int| 0 <= j < trim(piece).len() && trim(piece)[j] == ',';
                assert(piece.contains(piece[trim_offset(piece) + j]));
            }
        }
    }
}

} // verus!
