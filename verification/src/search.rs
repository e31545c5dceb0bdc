//! The search service, as far as the bridge shapes it: where the request
//! goes, what it carries, and what the host is told when it fails. Sending
//! the request is the host's work.

use vstd::prelude::*;

verus! {

#[verifier::external_type_specification]
#[verifier::external_body]
pub struct ExJsonValue(serde_json::Value);

#[verifier::external_type_specification]
#[verifier::external_body]
pub struct ExJsonError(serde_json::Error);

/// What `serde_json::from_str` makes of a text when it reads it as a
/// `serde_json::Value`: the document, or the parser's error. It depends on
/// the text alone.
pub uninterp spec fn json_reading(text: Seq<char>) -> Result<serde_json::Value, serde_json::Error>;

/// The message of a parser's error, as its `to_string` gives it: what went
/// wrong, and the line and column where. It depends on the error alone.
pub uninterp spec fn fault_message(fault: serde_json::Error) -> Seq<char>;

/// Whether a text is a JSON document, as `serde_json::from_str` reads it.
pub open spec fn is_json(text: Seq<char>) -> bool {
    json_reading(text) is Ok
}

/// Calls `serde_json::from_str` for a `serde_json::Value`. The contract only
/// names what it returns: the reading of the text.
#[verifier::external_body]
fn parse_json(text: &str) -> (parsed: Result<serde_json::Value, serde_json::Error>)
    ensures
        parsed == json_reading(text@),
{
    serde_json::from_str(text)
}

/// Calls `to_string` on a `serde_json::Error`. The contract only names what
/// it returns: the error's message.
#[verifier::external_body]
fn json_error_text(error: &serde_json::Error) -> (text: String)
    ensures
        text@ == fault_message(*error),
{
    error.to_string()
}

/// The path of the search service below the server's address.
pub open spec fn spec_search_path() -> Seq<char> {
    "/gds_dviewer/normal/search"@
}

/// How many characters of a text are left when the slashes at its end are
/// taken off.
pub open spec fn spec_trimmed_len(text: Seq<char>) -> nat
    decreases text.len(),
{
    if text.len() > 0 && text.last() == '/' {
        spec_trimmed_len(text.drop_last())
    } else {
        text.len()
    }
}

/// A text without the slashes at its end.
pub open spec fn spec_trim_slashes(text: Seq<char>) -> Seq<char> {
    text.take(spec_trimmed_len(text) as int)
}

/// The address that a search request goes to: the server's address without
/// the slashes at its end, and the path of the service.
pub open spec fn spec_search_endpoint(server: Seq<char>) -> Seq<char> {
    spec_trim_slashes(server) + spec_search_path()
}

/// The parameters of a search request, in order. Only files are asked for,
/// and at most fifty of them.
pub open spec fn spec_search_parameters(query: Seq<char>, category: Seq<char>, api_key: Seq<char>) -> Seq<
    (Seq<char>, Seq<char>),
> {
    seq![
        ("query"@, query),
        ("is_dir"@, "false"@),
        ("limit"@, "50"@),
        ("category"@, category),
        ("apikey"@, api_key),
    ]
}

/// What went wrong with a search.
#[derive(Clone, Debug, PartialEq, Eq)]
pub enum SearchFailure {
    /// The request could not be sent, or no response came; the text is the
    /// transport's.
    Network(String),
    /// The response's body could not be read; the text is the transport's.
    ReadBody(String),
    /// The body is no JSON document; `detail` is the parser's message.
    Json { detail: String, body: String },
}

/// What a [`SearchFailure`] is, mathematically.
pub enum SearchFailureModel {
    Network(Seq<char>),
    ReadBody(Seq<char>),
    Json { detail: Seq<char>, body: Seq<char> },
}

impl DeepView for SearchFailure {
    type V = SearchFailureModel;

    open spec fn deep_view(&self) -> SearchFailureModel {
        match self {
            SearchFailure::Network(text) => SearchFailureModel::Network(text@),
            SearchFailure::ReadBody(text) => SearchFailureModel::ReadBody(text@),
            SearchFailure::Json { detail, body } => SearchFailureModel::Json { detail: detail@, body: body@ },
        }
    }
}

impl SearchFailureModel {
    /// The message that the host is shown.
    pub open spec fn message(self) -> Seq<char> {
        match self {
            SearchFailureModel::Network(text) => "Network error: "@ + text,
            SearchFailureModel::ReadBody(text) => "Read body error: "@ + text,
            SearchFailureModel::Json { detail, body } => "JSON error: "@ + detail + " | body: "@ + body,
        }
    }
}

impl SearchFailure {
    /// The message that the host is shown.
    pub fn message(&self) -> (text: String)
        ensures
            text@ == self.deep_view().message(),
    {
        match self {
            SearchFailure::Network(detail) => "Network error: ".to_owned().concat(detail.as_str()),
            SearchFailure::ReadBody(detail) => "Read body error: ".to_owned().concat(detail.as_str()),
            SearchFailure::Json { detail, body } => {
                let mut text = "JSON error: ".to_owned();
                text.append(detail.as_str());
                text.append(" | body: ");
                text.append(body.as_str());
                text
            },
        }
    }
}

/// Takes the slashes off the end of a text.
pub fn trim_slashes(text: &str) -> (trimmed: &str)
    ensures
        trimmed@ == spec_trim_slashes(text@),
{
    let total: usize = text.unicode_len();
    let mut keep: usize = total;
    assert(text@.take(total as int) =~= text@);
    while keep > 0 && text.get_char(keep - 1) == '/'
        invariant
            keep <= total,
            total == text@.len(),
            spec_trimmed_len(text@) == spec_trimmed_len(text@.take(keep as int)),
        decreases keep,
    {
        assert(text@.take(keep as int).drop_last() =~= text@.take(keep as int - 1));
        keep = keep - 1;
    }
    text.substring_char(0, keep)
}

/// The address that a search request goes to.
pub fn search_endpoint(server: &str) -> (endpoint: String)
    ensures
        endpoint@ == spec_search_endpoint(server@),
{
    trim_slashes(server).to_owned().concat("/gds_dviewer/normal/search")
}

fn pair(name: &str, value: &str) -> (entry: (String, String))
    ensures
        entry.0@ == name@,
        entry.1@ == value@,
{
    (name.to_owned(), value.to_owned())
}

/// The parameters of a search request, in order.
pub fn search_parameters(query: &str, category: &str, api_key: &str) -> (parameters: Vec<(String, String)>)
    ensures
        parameters.deep_view() == spec_search_parameters(query@, category@, api_key@),
{
    let mut parameters: Vec<(String, String)> = Vec::new();
    parameters.push(pair("query", query));
    parameters.push(pair("is_dir", "false"));
    parameters.push(pair("limit", "50"));
    parameters.push(pair("category", category));
    parameters.push(pair("apikey", api_key));
    assert(parameters.deep_view() =~= spec_search_parameters(query@, category@, api_key@));
    parameters
}

/// What a parser's verdict on a body becomes: the document, or the failure
/// that carries the parser's message and the body itself.
pub fn judge_body<T>(parsed: Result<T, String>, body: &str) -> (outcome: Result<T, SearchFailure>)
    ensures
        match parsed {
            Ok(document) => outcome == Ok::<T, SearchFailure>(document),
            Err(detail) => outcome matches Err(failure) && failure.deep_view() == (SearchFailureModel::Json {
                detail: detail@,
                body: body@,
            }),
        },
{
    match parsed {
        Ok(document) => Ok(document),
        Err(detail) => Err(SearchFailure::Json { detail, body: body.to_owned() }),
    }
}

/// What reading a body gives: the document that the parser reads from it,
/// as it is, or the failure that holds the parser's message and the body.
pub open spec fn spec_decode_body(body: Seq<char>) -> Result<serde_json::Value, SearchFailureModel> {
    match json_reading(body) {
        Ok(document) => Ok(document),
        Err(fault) => Err(SearchFailureModel::Json { detail: fault_message(fault), body }),
    }
}

/// Reads the body of a response: the document that it holds, handed on as
/// it is, or the failure to read it as one.
pub fn decode_body(body: &str) -> (outcome: Result<serde_json::Value, SearchFailure>)
    ensures
        outcome is Ok <==> is_json(body@),
        match outcome {
            Ok(document) => spec_decode_body(body@) == Ok::<serde_json::Value, SearchFailureModel>(document),
            Err(failure) => spec_decode_body(body@) == Err::<serde_json::Value, SearchFailureModel>(
                failure.deep_view(),
            ),
        },
{
    match parse_json(body) {
        Ok(document) => judge_body(Ok(document), body),
        Err(error) => judge_body(Err(json_error_text(&error)), body),
    }
}

/// Trimming leaves no slash at the end, takes nothing but slashes, and a
/// text without a slash at its end is left as it is.
pub proof fn lemma_trim_slashes(text: Seq<char>)
    ensures
        spec_trimmed_len(text) <= text.len(),
        spec_trim_slashes(text).len() > 0 ==> spec_trim_slashes(text).last() != '/',
        forall|i: int| spec_trimmed_len(text) <= i < text.len() ==> text[i] == '/',
        (text.len() == 0 || text.last() != '/') ==> spec_trim_slashes(text) == text,
    decreases text.len(),
{
    if text.len() > 0 && text.last() == '/' {
        let shorter = text.drop_last();
        lemma_trim_slashes(shorter);
        assert(spec_trim_slashes(text) =~= spec_trim_slashes(shorter));
        assert forall|i: int| spec_trimmed_len(text) <= i < text.len() implies text[i] == '/' by {
            if i < shorter.len() {
                assert(shorter[i] == text[i]);
            }
        }
    } else {
        assert(spec_trim_slashes(text) =~= text);
    }
}

} // verus!
