//! The JSON-RPC 2.0 dispatch layer: envelope parsing, method routing, typed
//! parameter decoding and structured success/error responses, mounted by the
//! surrounding transport on a single POST route.
//!
//! The raw request text is analysed by one trusted call into serde_json,
//! whose outcome is named by [`envelope_of`]; typed parameter decoding per
//! method is likewise named per method. Everything downstream — routing,
//! defaulting, engine invocation and the exact bytes of every response — is
//! verified, with each response shape pinned down by a spec function.

use vstd::prelude::*;

use crate::chars::{chars_of, chars_eq, escape_seq, push_chars, push_escaped, push_str_chars, string_of_chars};
use crate::search::{
    capped_matches, index_docs, index_error_text, matching_count, query_error_text, query_matches,
    search_complete, DocModel, SearchService, SearchableDocument, RPC_WRITER_BUDGET,
};

verus! {

// ---------------------------------------------------------------------------
// Method parameter and response records
// ---------------------------------------------------------------------------

/// Parameters of the `ping` method; `message` defaults when the caller
/// leaves it out.
pub struct PingParams {
    pub message: String,
}

/// The reply of the `ping` method.
pub struct PingResponse {
    pub reply: String,
}

/// Parameters of the `addDocument` method.
pub struct AddDocumentParams {
    pub document: SearchableDocument,
}

/// Parameters of the `searchDocuments` method; `limit` defaults to ten.
pub struct SearchParams {
    pub query: String,
    pub limit: Option<usize>,
}

/// The mathematical value of search parameters.
pub struct SearchParamsModel {
    pub query: Seq<char>,
    pub limit: Option<usize>,
}

impl View for SearchParams {
    type V = SearchParamsModel;

    open spec fn view(&self) -> SearchParamsModel {
        SearchParamsModel {
            query: self.query@,
            limit: self.limit,
        }
    }
}

/// The result of the `searchDocuments` method.
pub struct SearchResponse {
    pub documents: Vec<SearchableDocument>,
}

/// A structured method failure: a reserved JSON-RPC code and a short cause.
pub struct RpcError {
    pub code: i64,
    pub message: String,
}

/// The placeholder used when a `ping` request carries no message.
pub fn default_ping_message() -> (r: String)
    ensures
        r@ == "No message provided"@,
{
    String::from_str("No message provided")
}

// ---------------------------------------------------------------------------
// Response shapes
// ---------------------------------------------------------------------------

/// A JSON string literal: the text escaped and quoted.
pub open spec fn json_str(s: Seq<char>) -> Seq<char> {
    "\""@ + escape_seq(s) + "\""@
}

/// A success envelope; `result` is already serialised JSON.
pub open spec fn resp_result(id: Seq<char>, result: Seq<char>) -> Seq<char> {
    "{\"jsonrpc\":\"2.0\",\"id\":"@ + id + ",\"result\":"@ + result + "}"@
}

/// An error envelope; `message` and `data` are already serialised JSON.
pub open spec fn resp_error(id: Seq<char>, code: Seq<char>, message: Seq<char>, data: Seq<char>) -> Seq<char> {
    "{\"jsonrpc\":\"2.0\",\"id\":"@ + id + ",\"error\":{\"code\":"@ + code + ",\"message\":"@
        + message + ",\"data\":"@ + data + "}}"@
}

/// The response to a request that was not JSON at all.
pub open spec fn parse_error_resp(detail: Seq<char>) -> Seq<char> {
    resp_error("null"@, "-32700"@, "\"Parse error\""@, json_str(detail))
}

/// The response to a JSON request without a string `method`; the request's
/// id is still echoed.
pub open spec fn invalid_request_resp(id: Seq<char>) -> Seq<char> {
    resp_error(id, "-32600"@, "\"Invalid Request\""@, "\"Missing method\""@)
}

/// The response to parameters a method could not decode; `data` is already
/// serialised JSON.
pub open spec fn invalid_params_resp(id: Seq<char>, data: Seq<char>) -> Seq<char> {
    resp_error(id, "-32602"@, "\"Invalid params\""@, data)
}

/// The response to an unknown method name.
pub open spec fn method_not_found_resp(id: Seq<char>, method: Seq<char>) -> Seq<char> {
    resp_error(id, "-32601"@, "\"Method not found\""@, json_str(method))
}

/// The response to an engine failure.
pub open spec fn internal_error_resp(id: Seq<char>, message: Seq<char>) -> Seq<char> {
    resp_error(id, "-32603"@, json_str(message), "null"@)
}

/// The success envelope of `ping`.
pub open spec fn ping_result_resp(id: Seq<char>, reply: Seq<char>) -> Seq<char> {
    resp_result(id, "{\"reply\":"@ + json_str(reply) + "}"@)
}

/// The success envelope of `addDocument`: a confirmation string.
pub open spec fn add_result_resp(id: Seq<char>, confirmation: Seq<char>) -> Seq<char> {
    resp_result(id, json_str(confirmation))
}

/// One document as a JSON object, fields in declaration order, an absent
/// `version` written as `null`.
pub open spec fn doc_json(d: DocModel) -> Seq<char> {
    "{\"id\":"@ + json_str(d.id) + ",\"title\":"@ + json_str(d.title) + ",\"body\":"@
        + json_str(d.body) + ",\"source\":"@ + json_str(d.source) + ",\"version\":"@ + (match d
        .version {
        Some(v) => json_str(v),
        None => "null"@,
    }) + "}"@
}

/// The comma-separated items of a document array.
pub open spec fn docs_json_items(ds: Seq<DocModel>) -> Seq<char>
    decreases ds.len(),
{
    if ds.len() == 0 {
        Seq::empty()
    } else if ds.len() == 1 {
        doc_json(ds[0])
    } else {
        docs_json_items(ds.drop_last()) + ","@ + doc_json(ds.last())
    }
}

/// A document array as JSON.
pub open spec fn docs_json(ds: Seq<DocModel>) -> Seq<char> {
    "["@ + docs_json_items(ds) + "]"@
}

/// The success envelope of `searchDocuments`.
pub open spec fn search_result_resp(id: Seq<char>, docs: Seq<DocModel>) -> Seq<char> {
    resp_result(id, "{\"documents\":"@ + docs_json(docs) + "}"@)
}

// ---------------------------------------------------------------------------
// Verified response serialisation
// ---------------------------------------------------------------------------

/// Appends the JSON string literal for `s`.
fn push_json_str(out: &mut Vec<char>, s: &str)
    ensures
        final(out)@ == old(out)@ + json_str(s@),
{
    push_str_chars(out, "\"");
    push_escaped(out, s);
    push_str_chars(out, "\"");
    proof {
        assert(out@ =~= old(out)@ + json_str(s@));
    }
}

/// Appends one document as a JSON object.
fn push_doc_json(out: &mut Vec<char>, d: &SearchableDocument)
    ensures
        final(out)@ == old(out)@ + doc_json(d@),
{
    push_str_chars(out, "{\"id\":");
    push_json_str(out, d.id.as_str());
    push_str_chars(out, ",\"title\":");
    push_json_str(out, d.title.as_str());
    push_str_chars(out, ",\"body\":");
    push_json_str(out, d.body.as_str());
    push_str_chars(out, ",\"source\":");
    push_json_str(out, d.source.as_str());
    push_str_chars(out, ",\"version\":");
    match &d.version {
        Some(v) => push_json_str(out, v.as_str()),
        None => push_str_chars(out, "null"),
    }
    push_str_chars(out, "}");
    proof {
        assert(out@ =~= old(out)@ + doc_json(d@));
    }
}

/// Appends a document array as JSON.
fn push_docs_json(out: &mut Vec<char>, docs: &Vec<SearchableDocument>)
    ensures
        final(out)@ == old(out)@ + docs_json(docs@.map_values(|d: SearchableDocument| d@)),
{
    let ghost models = docs@.map_values(|d: SearchableDocument| d@);
    push_str_chars(out, "[");
    let n = docs.len();
    let mut i: usize = 0;
    while i < n
        invariant
            i <= n,
            n == docs@.len(),
            models == docs@.map_values(|d: SearchableDocument| d@),
            models.len() == n,
            out@ == old(out)@ + "["@ + docs_json_items(models.take(i as int)),
        decreases n - i,
    {
        if i > 0 {
            push_str_chars(out, ",");
        }
        push_doc_json(out, &docs[i]);
        i = i + 1;
        proof {
            assert(models[i - 1] == docs@[i - 1]@);
            let t = models.take(i as int);
            assert(t.drop_last() =~= models.take(i - 1));
            assert(t.last() == models[i - 1]);
            if i == 1 {
                assert(docs_json_items(t) == doc_json(models[0]));
                assert(out@ =~= old(out)@ + "["@ + docs_json_items(t));
            } else {
                assert(docs_json_items(t) == docs_json_items(models.take(i - 1)) + ","@
                    + doc_json(models[i - 1]));
                assert(out@ =~= old(out)@ + "["@ + docs_json_items(t));
            }
        }
    }
    push_str_chars(out, "]");
    proof {
        assert(models.take(n as int) =~= models);
        assert(out@ =~= old(out)@ + docs_json(models));
    }
}

/// The response to a request that was not JSON.
fn make_parse_error(detail: &str) -> (r: String)
    ensures
        r@ == parse_error_resp(detail@),
{
    let mut out: Vec<char> = Vec::new();
    push_str_chars(&mut out, "{\"jsonrpc\":\"2.0\",\"id\":");
    push_str_chars(&mut out, "null");
    push_str_chars(&mut out, ",\"error\":{\"code\":");
    push_str_chars(&mut out, "-32700");
    push_str_chars(&mut out, ",\"message\":");
    push_str_chars(&mut out, "\"Parse error\"");
    push_str_chars(&mut out, ",\"data\":");
    push_json_str(&mut out, detail);
    push_str_chars(&mut out, "}}");
    proof {
        assert(out@ =~= parse_error_resp(detail@));
    }
    string_of_chars(&out)
}

/// The response to a JSON request without a string method.
fn make_invalid_request(id: &Vec<char>) -> (r: String)
    ensures
        r@ == invalid_request_resp(id@),
{
    let mut out: Vec<char> = Vec::new();
    push_str_chars(&mut out, "{\"jsonrpc\":\"2.0\",\"id\":");
    push_chars(&mut out, id);
    push_str_chars(&mut out, ",\"error\":{\"code\":");
    push_str_chars(&mut out, "-32600");
    push_str_chars(&mut out, ",\"message\":");
    push_str_chars(&mut out, "\"Invalid Request\"");
    push_str_chars(&mut out, ",\"data\":");
    push_str_chars(&mut out, "\"Missing method\"");
    push_str_chars(&mut out, "}}");
    proof {
        assert(out@ =~= invalid_request_resp(id@));
    }
    string_of_chars(&out)
}

/// An invalid-params response; `data` arrives as serialised JSON.
fn make_invalid_params(id: &Vec<char>, data: &str) -> (r: String)
    ensures
        r@ == invalid_params_resp(id@, data@),
{
    let mut out: Vec<char> = Vec::new();
    push_str_chars(&mut out, "{\"jsonrpc\":\"2.0\",\"id\":");
    push_chars(&mut out, id);
    push_str_chars(&mut out, ",\"error\":{\"code\":");
    push_str_chars(&mut out, "-32602");
    push_str_chars(&mut out, ",\"message\":");
    push_str_chars(&mut out, "\"Invalid params\"");
    push_str_chars(&mut out, ",\"data\":");
    push_str_chars(&mut out, data);
    push_str_chars(&mut out, "}}");
    proof {
        assert(out@ =~= invalid_params_resp(id@, data@));
    }
    string_of_chars(&out)
}

/// A method-not-found response naming the unknown method.
fn make_method_not_found(id: &Vec<char>, method: &str) -> (r: String)
    ensures
        r@ == method_not_found_resp(id@, method@),
{
    let mut out: Vec<char> = Vec::new();
    push_str_chars(&mut out, "{\"jsonrpc\":\"2.0\",\"id\":");
    push_chars(&mut out, id);
    push_str_chars(&mut out, ",\"error\":{\"code\":");
    push_str_chars(&mut out, "-32601");
    push_str_chars(&mut out, ",\"message\":");
    push_str_chars(&mut out, "\"Method not found\"");
    push_str_chars(&mut out, ",\"data\":");
    push_json_str(&mut out, method);
    push_str_chars(&mut out, "}}");
    proof {
        assert(out@ =~= method_not_found_resp(id@, method@));
    }
    string_of_chars(&out)
}

/// An internal-error response with the cause in `message` and `data` null.
fn make_internal_error(id: &Vec<char>, message: &str) -> (r: String)
    ensures
        r@ == internal_error_resp(id@, message@),
{
    let mut out: Vec<char> = Vec::new();
    push_str_chars(&mut out, "{\"jsonrpc\":\"2.0\",\"id\":");
    push_chars(&mut out, id);
    push_str_chars(&mut out, ",\"error\":{\"code\":");
    push_str_chars(&mut out, "-32603");
    push_str_chars(&mut out, ",\"message\":");
    push_json_str(&mut out, message);
    push_str_chars(&mut out, ",\"data\":");
    push_str_chars(&mut out, "null");
    push_str_chars(&mut out, "}}");
    proof {
        assert(out@ =~= internal_error_resp(id@, message@));
    }
    string_of_chars(&out)
}

/// The success envelope of `ping`.
fn make_ping_result(id: &Vec<char>, reply: &str) -> (r: String)
    ensures
        r@ == ping_result_resp(id@, reply@),
{
    let mut out: Vec<char> = Vec::new();
    push_str_chars(&mut out, "{\"jsonrpc\":\"2.0\",\"id\":");
    push_chars(&mut out, id);
    push_str_chars(&mut out, ",\"result\":");
    push_str_chars(&mut out, "{\"reply\":");
    push_json_str(&mut out, reply);
    push_str_chars(&mut out, "}");
    push_str_chars(&mut out, "}");
    proof {
        assert(out@ =~= ping_result_resp(id@, reply@));
    }
    string_of_chars(&out)
}

/// The success envelope of `addDocument`.
fn make_add_result(id: &Vec<char>, confirmation: &str) -> (r: String)
    ensures
        r@ == add_result_resp(id@, confirmation@),
{
    let mut out: Vec<char> = Vec::new();
    push_str_chars(&mut out, "{\"jsonrpc\":\"2.0\",\"id\":");
    push_chars(&mut out, id);
    push_str_chars(&mut out, ",\"result\":");
    push_json_str(&mut out, confirmation);
    push_str_chars(&mut out, "}");
    proof {
        assert(out@ =~= add_result_resp(id@, confirmation@));
    }
    string_of_chars(&out)
}

/// The success envelope of `searchDocuments`.
fn make_search_result(id: &Vec<char>, docs: &Vec<SearchableDocument>) -> (r: String)
    ensures
        r@ == search_result_resp(id@, docs@.map_values(|d: SearchableDocument| d@)),
{
    let mut out: Vec<char> = Vec::new();
    push_str_chars(&mut out, "{\"jsonrpc\":\"2.0\",\"id\":");
    push_chars(&mut out, id);
    push_str_chars(&mut out, ",\"result\":");
    push_str_chars(&mut out, "{\"documents\":");
    push_docs_json(&mut out, docs);
    push_str_chars(&mut out, "}");
    push_str_chars(&mut out, "}");
    proof {
        assert(out@ =~= search_result_resp(id@, docs@.map_values(|d: SearchableDocument| d@)));
    }
    string_of_chars(&out)
}

// ---------------------------------------------------------------------------
// Trusted envelope analysis and parameter decoding
// ---------------------------------------------------------------------------

/// What one request text comes to: whether it is JSON at all (`detail` holds
/// the parser's complaint when it is not), the `method` member when it is
/// present as a string, the `id` member re-serialised when present, and the
/// `params` member re-serialised when present.
pub struct EnvelopeModel {
    pub ok: bool,
    pub detail: Seq<char>,
    pub method: Option<Seq<char>>,
    pub id: Option<Seq<char>>,
    pub params: Option<Seq<char>>,
}

/// The analysis of one JSON-RPC request text, a function of the characters
/// alone.
pub uninterp spec fn envelope_of(s: Seq<char>) -> EnvelopeModel;

/// One parsed request as handed to the router.
pub enum ParsedRequest {
    /// The body was not JSON; the parser's complaint as text.
    Malformed { detail: String },
    /// The body was JSON but had no string `method` member; the `id`
    /// member, re-serialised, is still carried for the echo.
    NoMethod { id: Option<String> },
    /// A routable call.
    Call { method: String, id: Option<String>, params: Option<String> },
}

/// Whether a parsed request agrees with the envelope model of its text.
pub open spec fn parsed_matches(r: ParsedRequest, m: EnvelopeModel) -> bool {
    match r {
        ParsedRequest::Malformed { detail } => !m.ok && detail@ == m.detail,
        ParsedRequest::NoMethod { id } => m.ok && m.method is None && (match id {
            Some(i) => m.id == Some(i@),
            None => m.id is None,
        }),
        ParsedRequest::Call { method, id, params } => m.ok && m.method == Some(method@) && (match id {
            Some(i) => m.id == Some(i@),
            None => m.id is None,
        }) && (match params {
            Some(p) => m.params == Some(p@),
            None => m.params is None,
        }),
    }
}

/// Relies on `serde_json::from_str::<serde_json::Value>`, `Value::get` and
/// `Value::to_string`: parses the body as a JSON tree, reads the `method`
/// member when it is a string, and re-serialises the `id` and `params`
/// members; all of it a function of the request characters alone.
#[verifier::external_body]
fn parse_envelope(raw: &str) -> (r: ParsedRequest)
    ensures
        parsed_matches(r, envelope_of(raw@)),
{
    let v: serde_json::Value = match serde_json::from_str(raw) {
        Ok(v) => v,
        Err(e) => {
            return ParsedRequest::Malformed { detail: e.to_string() };
        },
    };
    let id = v.get("id").map(|x| x.to_string());
    let method = match v.get("method") {
        Some(serde_json::Value::String(m)) => m.clone(),
        _ => {
            return ParsedRequest::NoMethod { id };
        },
    };
    let params = v.get("params").map(|p| p.to_string());
    ParsedRequest::Call { method, id, params }
}

/// What `ping` makes of a params text: `None` when the params do not decode,
/// otherwise the optional `message` member.
pub uninterp spec fn ping_params_of(p: Seq<char>) -> Option<Option<Seq<char>>>;

/// Whether a decoded optional message agrees with its model.
pub open spec fn opt_message_matches(r: Option<Option<String>>, m: Option<Option<Seq<char>>>) -> bool {
    match r {
        None => m is None,
        Some(None) => m == Some(None::<Seq<char>>),
        Some(Some(s)) => m == Some(Some(s@)),
    }
}

/// Relies on `serde_json::from_str::<serde_json::Value>` and `Value::get`:
/// `ping` params decode from an object whose optional `message` member is a
/// string; anything else fails to decode.
#[verifier::external_body]
fn decode_ping_params(params: &str) -> (r: Option<Option<String>>)
    ensures
        opt_message_matches(r, ping_params_of(params@)),
{
    let v: serde_json::Value = serde_json::from_str(params).ok()?;
    if !v.is_object() {
        return None;
    }
    match v.get("message") {
        None => Some(None),
        Some(serde_json::Value::String(s)) => Some(Some(s.clone())),
        Some(_) => None,
    }
}

/// What `addDocument` makes of a params text: the document when the params
/// decode, `None` otherwise.
pub uninterp spec fn add_params_of(p: Seq<char>) -> Option<DocModel>;

/// Relies on `serde_json::from_str::<serde_json::Value>`, `Value::get` and
/// `Value::as_str`: `addDocument` params decode from an object whose
/// `document` member carries the four mandatory string fields and an
/// optional string `version` (absent or `null` both mean absent); anything
/// else fails to decode.
#[verifier::external_body]
fn decode_add_params(params: &str) -> (r: Option<SearchableDocument>)
    ensures
        (match r {
            Some(d) => add_params_of(params@) == Some(d@),
            None => add_params_of(params@) is None,
        }),
{
    let v: serde_json::Value = serde_json::from_str(params).ok()?;
    let d = v.get("document")?;
    let text = |k: &str| d.get(k).and_then(|x| x.as_str()).map(String::from);
    let id = text("id")?;
    let title = text("title")?;
    let body = text("body")?;
    let source = text("source")?;
    let version = match d.get("version") {
        None | Some(serde_json::Value::Null) => None,
        Some(serde_json::Value::String(s)) => Some(s.clone()),
        Some(_) => return None,
    };
    Some(SearchableDocument { id, title, body, source, version })
}

/// What `searchDocuments` makes of a params text: the query and optional
/// limit when the params decode, `None` otherwise.
pub uninterp spec fn search_params_of(p: Seq<char>) -> Option<SearchParamsModel>;

/// Relies on `serde_json::from_str::<serde_json::Value>`, `Value::get`,
/// `Value::as_str` and `Value::as_u64`: `searchDocuments` params decode from
/// an object with a string `query` and an optional non-negative integer
/// `limit` that fits a `usize` (absent or `null` both mean absent); anything
/// else fails to decode.
#[verifier::external_body]
fn decode_search_params(params: &str) -> (r: Option<SearchParams>)
    ensures
        (match r {
            Some(sp) => search_params_of(params@) == Some(sp@),
            None => search_params_of(params@) is None,
        }),
{
    let v: serde_json::Value = serde_json::from_str(params).ok()?;
    let query = v.get("query").and_then(|x| x.as_str()).map(String::from)?;
    let limit = match v.get("limit") {
        None | Some(serde_json::Value::Null) => None,
        Some(x) => Some(usize::try_from(x.as_u64()?).ok()?),
    };
    Some(SearchParams { query, limit })
}

// ---------------------------------------------------------------------------
// The RPC server
// ---------------------------------------------------------------------------

/// The RPC server: owns the search service the three methods delegate to.
pub struct McpRpcServerImpl {
    pub search_service: SearchService,
}

/// The committed index contents behind a server.
pub open spec fn server_docs(s: McpRpcServerImpl) -> Seq<DocModel> {
    index_docs(s.search_service.index)
}

/// The effective limit of a search call: the caller's, or ten.
pub open spec fn limit_of(sp: SearchParamsModel) -> usize {
    match sp.limit {
        Some(l) => l,
        None => 10,
    }
}

impl McpRpcServerImpl {
    /// A server over the given search service.
    pub fn new(search_service: SearchService) -> (s: Self)
        ensures
            s.search_service == search_service,
    {
        McpRpcServerImpl { search_service }
    }

    /// Pure echo, no engine interaction: replies with the received message.
    pub fn ping(&self, params: PingParams) -> (r: Result<PingResponse, RpcError>)
        ensures
            r is Ok,
            r->Ok_0.reply@ == "pong - received: "@ + params.message@,
    {
        let mut reply = String::from_str("pong - received: ");
        reply.append(params.message.as_str());
        Ok(PingResponse { reply })
    }

    /// Indexes one document under the fixed RPC writer budget and commits;
    /// on success the document is appended to the committed contents and a
    /// confirmation keyed by its id is returned; on failure the contents are
    /// unchanged and the error carries the internal-error code with the
    /// cause.
    pub fn add_document(&mut self, params: AddDocumentParams) -> (r: Result<String, RpcError>)
        ensures
            r is Ok ==> index_docs(final(self).search_service.index) == index_docs(
                old(self).search_service.index,
            ).push(params.document@) && r->Ok_0@ == "Document "@ + params.document.id@
                + " added successfully."@,
            r is Err ==> index_docs(final(self).search_service.index) == index_docs(
                old(self).search_service.index,
            ) && r->Err_0.code == -32603 && (exists|cause: Seq<char>|
                r->Err_0.message@ == "Failed to add document: "@ + cause),
    {
        let id_copy = params.document.id.clone();
        match self.search_service.add_document(params.document, RPC_WRITER_BUDGET) {
            Ok(()) => {
                let mut msg = String::from_str("Document ");
                msg.append(id_copy.as_str());
                msg.append(" added successfully.");
                Ok(msg)
            },
            Err(e) => {
                let cause = e.describe();
                let mut msg = String::from_str("Failed to add document: ");
                msg.append(cause.as_str());
                proof {
                    assert(msg@ == "Failed to add document: "@ + index_error_text(e));
                }
                Err(RpcError { code: -32603, message: msg })
            },
        }
    }

    /// Runs ranked retrieval with the caller's limit (ten when omitted) over
    /// a fresh reader; on success the returned documents are exactly the
    /// matching committed contents capped at the limit — each a matching
    /// element of the contents, none missing while the matches fit within
    /// the limit — and an empty index yields an empty list; on failure the
    /// error carries the internal-error code with the cause.
    pub fn search_documents(&self, params: SearchParams) -> (r: Result<SearchResponse, RpcError>)
        ensures
            r is Ok ==> r->Ok_0.documents@.len() <= limit_of(params@),
            r is Ok ==> r->Ok_0.documents@.len() == capped_matches(
                params.query@,
                index_docs(self.search_service.index),
                limit_of(params@),
            ),
            r is Ok ==> forall|j: int|
                0 <= j < r->Ok_0.documents@.len() ==> index_docs(
                    self.search_service.index,
                ).contains(#[trigger] r->Ok_0.documents@[j]@) && query_matches(
                    params.query@,
                    r->Ok_0.documents@[j]@,
                ),
            r is Ok && 1 <= limit_of(params@) && matching_count(
                params.query@,
                index_docs(self.search_service.index),
            ) <= limit_of(params@) as nat ==> search_complete(
                params.query@,
                index_docs(self.search_service.index),
                r->Ok_0.documents@.map_values(|x: SearchableDocument| x@),
            ),
            r is Ok && index_docs(self.search_service.index).len() == 0
                ==> r->Ok_0.documents@.len() == 0,
            r is Err ==> r->Err_0.code == -32603 && (exists|cause: Seq<char>|
                r->Err_0.message@ == "Failed to search documents: "@ + cause),
    {
        let limit: usize = match params.limit {
            Some(l) => l,
            None => 10,
        };
        proof {
            assert(limit == limit_of(params@));
        }
        match self.search_service.search_documents(params.query.as_str(), limit) {
            Ok(documents) => Ok(SearchResponse { documents }),
            Err(e) => {
                let cause = e.describe();
                let mut msg = String::from_str("Failed to search documents: ");
                msg.append(cause.as_str());
                proof {
                    assert(msg@ == "Failed to search documents: "@ + query_error_text(e));
                }
                Err(RpcError { code: -32603, message: msg })
            },
        }
    }
}

// ---------------------------------------------------------------------------
// The dispatcher
// ---------------------------------------------------------------------------

/// The serialised id of an envelope: the echoed member, or `null`.
pub open spec fn id_text(m: EnvelopeModel) -> Seq<char> {
    match m.id {
        Some(i) => i,
        None => "null"@,
    }
}

/// The exact response to a `ping` call, decided by the envelope alone.
pub open spec fn ping_response_spec(m: EnvelopeModel) -> Seq<char> {
    match m.params {
        None => ping_result_resp(id_text(m), "pong - received: "@ + "No message provided"@),
        Some(p) => match ping_params_of(p) {
            None => invalid_params_resp(id_text(m), "\"Invalid params for ping\""@),
            Some(None) => ping_result_resp(
                id_text(m),
                "pong - received: "@ + "No message provided"@,
            ),
            Some(Some(msg)) => ping_result_resp(id_text(m), "pong - received: "@ + msg),
        },
    }
}

/// A successful `addDocument` outcome: the document is appended and the
/// confirmation envelope names its id.
pub open spec fn add_ok_outcome(
    pre: Seq<DocModel>,
    post: Seq<DocModel>,
    resp: Seq<char>,
    m: EnvelopeModel,
    d: DocModel,
) -> bool {
    post == pre.push(d) && resp == add_result_resp(
        id_text(m),
        "Document "@ + d.id + " added successfully."@,
    )
}

/// A failed `addDocument` outcome: the contents are unchanged and an
/// internal-error envelope names the cause.
pub open spec fn add_err_outcome(
    pre: Seq<DocModel>,
    post: Seq<DocModel>,
    resp: Seq<char>,
    m: EnvelopeModel,
) -> bool {
    post == pre && (exists|cause: Seq<char>|
        resp == internal_error_resp(id_text(m), "Failed to add document: "@ + cause))
}

/// A successful `searchDocuments` outcome: the envelope carries a document
/// list of exactly the matching contents capped at the limit, each entry a
/// matching element of the contents, no match missing while they fit within
/// the limit, and empty when the contents are.
pub open spec fn search_ok_outcome(
    all: Seq<DocModel>,
    resp: Seq<char>,
    m: EnvelopeModel,
    sp: SearchParamsModel,
) -> bool {
    exists|docs: Seq<DocModel>|
        resp == #[trigger] search_result_resp(id_text(m), docs) && docs.len() == capped_matches(
            sp.query,
            all,
            limit_of(sp),
        ) && (forall|j: int|
            0 <= j < docs.len() ==> all.contains(#[trigger] docs[j]) && query_matches(
                sp.query,
                docs[j],
            )) && (1 <= limit_of(sp) && matching_count(sp.query, all) <= limit_of(sp) as nat
            ==> search_complete(sp.query, all, docs)) && (all.len() == 0 ==> docs.len() == 0)
}

/// A failed `searchDocuments` outcome: an internal-error envelope names the
/// cause.
pub open spec fn search_err_outcome(resp: Seq<char>, m: EnvelopeModel) -> bool {
    exists|cause: Seq<char>|
        resp == internal_error_resp(id_text(m), "Failed to search documents: "@ + cause)
}

/// The routing table: what the dispatcher owes for one request text, given
/// the contents before (`pre`) and after (`post`) the call and the response
/// text it returned.
pub open spec fn dispatch_spec(
    raw: Seq<char>,
    pre: Seq<DocModel>,
    post: Seq<DocModel>,
    resp: Seq<char>,
) -> bool {
    let m = envelope_of(raw);
    if !m.ok {
        post == pre && resp == parse_error_resp(m.detail)
    } else if m.method is None {
        post == pre && resp == invalid_request_resp(id_text(m))
    } else if m.method == Some("ping"@) {
        post == pre && resp == ping_response_spec(m)
    } else if m.method == Some("addDocument"@) {
        match m.params {
            None => post == pre && resp == invalid_params_resp(
                id_text(m),
                "\"Missing params for addDocument\""@,
            ),
            Some(p) => match add_params_of(p) {
                None => post == pre && resp == invalid_params_resp(
                    id_text(m),
                    "\"Invalid params for addDocument\""@,
                ),
                Some(d) => add_ok_outcome(pre, post, resp, m, d) || add_err_outcome(
                    pre,
                    post,
                    resp,
                    m,
                ),
            },
        }
    } else if m.method == Some("searchDocuments"@) {
        post == pre && (match m.params {
            None => resp == invalid_params_resp(
                id_text(m),
                "\"Missing params for searchDocuments\""@,
            ),
            Some(p) => match search_params_of(p) {
                None => resp == invalid_params_resp(
                    id_text(m),
                    "\"Invalid params for searchDocuments\""@,
                ),
                Some(sp) => search_ok_outcome(pre, resp, m, sp) || search_err_outcome(resp, m),
            },
        })
    } else {
        post == pre && resp == method_not_found_resp(id_text(m), m.method->0)
    }
}

/// One pass of the per-request state machine: receive, parse, validate the
/// method, route, decode params, invoke, serialise. Every response is a
/// well-formed JSON-RPC envelope that echoes the request's id (`null` when
/// absent), the reserved codes are used exactly as the protocol assigns
/// them, and the index contents move only on a successful `addDocument`.
pub fn process_rpc_request(server: &mut McpRpcServerImpl, request_str: &str) -> (r: String)
    ensures
        dispatch_spec(
            request_str@,
            server_docs(*old(server)),
            server_docs(*final(server)),
            r@,
        ),
{
    let parsed = parse_envelope(request_str);
    let ghost m = envelope_of(request_str@);
    match parsed {
        ParsedRequest::Malformed { detail } => make_parse_error(detail.as_str()),
        ParsedRequest::NoMethod { id } => {
            let idv: Vec<char> = match &id {
                Some(i) => chars_of(i.as_str()),
                None => chars_of("null"),
            };
            proof {
                assert(idv@ == id_text(m));
            }
            make_invalid_request(&idv)
        },
        ParsedRequest::Call { method, id, params } => {
            let idv: Vec<char> = match &id {
                Some(i) => chars_of(i.as_str()),
                None => chars_of("null"),
            };
            proof {
                assert(idv@ == id_text(m));
            }
            let mvec = chars_of(method.as_str());
            if chars_eq(&mvec, &chars_of("ping")) {
                let message: Option<Option<String>> = match &params {
                    None => Some(None),
                    Some(p) => decode_ping_params(p.as_str()),
                };
                match message {
                    None => make_invalid_params(&idv, "\"Invalid params for ping\""),
                    Some(inner) => {
                        let message = match inner {
                            Some(s) => s,
                            None => default_ping_message(),
                        };
                        match server.ping(PingParams { message }) {
                            Ok(resp) => make_ping_result(&idv, resp.reply.as_str()),
                            Err(_) => {
                                // ping's contract rules this arm out
                                proof {
                                    assert(false);
                                }
                                make_invalid_request(&idv)
                            },
                        }
                    },
                }
            } else if chars_eq(&mvec, &chars_of("addDocument")) {
                match &params {
                    None => make_invalid_params(&idv, "\"Missing params for addDocument\""),
                    Some(p) => match decode_add_params(p.as_str()) {
                        None => make_invalid_params(&idv, "\"Invalid params for addDocument\""),
                        Some(document) => {
                            let ghost d = document@;
                            match server.add_document(AddDocumentParams { document }) {
                                Ok(confirmation) => {
                                    let r = make_add_result(&idv, confirmation.as_str());
                                    proof {
                                        assert(add_ok_outcome(
                                            server_docs(*old(server)),
                                            server_docs(*server),
                                            r@,
                                            m,
                                            d,
                                        ));
                                    }
                                    r
                                },
                                Err(e) => {
                                    let r = make_internal_error(&idv, e.message.as_str());
                                    proof {
                                        let cause = choose|c: Seq<char>|
                                            e.message@ == "Failed to add document: "@ + c;
                                        assert(r@ == internal_error_resp(
                                            id_text(m),
                                            "Failed to add document: "@ + cause,
                                        ));
                                    }
                                    r
                                },
                            }
                        },
                    },
                }
            } else if chars_eq(&mvec, &chars_of("searchDocuments")) {
                match &params {
                    None => make_invalid_params(&idv, "\"Missing params for searchDocuments\""),
                    Some(p) => match decode_search_params(p.as_str()) {
                        None => make_invalid_params(
                            &idv,
                            "\"Invalid params for searchDocuments\"",
                        ),
                        Some(sp) => {
                            let ghost spm = sp@;
                            match server.search_documents(sp) {
                                Ok(resp) => {
                                    let r = make_search_result(&idv, &resp.documents);
                                    proof {
                                        let ghost docs = resp.documents@.map_values(
                                            |d: SearchableDocument| d@,
                                        );
                                        assert(r@ == search_result_resp(id_text(m), docs));
                                        assert(docs.len() == capped_matches(
                                            spm.query,
                                            server_docs(*server),
                                            limit_of(spm),
                                        ));
                                        assert forall|j: int| 0 <= j < docs.len() implies
                                            server_docs(*server).contains(#[trigger] docs[j])
                                            && query_matches(spm.query, docs[j]) by {
                                            assert(docs[j] == resp.documents@[j]@);
                                        }
                                        if 1 <= limit_of(spm) && matching_count(
                                            spm.query,
                                            server_docs(*server),
                                        ) <= limit_of(spm) as nat {
                                            assert(search_complete(
                                                spm.query,
                                                server_docs(*server),
                                                docs,
                                            ));
                                        }
                                        assert(search_ok_outcome(
                                            server_docs(*server),
                                            r@,
                                            m,
                                            spm,
                                        ));
                                    }
                                    r
                                },
                                Err(e) => {
                                    let r = make_internal_error(&idv, e.message.as_str());
                                    proof {
                                        let cause = choose|c: Seq<char>|
                                            e.message@ == "Failed to search documents: "@ + c;
                                        assert(r@ == internal_error_resp(
                                            id_text(m),
                                            "Failed to search documents: "@ + cause,
                                        ));
                                    }
                                    r
                                },
                            }
                        },
                    },
                }
            } else {
                make_method_not_found(&idv, method.as_str())
            }
        },
    }
}

} // verus!
