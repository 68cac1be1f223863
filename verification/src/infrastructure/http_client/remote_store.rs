//! The remote proxy: how each storage call becomes a request to the owner
//! and how the owner's answers are read. Sending and receiving is the
//! caller's business.

use crate::application::dtos::{IngestContextRequest, IngestView};
use crate::domain::errors::{error_of, DomainError, ErrorKind};
use crate::domain::errors::ErrorView;
use crate::domain::models::{
    clone_opt_text, clone_texts, ContextEmbedding, ContextKind, ContextRecord, ContextSummary,
    EmbeddingView, QueryFilters, RecordView, Timestamp,
};
use crate::infrastructure::http_client::{get_service_url, service_url, HTTP_OK};
use crate::json::{json_member, json_opt_text, text_member};
use crate::text::{decimal, decimal_string, join, opt_text, texts};
use vstd::prelude::*;

verus! {

/// What `urlencoding::encode` yields for a text: every byte of its UTF-8
/// form percent-encoded, except ASCII letters, digits and `-`, `_`, `.`,
/// `~`.
pub uninterp spec fn percent_encoded(text: Seq<char>) -> Seq<char>;

/// What `uuid::Uuid::parse_str` makes of a text, as a 128-bit integer:
/// the identifier that the text writes out, if it writes one.
pub uninterp spec fn uuid_parsed(text: Seq<char>) -> Option<u128>;

/// `urlencoding::encode` percent-encodes a text. The result is named, not
/// described.
#[verifier::external_body]
fn percent_encode(text: &str) -> (out: String)
    ensures
        out@ == percent_encoded(text@),
{
    urlencoding::encode(text).into_owned()
}

/// `uuid::Uuid::parse_str` parses an identifier, which `Uuid::as_u128`
/// gives as an integer. The result is named, not described.
#[verifier::external_body]
fn parse_uuid(text: &str) -> (r: Option<u128>)
    ensures
        r == uuid_parsed(text@),
{
    match uuid::Uuid::parse_str(text) {
        Ok(id) => Some(id.as_u128()),
        Err(_) => None,
    }
}

/// The calls that the proxy forwards.
#[derive(Debug, Clone, Copy, PartialEq, Eq, Structural)]
pub enum RemoteCall {
    /// Saving a record.
    Persist,
    /// Sending a search.
    Search,
    /// Reading the answer to a search.
    ReadSearch,
    /// Asking for a listing.
    List,
    /// Reading the answer to a listing.
    ReadList,
    /// Asking for the projects.
    Projects,
    /// Reading the answer with the projects.
    ReadProjects,
    /// Probing the owner's health.
    Ping,
}

/// The words that introduce the failure of each call.
pub open spec fn failure_prefix(call: RemoteCall) -> Seq<char> {
    match call {
        RemoteCall::Persist => "Failed to save context: "@,
        RemoteCall::Search => "Search failed: "@,
        RemoteCall::ReadSearch => "Failed to parse search response: "@,
        RemoteCall::List => "Failed to list contexts: "@,
        RemoteCall::ReadList => "Failed to parse list response: "@,
        RemoteCall::Projects => "Failed to list projects: "@,
        RemoteCall::ReadProjects => "Failed to parse projects response: "@,
        RemoteCall::Ping => "Health check failed: "@,
    }
}

/// What became of a request to the owner.
#[derive(Debug)]
pub enum RemoteAnswer<T> {
    /// The request did not get through, or the owner answered with an error
    /// status; the words say which.
    Failed(String),
    /// The owner answered with a success, but the answer could not be read;
    /// the words say why.
    Unreadable(String),
    /// What the owner answered.
    Read(T),
}

/// What the proxy makes of an answer: the owner's answer as it stands, or
/// the storage error for the request that failed or for the answer that
/// could not be read.
pub open spec fn forwarded<T>(request: RemoteCall, reading: RemoteCall, answer: RemoteAnswer<T>)
    -> Result<T, ErrorView> {
    match answer {
        RemoteAnswer::Failed(words) => Err(
            error_of(ErrorKind::Storage, failure_prefix(request) + words@),
        ),
        RemoteAnswer::Unreadable(words) => Err(
            error_of(ErrorKind::Storage, failure_prefix(reading) + words@),
        ),
        RemoteAnswer::Read(value) => Ok(value),
    }
}

/// Turns an answer of the owner into the result of the forwarded call.
pub fn forward<T>(request: RemoteCall, reading: RemoteCall, answer: RemoteAnswer<T>) -> (r: Result<
    T,
    DomainError,
>)
    ensures
        match forwarded(request, reading, answer) {
            Ok(value) => r is Ok && r->Ok_0 == value,
            Err(e) => r is Err && r->Err_0@ == e,
        },
{
    match answer {
        RemoteAnswer::Failed(words) => Err(RemoteVectorStore::failure(request, words.as_str())),
        RemoteAnswer::Unreadable(words) => Err(
            RemoteVectorStore::failure(reading, words.as_str()),
        ),
        RemoteAnswer::Read(value) => Ok(value),
    }
}

/// A hit of a remote search as it arrives: each member is there if the
/// answer holds it in the expected form.
#[derive(Debug)]
pub struct RawHit {
    /// The score, as the bit pattern of a single-precision number.
    pub score: Option<u32>,
    pub id: Option<String>,
    pub project: Option<String>,
    pub ide: Option<String>,
    pub file_path: Option<String>,
    pub language: Option<String>,
    pub summary: Option<String>,
    pub body: Option<String>,
    pub tags: Option<Vec<String>>,
    pub kind: Option<ContextKind>,
    pub created_at: Option<Timestamp>,
}

/// Reads a hit of a remote search from its JSON value: the texts are the
/// members of their names, as far as they are strings; the other members
/// are handed in as the caller has read them.
pub fn read_hit(
    item: &serde_json::Value,
    score: Option<u32>,
    tags: Option<Vec<String>>,
    kind: Option<ContextKind>,
    created_at: Option<Timestamp>,
) -> (raw: RawHit)
    ensures
        raw.score == score,
        raw.tags == tags,
        raw.kind == kind,
        raw.created_at == created_at,
        opt_text(raw.id) == json_opt_text(json_member(*item, "id"@)),
        opt_text(raw.project) == json_opt_text(json_member(*item, "project"@)),
        opt_text(raw.ide) == json_opt_text(json_member(*item, "ide"@)),
        opt_text(raw.file_path) == json_opt_text(json_member(*item, "file_path"@)),
        opt_text(raw.language) == json_opt_text(json_member(*item, "language"@)),
        opt_text(raw.summary) == json_opt_text(json_member(*item, "summary"@)),
        opt_text(raw.body) == json_opt_text(json_member(*item, "body"@)),
{
    RawHit {
        score,
        id: text_member(item, "id"),
        project: text_member(item, "project"),
        ide: text_member(item, "ide"),
        file_path: text_member(item, "file_path"),
        language: text_member(item, "language"),
        summary: text_member(item, "summary"),
        body: text_member(item, "body"),
        tags,
        kind,
        created_at,
    }
}

/// The text of an optional member, or the empty text.
pub open spec fn or_empty(t: Option<String>) -> Seq<char> {
    match t {
        Some(s) => s@,
        None => Seq::empty(),
    }
}

/// The tags of an optional member, or none.
pub open spec fn or_no_tags(t: Option<Vec<String>>) -> Seq<Seq<char>> {
    match t {
        Some(tags) => texts(tags@),
        None => Seq::empty(),
    }
}

/// What a raw hit decodes to. A hit counts only if it has an identifier
/// that parses, a kind and a creation time; missing texts read as empty,
/// missing tags as none and a missing score as zero. The vector does not
/// travel.
pub open spec fn decoded(raw: RawHit) -> Option<(RecordView, u32)> {
    if raw.id is Some && uuid_parsed(raw.id->0@) is Some && raw.kind is Some && raw.created_at
        is Some {
        Some(
            (
                RecordView {
                    id: uuid_parsed(raw.id->0@)->0,
                    project: or_empty(raw.project),
                    ide: or_empty(raw.ide),
                    file_path: opt_text(raw.file_path),
                    language: opt_text(raw.language),
                    summary: or_empty(raw.summary),
                    body: or_empty(raw.body),
                    tags: or_no_tags(raw.tags),
                    kind: raw.kind->0@,
                    embedding: EmbeddingView { model: "remote"@, vector: Seq::empty() },
                    created_at: raw.created_at->0,
                },
                match raw.score {
                    Some(bits) => bits,
                    None => 0u32,
                },
            ),
        )
    } else {
        None
    }
}

/// The hits that count, decoded, in order.
pub open spec fn decoded_all(raws: Seq<RawHit>) -> Seq<(RecordView, u32)>
    decreases raws.len(),
{
    if raws.len() == 0 {
        Seq::empty()
    } else {
        match decoded(raws.last()) {
            Some(hit) => decoded_all(raws.drop_last()).push(hit),
            None => decoded_all(raws.drop_last()),
        }
    }
}

fn text_or_empty(t: Option<String>) -> (out: String)
    ensures
        out@ == or_empty(t),
{
    match t {
        Some(s) => s,
        None => String::new(),
    }
}

/// Decodes one hit of a remote search.
pub fn decode_hit(raw: RawHit) -> (r: Option<(ContextRecord, u32)>)
    ensures
        match decoded(raw) {
            Some(hit) => r matches Some(pair) && pair.0@ == hit.0 && pair.1 == hit.1,
            None => r is None,
        },
{
    let id = match &raw.id {
        Some(text) => match parse_uuid(text.as_str()) {
            Some(id) => id,
            None => {
                return None;
            },
        },
        None => {
            return None;
        },
    };
    let kind = match raw.kind {
        Some(kind) => kind,
        None => {
            return None;
        },
    };
    let created_at = match raw.created_at {
        Some(at) => at,
        None => {
            return None;
        },
    };
    let score = match raw.score {
        Some(bits) => bits,
        None => 0,
    };
    let tags: Vec<String> = match raw.tags {
        Some(tags) => tags,
        None => Vec::new(),
    };
    assert(texts(tags@) =~= or_no_tags(raw.tags));
    let record = ContextRecord {
        id,
        project: text_or_empty(raw.project),
        ide: text_or_empty(raw.ide),
        file_path: raw.file_path,
        language: raw.language,
        summary: text_or_empty(raw.summary),
        body: text_or_empty(raw.body),
        tags,
        kind,
        embedding: ContextEmbedding::new("remote", Vec::new()),
        created_at,
    };
    Some((record, score))
}

/// The model of decoded hits.
pub open spec fn hit_views(hits: Seq<(ContextRecord, u32)>) -> Seq<(RecordView, u32)> {
    Seq::new(hits.len(), |i: int| (hits[i].0@, hits[i].1))
}

/// Decodes the hits of a remote search, dropping those that do not count.
pub fn decode_hits(raws: Vec<RawHit>) -> (out: Vec<(ContextRecord, u32)>)
    ensures
        hit_views(out@) == decoded_all(raws@),
{
    let ghost all = raws@;
    let mut rest = crate::ranking::reversed(raws);
    let mut out: Vec<(ContextRecord, u32)> = Vec::new();
    proof {
        assert(all.subrange(0, 0) =~= Seq::<RawHit>::empty());
        assert(hit_views(out@) =~= Seq::<(RecordView, u32)>::empty());
    }
    while rest.len() > 0
        invariant
            rest@.len() <= all.len(),
            forall|k: int| 0 <= k < rest@.len() ==> rest@[k] == all[all.len() - 1 - k],
            hit_views(out@) == decoded_all(all.subrange(0, all.len() - rest@.len())),
        decreases rest.len(),
    {
        let ghost done = all.len() - rest@.len();
        let ghost before = hit_views(out@);
        let raw = rest.pop().unwrap();
        proof {
            let next = all.subrange(0, done + 1);
            assert(next.drop_last() =~= all.subrange(0, done));
            assert(next.last() == raw);
        }
        match decode_hit(raw) {
            Some(hit) => {
                let ghost view = (hit.0@, hit.1);
                out.push(hit);
                assert(hit_views(out@) =~= before.push(view));
            },
            None => {},
        }
    }
    proof {
        assert(all.subrange(0, all.len() as int) =~= all);
    }
    out
}

/// What the proxy sends to search: the vector, the limit and the filters,
/// beside an empty prompt. The owner searches by the vector as it stands
/// and does not embed anew.
#[derive(Debug)]
pub struct RemoteSearchRequest {
    pub prompt: String,
    /// The query vector, as bit patterns of single-precision numbers.
    pub embedding: Vec<u32>,
    pub limit: usize,
    pub filters: QueryFilters,
}

/// Proxy to the process that owns the store: the addresses and payloads of
/// its requests and the reading of the answers.
#[derive(Debug)]
pub struct RemoteVectorStore {
    base_url: String,
}

impl RemoteVectorStore {
    /// The base address of the owner.
    pub closed spec fn base_url(&self) -> Seq<char> {
        self.base_url@
    }

    /// A proxy to the owner at the given host and port.
    pub fn new(host: &str, port: u16) -> (out: Self)
        ensures
            out.base_url() == service_url(host@, port),
    {
        RemoteVectorStore { base_url: get_service_url(host, port) }
    }

    /// The address of an endpoint of the REST surface.
    pub fn api_url(&self, path: &str) -> (url: String)
        ensures
            url@ == self.base_url() + "/api/"@ + path@,
    {
        crate::text::join3(self.base_url.as_str(), "/api/", path)
    }

    /// The address of the health endpoint.
    pub fn health_url(&self) -> (url: String)
        ensures
            url@ == self.base_url() + "/health"@,
    {
        join(self.base_url.as_str(), "/health")
    }

    /// The address of a listing: the contexts endpoint with the project,
    /// percent-encoded, if one is named, and the limit.
    pub fn recent_url(&self, project: Option<&str>, limit: usize) -> (url: String)
        ensures
            url@ == self.base_url() + "/api/"@ + "contexts"@ + "?"@ + match project {
                Some(p) => "project="@ + percent_encoded(p@) + "&"@,
                None => Seq::<char>::empty(),
            } + "limit="@ + decimal(limit as nat),
    {
        let mut url = self.api_url("contexts");
        url.append("?");
        let ghost head = url@;
        if let Some(p) = project {
            url.append("project=");
            url.append(percent_encode(p).as_str());
            url.append("&");
            assert(url@ =~= head + ("project="@ + percent_encoded(p@) + "&"@));
        } else {
            assert(url@ =~= head + Seq::<char>::empty());
        }
        url.append("limit=");
        url.append(decimal_string(limit).as_str());
        url
    }

    /// The payload that saves a record at the owner: the record's fields
    /// as an ingest request. The owner embeds anew and issues its own
    /// identity and time.
    pub fn persist_payload(&self, record: &ContextRecord) -> (out: IngestContextRequest)
        ensures
            out@ == (IngestView {
                project: record@.project,
                ide: record@.ide,
                file_path: record@.file_path,
                language: record@.language,
                summary: record@.summary,
                body: record@.body,
                tags: record@.tags,
                kind: record@.kind,
            }),
    {
        IngestContextRequest {
            project: record.project.clone(),
            ide: record.ide.clone(),
            file_path: clone_opt_text(&record.file_path),
            language: clone_opt_text(&record.language),
            summary: record.summary.clone(),
            body: record.body.clone(),
            tags: clone_texts(&record.tags),
            kind: record.kind.clone(),
        }
    }

    /// The payload of a remote search.
    pub fn search_payload(
        &self,
        embedding: &ContextEmbedding,
        limit: usize,
        filters: &QueryFilters,
    ) -> (out: RemoteSearchRequest)
        ensures
            out.prompt@ == Seq::<char>::empty(),
            out.embedding@ == embedding@.vector,
            out.limit == limit,
            out.filters@ == filters@,
    {
        let copy = embedding.clone();
        RemoteSearchRequest {
            prompt: String::new(),
            embedding: copy.vector,
            limit,
            filters: filters.clone(),
        }
    }

    /// The storage error for a call that did not get through, or whose
    /// answer could not be read.
    pub fn failure(call: RemoteCall, detail: &str) -> (e: DomainError)
        ensures
            e@ == error_of(ErrorKind::Storage, failure_prefix(call) + detail@),
    {
        let prefix: &str = match call {
            RemoteCall::Persist => "Failed to save context: ",
            RemoteCall::Search => "Search failed: ",
            RemoteCall::ReadSearch => "Failed to parse search response: ",
            RemoteCall::List => "Failed to list contexts: ",
            RemoteCall::ReadList => "Failed to parse list response: ",
            RemoteCall::Projects => "Failed to list projects: ",
            RemoteCall::ReadProjects => "Failed to parse projects response: ",
            RemoteCall::Ping => "Health check failed: ",
        };
        DomainError::storage(join(prefix, detail).as_str())
    }

    /// The storage error for a search answer without a list of results.
    pub fn malformed_search_response() -> (e: DomainError)
        ensures
            e@ == error_of(ErrorKind::Storage, "Invalid search response format"@),
    {
        DomainError::storage("Invalid search response format")
    }

    /// Reads the status of a health probe that got through: the owner is
    /// alive if and only if it answered with a success.
    pub fn ping_result(status: u16) -> (r: Result<(), DomainError>)
        ensures
            status == HTTP_OK ==> r is Ok,
            status != HTTP_OK ==> r is Err && r->Err_0@ == error_of(
                ErrorKind::Storage,
                "Remote service is not healthy"@,
            ),
    {
        if status == HTTP_OK {
            Ok(())
        } else {
            Err(DomainError::storage("Remote service is not healthy"))
        }
    }

    /// The address that the owner's projects are asked from.
    pub fn projects_url(&self) -> (url: String)
        ensures
            url@ == self.base_url() + "/api/"@ + "projects"@,
    {
        self.api_url("projects")
    }

    /// The result of saving a record at the owner: success if the request
    /// got through, else the storage error with the words of the failure.
    pub fn persist(&self, sent: Result<(), String>) -> (r: Result<(), DomainError>)
        ensures
            match sent {
                Ok(_) => r is Ok,
                Err(words) => r is Err && r->Err_0@ == error_of(
                    ErrorKind::Storage,
                    failure_prefix(RemoteCall::Persist) + words@,
                ),
            },
    {
        match sent {
            Ok(_) => Ok(()),
            Err(words) => Err(RemoteVectorStore::failure(RemoteCall::Persist, words.as_str())),
        }
    }

    /// The result of a remote search: the hits that the owner answered,
    /// decoded one for one and in the owner's order. A request that failed,
    /// an answer that could not be read and an answer without a list of
    /// results (`Read(None)`) are storage errors.
    pub fn search(&self, answer: RemoteAnswer<Option<Vec<RawHit>>>) -> (r: Result<
        Vec<(ContextRecord, u32)>,
        DomainError,
    >)
        ensures
            match forwarded(RemoteCall::Search, RemoteCall::ReadSearch, answer) {
                Ok(Some(hits)) => r is Ok && hit_views(r->Ok_0@) == decoded_all(hits@),
                Ok(None) => r is Err && r->Err_0@ == error_of(
                    ErrorKind::Storage,
                    "Invalid search response format"@,
                ),
                Err(e) => r is Err && r->Err_0@ == e,
            },
    {
        match forward(RemoteCall::Search, RemoteCall::ReadSearch, answer) {
            Ok(Some(hits)) => Ok(decode_hits(hits)),
            Ok(None) => Err(RemoteVectorStore::malformed_search_response()),
            Err(e) => Err(e),
        }
    }

    /// The result of a remote listing: the summaries that the owner
    /// answered, as they stand; a request that failed and an answer that
    /// could not be read are storage errors.
    pub fn recent(&self, answer: RemoteAnswer<Vec<ContextSummary>>) -> (r: Result<
        Vec<ContextSummary>,
        DomainError,
    >)
        ensures
            match forwarded(RemoteCall::List, RemoteCall::ReadList, answer) {
                Ok(listed) => r is Ok && r->Ok_0 == listed,
                Err(e) => r is Err && r->Err_0@ == e,
            },
    {
        forward(RemoteCall::List, RemoteCall::ReadList, answer)
    }

    /// The projects that the proxy names: exactly those that the owner
    /// answered, in the owner's order; a request that failed and an answer
    /// that could not be read are storage errors.
    pub fn projects(&self, answer: RemoteAnswer<Vec<String>>) -> (r: Result<
        Vec<String>,
        DomainError,
    >)
        ensures
            match forwarded(RemoteCall::Projects, RemoteCall::ReadProjects, answer) {
                Ok(names) => r is Ok && r->Ok_0 == names,
                Err(e) => r is Err && r->Err_0@ == e,
            },
    {
        forward(RemoteCall::Projects, RemoteCall::ReadProjects, answer)
    }

    /// The result of a health probe: the owner is alive if and only if the
    /// probe got through and was answered with a success.
    pub fn ping(&self, probed: Result<u16, String>) -> (r: Result<(), DomainError>)
        ensures
            match probed {
                Ok(status) => if status == HTTP_OK {
                    r is Ok
                } else {
                    r is Err && r->Err_0@ == error_of(
                        ErrorKind::Storage,
                        "Remote service is not healthy"@,
                    )
                },
                Err(words) => r is Err && r->Err_0@ == error_of(
                    ErrorKind::Storage,
                    failure_prefix(RemoteCall::Ping) + words@,
                ),
            },
    {
        match probed {
            Ok(status) => RemoteVectorStore::ping_result(status),
            Err(words) => Err(RemoteVectorStore::failure(RemoteCall::Ping, words.as_str())),
        }
    }
}

} // verus!
