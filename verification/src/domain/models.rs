//! The record, summary and filter value types, and the rules that keep a
//! record's fields in normal form.

use crate::text::{
    first_line, hyphenate, hyphenated, is_whitespace, lemma_hyphenated, lowercase_of,
    opt_text, same_text, take_first_line, texts, trim, trimmed,
};
use vstd::prelude::*;
use vstd::std_specs::cmp::PartialEqSpecImpl;

verus! {

/// Upper bound that keeps tag lists compact for storage and filtering.
pub const MAX_TAGS: usize = 12;

/// An instant on the UTC time line: whole seconds since the Unix epoch and
/// the nanoseconds within that second.
#[derive(Debug, Clone, Copy, PartialEq, Eq, Structural)]
pub struct Timestamp {
    pub secs: i64,
    pub nanos: u32,
}

impl Timestamp {
    /// A single integer that orders instants as time does.
    pub open spec fn order_key(self) -> int {
        self.secs * 0x1_0000_0000 + self.nanos
    }

    /// Tells whether this instant lies strictly after `other`.
    pub fn is_after(&self, other: &Timestamp) -> (r: bool)
        ensures
            r == (self.order_key() > other.order_key()),
    {
        self.secs > other.secs || (self.secs == other.secs && self.nanos > other.nanos)
    }
}

/// The place of a score in the total order of IEEE 754 single-precision
/// numbers, read off its bit pattern: negative numbers below positive ones,
/// `-0` below `+0`, and among numbers of one sign the order of their
/// magnitudes, reversed for the negative ones.
pub open spec fn score_key(bits: u32) -> int {
    if bits < 0x8000_0000 {
        bits as int
    } else {
        -1 - (bits - 0x8000_0000)
    }
}

/// Computes the place of a score in the total order.
pub fn score_order_key(bits: u32) -> (k: i64)
    ensures
        k == score_key(bits),
{
    if bits < 0x8000_0000 {
        bits as i64
    } else {
        -1 - ((bits - 0x8000_0000) as i64)
    }
}

/// What a stored item is about.
#[derive(Debug)]
pub enum ContextKind {
    CodeSnippet,
    FixHistory,
    ProjectSummary,
    Discussion,
    ToolLog,
    /// Any other kind, under a label of the caller's choosing.
    Other(String),
}

/// Mathematical model of a [`ContextKind`].
pub enum KindView {
    CodeSnippet,
    FixHistory,
    ProjectSummary,
    Discussion,
    ToolLog,
    Other(Seq<char>),
}

impl View for ContextKind {
    type V = KindView;

    open spec fn view(&self) -> KindView {
        match self {
            ContextKind::CodeSnippet => KindView::CodeSnippet,
            ContextKind::FixHistory => KindView::FixHistory,
            ContextKind::ProjectSummary => KindView::ProjectSummary,
            ContextKind::Discussion => KindView::Discussion,
            ContextKind::ToolLog => KindView::ToolLog,
            ContextKind::Other(label) => KindView::Other(label@),
        }
    }
}

impl DeepView for ContextKind {
    type V = KindView;

    open spec fn deep_view(&self) -> KindView {
        self@
    }
}

impl Clone for ContextKind {
    fn clone(&self) -> (out: Self)
        ensures
            out@ == self@,
    {
        match self {
            ContextKind::CodeSnippet => ContextKind::CodeSnippet,
            ContextKind::FixHistory => ContextKind::FixHistory,
            ContextKind::ProjectSummary => ContextKind::ProjectSummary,
            ContextKind::Discussion => ContextKind::Discussion,
            ContextKind::ToolLog => ContextKind::ToolLog,
            ContextKind::Other(label) => ContextKind::Other(label.clone()),
        }
    }
}

impl PartialEq for ContextKind {
    fn eq(&self, other: &Self) -> (r: bool) {
        match (self, other) {
            (ContextKind::CodeSnippet, ContextKind::CodeSnippet) => true,
            (ContextKind::FixHistory, ContextKind::FixHistory) => true,
            (ContextKind::ProjectSummary, ContextKind::ProjectSummary) => true,
            (ContextKind::Discussion, ContextKind::Discussion) => true,
            (ContextKind::ToolLog, ContextKind::ToolLog) => true,
            (ContextKind::Other(a), ContextKind::Other(b)) => same_text(a.as_str(), b.as_str()),
            _ => false,
        }
    }
}

impl PartialEqSpecImpl for ContextKind {
    open spec fn obeys_eq_spec() -> bool {
        true
    }

    open spec fn eq_spec(&self, other: &Self) -> bool {
        self@ == other@
    }
}

impl Eq for ContextKind {

}

impl Default for ContextKind {
    fn default() -> (out: Self)
        ensures
            out@ == KindView::Other("unspecified"@),
    {
        ContextKind::Other("unspecified".to_owned())
    }
}

/// Vector representation of a context chunk. Each component is held as the
/// bit pattern of an IEEE 754 single-precision number.
#[derive(Debug)]
pub struct ContextEmbedding {
    pub model: String,
    pub vector: Vec<u32>,
}

/// Mathematical model of a [`ContextEmbedding`].
pub struct EmbeddingView {
    pub model: Seq<char>,
    pub vector: Seq<u32>,
}

impl View for ContextEmbedding {
    type V = EmbeddingView;

    open spec fn view(&self) -> EmbeddingView {
        EmbeddingView { model: self.model@, vector: self.vector@ }
    }
}

impl DeepView for ContextEmbedding {
    type V = EmbeddingView;

    open spec fn deep_view(&self) -> EmbeddingView {
        self@
    }
}

impl Clone for ContextEmbedding {
    fn clone(&self) -> (out: Self)
        ensures
            out@ == self@,
    {
        let mut vector: Vec<u32> = Vec::new();
        let mut i: usize = 0;
        while i < self.vector.len()
            invariant
                i <= self.vector.len(),
                vector@ == self.vector@.subrange(0, i as int),
            decreases self.vector.len() - i,
        {
            vector.push(self.vector[i]);
            i += 1;
        }
        assert(self.vector@.subrange(0, self.vector.len() as int) == self.vector@);
        ContextEmbedding { model: self.model.clone(), vector }
    }
}

impl ContextEmbedding {
    /// The embedding that the given model issued.
    pub fn new(model: &str, vector: Vec<u32>) -> (out: Self)
        ensures
            out@ == (EmbeddingView { model: model@, vector: vector@ }),
    {
        ContextEmbedding { model: model.to_owned(), vector }
    }

    /// Number of components.
    pub fn dims(&self) -> (n: usize)
        ensures
            n == self@.vector.len(),
    {
        self.vector.len()
    }
}

/// Core record: a stored context chunk, its embedding and its metadata.
#[derive(Debug)]
pub struct ContextRecord {
    pub id: u128,
    pub project: String,
    pub ide: String,
    pub file_path: Option<String>,
    pub language: Option<String>,
    pub summary: String,
    pub body: String,
    pub tags: Vec<String>,
    pub kind: ContextKind,
    pub embedding: ContextEmbedding,
    pub created_at: Timestamp,
}

/// Mathematical model of a [`ContextRecord`].
pub struct RecordView {
    pub id: u128,
    pub project: Seq<char>,
    pub ide: Seq<char>,
    pub file_path: Option<Seq<char>>,
    pub language: Option<Seq<char>>,
    pub summary: Seq<char>,
    pub body: Seq<char>,
    pub tags: Seq<Seq<char>>,
    pub kind: KindView,
    pub embedding: EmbeddingView,
    pub created_at: Timestamp,
}

impl View for ContextRecord {
    type V = RecordView;

    open spec fn view(&self) -> RecordView {
        RecordView {
            id: self.id,
            project: self.project@,
            ide: self.ide@,
            file_path: opt_text(self.file_path),
            language: opt_text(self.language),
            summary: self.summary@,
            body: self.body@,
            tags: texts(self.tags@),
            kind: self.kind@,
            embedding: self.embedding@,
            created_at: self.created_at,
        }
    }
}

impl DeepView for ContextRecord {
    type V = RecordView;

    open spec fn deep_view(&self) -> RecordView {
        self@
    }
}

/// Lightweight projection of a record for listings: no body, no embedding.
#[derive(Debug)]
pub struct ContextSummary {
    pub id: u128,
    pub project: String,
    pub summary: String,
    pub kind: ContextKind,
    pub tags: Vec<String>,
    pub created_at: Timestamp,
}

/// Mathematical model of a [`ContextSummary`].
pub struct SummaryView {
    pub id: u128,
    pub project: Seq<char>,
    pub summary: Seq<char>,
    pub kind: KindView,
    pub tags: Seq<Seq<char>>,
    pub created_at: Timestamp,
}

impl View for ContextSummary {
    type V = SummaryView;

    open spec fn view(&self) -> SummaryView {
        SummaryView {
            id: self.id,
            project: self.project@,
            summary: self.summary@,
            kind: self.kind@,
            tags: texts(self.tags@),
            created_at: self.created_at,
        }
    }
}

impl DeepView for ContextSummary {
    type V = SummaryView;

    open spec fn deep_view(&self) -> SummaryView {
        self@
    }
}

/// Optional exact-match predicates, combined with AND.
#[derive(Debug)]
pub struct QueryFilters {
    pub project: Option<String>,
    pub kind: Option<ContextKind>,
    pub tag: Option<String>,
    pub ide: Option<String>,
}

/// Mathematical model of [`QueryFilters`].
pub struct FiltersView {
    pub project: Option<Seq<char>>,
    pub kind: Option<KindView>,
    pub tag: Option<Seq<char>>,
    pub ide: Option<Seq<char>>,
}

impl View for QueryFilters {
    type V = FiltersView;

    open spec fn view(&self) -> FiltersView {
        FiltersView {
            project: opt_text(self.project),
            kind: match self.kind {
                Some(k) => Some(k@),
                None => None,
            },
            tag: opt_text(self.tag),
            ide: opt_text(self.ide),
        }
    }
}

impl Default for QueryFilters {
    fn default() -> (out: Self)
        ensures
            out@ == (FiltersView { project: None, kind: None, tag: None, ide: None }),
    {
        QueryFilters { project: None, kind: None, tag: None, ide: None }
    }
}

/// Input of a retrieval: what to look for, under which filters, and how many
/// results at most.
#[derive(Debug)]
pub struct RetrievalQuery {
    pub prompt: String,
    pub filters: QueryFilters,
    pub limit: usize,
}

/// The separators of path components, which a project name may not hold.
pub open spec fn is_path_separator(c: char) -> bool {
    c == '\\' || c == '/' || c == ':'
}

/// The text with every path separator replaced by a hyphen.
pub open spec fn without_path_separators(s: Seq<char>) -> Seq<char> {
    Seq::new(
        s.len(),
        |i: int|
            if is_path_separator(s[i]) {
                '-'
            } else {
                s[i]
            },
    )
}

/// A field in single-line form: its first line, trimmed.
pub open spec fn single_line(s: Seq<char>) -> Seq<char> {
    trimmed(first_line(s))
}

/// A project name in normal form: single line, path separators replaced.
pub open spec fn sanitized_project(s: Seq<char>) -> Seq<char> {
    without_path_separators(single_line(s))
}

/// A tag in normal form: trimmed, lower-cased, inner whitespace collapsed to
/// hyphens.
pub open spec fn normalized_tag(t: Seq<char>) -> Seq<char> {
    hyphenated(lowercase_of(trimmed(t)))
}

/// A tag list in normal form: each tag normalised, empties and repetitions
/// dropped, first come first kept, at most [`MAX_TAGS`] entries.
pub open spec fn normalized_tags(tags: Seq<Seq<char>>) -> Seq<Seq<char>>
    decreases tags.len(),
{
    if tags.len() == 0 {
        Seq::empty()
    } else {
        let kept = normalized_tags(tags.drop_last());
        let tag = normalized_tag(tags.last());
        if tag.len() == 0 || kept.contains(tag) || kept.len() >= MAX_TAGS {
            kept
        } else {
            kept.push(tag)
        }
    }
}

/// What every stored tag list satisfies: at most [`MAX_TAGS`] entries, none
/// empty, none twice, none with whitespace in it.
pub open spec fn tags_in_normal_form(tags: Seq<Seq<char>>) -> bool {
    &&& tags.len() <= MAX_TAGS
    &&& forall|i: int| 0 <= i < tags.len() ==> (#[trigger] tags[i]).len() > 0
    &&& forall|i: int, j: int| 0 <= i < j < tags.len() ==> tags[i] != tags[j]
    &&& forall|i: int, k: int|
        0 <= i < tags.len() && 0 <= k < tags[i].len() ==> !is_whitespace(#[trigger] tags[i][k])
}

/// Normalising any tag list yields a list in normal form, each entry of
/// which is the normal form of one of the given tags.
pub proof fn lemma_normalized_tags(tags: Seq<Seq<char>>)
    ensures
        tags_in_normal_form(normalized_tags(tags)),
        forall|i: int|
            0 <= i < normalized_tags(tags).len() ==> exists|j: int|
                0 <= j < tags.len() && #[trigger] normalized_tags(tags)[i] == normalized_tag(
                    tags[j],
                ),
    decreases tags.len(),
{
    if tags.len() > 0 {
        let init = tags.drop_last();
        lemma_normalized_tags(init);
        let kept = normalized_tags(init);
        let tag = normalized_tag(tags.last());
        lemma_hyphenated(lowercase_of(trimmed(tags.last())));
        let out = normalized_tags(tags);
        assert forall|i: int| 0 <= i < out.len() implies exists|j: int|
            0 <= j < tags.len() && #[trigger] out[i] == normalized_tag(tags[j]) by {
            if i < kept.len() {
                let j = choose|j: int| 0 <= j < init.len() && kept[i] == normalized_tag(init[j]);
                assert(init[j] == tags[j]);
            } else {
                assert(out[i] == normalized_tag(tags[tags.len() - 1]));
            }
        }
    }
}

/// The summary that projects a record.
pub open spec fn summary_of(r: RecordView) -> SummaryView {
    SummaryView {
        id: r.id,
        project: r.project,
        summary: r.summary,
        kind: r.kind,
        tags: r.tags,
        created_at: r.created_at,
    }
}

/// A record matches when every predicate that is present matches: project,
/// kind and ide by equality, the tag by membership.
pub open spec fn record_matches(r: RecordView, f: FiltersView) -> bool {
    &&& f.project is Some ==> r.project == f.project->0
    &&& f.kind is Some ==> r.kind == f.kind->0
    &&& f.tag is Some ==> r.tags.contains(f.tag->0)
    &&& f.ide is Some ==> r.ide == f.ide->0
}

/// The record that the given parts make up, under the given identity and
/// creation time.
pub open spec fn record_of(
    id: u128,
    created_at: Timestamp,
    project: Seq<char>,
    ide: Seq<char>,
    file_path: Option<Seq<char>>,
    language: Option<Seq<char>>,
    summary: Seq<char>,
    body: Seq<char>,
    tags: Seq<Seq<char>>,
    kind: KindView,
    embedding: EmbeddingView,
) -> RecordView {
    RecordView {
        id,
        project: sanitized_project(project),
        ide: single_line(ide),
        file_path,
        language,
        summary,
        body,
        tags: normalized_tags(tags),
        kind,
        embedding,
        created_at,
    }
}

/// `uuid::Uuid::new_v4` draws a random identifier; it is handed on as the
/// 128-bit integer that `Uuid::as_u128` gives. Nothing is claimed of the
/// value.
#[verifier::external_body]
fn fresh_id() -> u128 {
    uuid::Uuid::new_v4().as_u128()
}

/// `chrono::Utc::now` reads the system clock; the instant is handed on as
/// the seconds of `DateTime::timestamp` and the nanoseconds of
/// `DateTime::timestamp_subsec_nanos`. Nothing is claimed of the value.
#[verifier::external_body]
pub(crate) fn current_time() -> Timestamp {
    let now = chrono::Utc::now();
    Timestamp { secs: now.timestamp(), nanos: now.timestamp_subsec_nanos() }
}

/// Copies a list of strings.
pub fn clone_texts(list: &Vec<String>) -> (out: Vec<String>)
    ensures
        texts(out@) == texts(list@),
{
    let mut out: Vec<String> = Vec::new();
    let mut i: usize = 0;
    while i < list.len()
        invariant
            i <= list.len(),
            out@.len() == i,
            forall|k: int| 0 <= k < i ==> out@[k]@ == list@[k]@,
        decreases list.len() - i,
    {
        out.push(list[i].clone());
        i += 1;
    }
    assert(texts(out@) =~= texts(list@));
    out
}

/// Copies an optional string.
pub fn clone_opt_text(o: &Option<String>) -> (out: Option<String>)
    ensures
        opt_text(out) == opt_text(*o),
{
    match o {
        Some(s) => Some(s.clone()),
        None => None,
    }
}

/// Tells whether a list of strings holds the given text.
pub fn contains_text(list: &Vec<String>, t: &str) -> (r: bool)
    ensures
        r == texts(list@).contains(t@),
{
    let mut i: usize = 0;
    while i < list.len()
        invariant
            i <= list.len(),
            forall|k: int| 0 <= k < i ==> texts(list@)[k] != t@,
        decreases list.len() - i,
    {
        if same_text(list[i].as_str(), t) {
            assert(texts(list@)[i as int] == t@);
            return true;
        }
        i += 1;
    }
    false
}

/// Replaces the path separators of a text by hyphens.
fn replace_path_separators(s: &str) -> (out: String)
    ensures
        out@ == without_path_separators(s@),
{
    let chars = crate::text::chars_of(s);
    let mut out = String::new();
    let mut i: usize = 0;
    while i < chars.len()
        invariant
            i <= chars.len(),
            chars@ == s@,
            out@ == without_path_separators(s@).subrange(0, i as int),
        decreases chars.len() - i,
    {
        let c = chars[i];
        let ghost before = out@;
        if c == '\\' || c == '/' || c == ':' {
            out.push('-');
        } else {
            out.push(c);
        }
        assert(out@ =~= without_path_separators(s@).subrange(0, i + 1));
        i += 1;
    }
    assert(without_path_separators(s@).subrange(0, chars.len() as int) == without_path_separators(
        s@,
    ));
    out
}

/// Reduces a field to a single line: keeps its first line and trims it. A
/// carriage return before the line feed is whitespace and falls to the trim.
pub fn sanitize_single_line(input: &str) -> (out: String)
    ensures
        out@ == single_line(input@),
{
    let line = take_first_line(input);
    trim(line.as_str())
}

/// Brings a project name into normal form.
pub fn sanitize_project(input: &str) -> (out: String)
    ensures
        out@ == sanitized_project(input@),
{
    let line = sanitize_single_line(input);
    replace_path_separators(line.as_str())
}

/// Brings one tag into normal form.
pub fn normalize_tag(tag: &str) -> (out: String)
    ensures
        out@ == normalized_tag(tag@),
{
    let trimmed = trim(tag);
    let lowered = trimmed.as_str().to_lowercase();
    hyphenate(lowered.as_str())
}

/// Brings a tag list into normal form.
pub fn normalize_tags(tags: Vec<String>) -> (out: Vec<String>)
    ensures
        texts(out@) == normalized_tags(texts(tags@)),
        tags_in_normal_form(texts(out@)),
{
    let mut out: Vec<String> = Vec::new();
    let mut i: usize = 0;
    while i < tags.len()
        invariant
            i <= tags.len(),
            texts(out@) == normalized_tags(texts(tags@).subrange(0, i as int)),
        decreases tags.len() - i,
    {
        let tag = normalize_tag(tags[i].as_str());
        proof {
            let next = texts(tags@).subrange(0, i + 1);
            assert(next.drop_last() == texts(tags@).subrange(0, i as int));
            assert(next.last() == tags@[i as int]@);
        }
        let empty = tag.as_str().is_empty();
        if !empty && out.len() < MAX_TAGS && !contains_text(&out, tag.as_str()) {
            let ghost before = out@;
            out.push(tag);
            assert(texts(out@) == texts(before).push(tag@));
        }
        i += 1;
    }
    proof {
        assert(texts(tags@).subrange(0, tags.len() as int) == texts(tags@));
        lemma_normalized_tags(texts(tags@));
    }
    out
}

impl ContextRecord {
    /// Creates a record under a fresh identity, stamped with the current
    /// time. The fields are brought into normal form.
    #[allow(clippy::too_many_arguments)]
    pub fn new(
        project: &str,
        ide: &str,
        file_path: Option<String>,
        language: Option<String>,
        summary: String,
        body: String,
        tags: Vec<String>,
        kind: ContextKind,
        embedding: ContextEmbedding,
    ) -> (out: Self)
        ensures
            out@ == record_of(
                out.id,
                out.created_at,
                project@,
                ide@,
                opt_text(file_path),
                opt_text(language),
                summary@,
                body@,
                texts(tags@),
                kind@,
                embedding@,
            ),
            tags_in_normal_form(out@.tags),
    {
        let id = fresh_id();
        let created_at = current_time();
        ContextRecord::assemble(
            id,
            created_at,
            project,
            ide,
            file_path,
            language,
            summary,
            body,
            tags,
            kind,
            embedding,
        )
    }

    /// Creates a record under the given identity and creation time. The
    /// fields are brought into normal form.
    #[allow(clippy::too_many_arguments)]
    pub fn assemble(
        id: u128,
        created_at: Timestamp,
        project: &str,
        ide: &str,
        file_path: Option<String>,
        language: Option<String>,
        summary: String,
        body: String,
        tags: Vec<String>,
        kind: ContextKind,
        embedding: ContextEmbedding,
    ) -> (out: Self)
        ensures
            out@ == record_of(
                id,
                created_at,
                project@,
                ide@,
                opt_text(file_path),
                opt_text(language),
                summary@,
                body@,
                texts(tags@),
                kind@,
                embedding@,
            ),
            tags_in_normal_form(out@.tags),
    {
        ContextRecord {
            id,
            project: sanitize_project(project),
            ide: sanitize_single_line(ide),
            file_path,
            language,
            summary,
            body,
            tags: normalize_tags(tags),
            kind,
            embedding,
            created_at,
        }
    }

    /// Tells whether the record passes every filter that is present.
    pub fn matches_filters(&self, filters: &QueryFilters) -> (r: bool)
        ensures
            r == record_matches(self@, filters@),
    {
        if let Some(project) = &filters.project {
            if !same_text(self.project.as_str(), project.as_str()) {
                return false;
            }
        }
        if let Some(kind) = &filters.kind {
            if !(self.kind == *kind) {
                return false;
            }
        }
        if let Some(tag) = &filters.tag {
            if !contains_text(&self.tags, tag.as_str()) {
                return false;
            }
        }
        if let Some(ide) = &filters.ide {
            if !same_text(self.ide.as_str(), ide.as_str()) {
                return false;
            }
        }
        true
    }

    /// Projects the record onto its summary.
    pub fn as_summary(&self) -> (out: ContextSummary)
        ensures
            out@ == summary_of(self@),
    {
        ContextSummary {
            id: self.id,
            project: self.project.clone(),
            summary: self.summary.clone(),
            kind: self.kind.clone(),
            created_at: self.created_at,
            tags: clone_texts(&self.tags),
        }
    }
}

impl Clone for ContextRecord {
    fn clone(&self) -> (out: Self)
        ensures
            out@ == self@,
    {
        ContextRecord {
            id: self.id,
            project: self.project.clone(),
            ide: self.ide.clone(),
            file_path: clone_opt_text(&self.file_path),
            language: clone_opt_text(&self.language),
            summary: self.summary.clone(),
            body: self.body.clone(),
            tags: clone_texts(&self.tags),
            kind: self.kind.clone(),
            embedding: self.embedding.clone(),
            created_at: self.created_at,
        }
    }
}

impl Clone for ContextSummary {
    fn clone(&self) -> (out: Self)
        ensures
            out@ == self@,
    {
        ContextSummary {
            id: self.id,
            project: self.project.clone(),
            summary: self.summary.clone(),
            kind: self.kind.clone(),
            created_at: self.created_at,
            tags: clone_texts(&self.tags),
        }
    }
}

impl Clone for QueryFilters {
    fn clone(&self) -> (out: Self)
        ensures
            out@ == self@,
    {
        QueryFilters {
            project: clone_opt_text(&self.project),
            kind: match &self.kind {
                Some(k) => Some(k.clone()),
                None => None,
            },
            tag: clone_opt_text(&self.tag),
            ide: clone_opt_text(&self.ide),
        }
    }
}

} // verus!
