//! The catalogue of neural embedding models and the checks around a
//! neural engine. Inference itself is the plugged-in engine's business.

use crate::domain::errors::{error_of, DomainError, ErrorKind, ErrorView};
use crate::infrastructure::embeddings::simple_engine::{check_request, request_rejection};
use crate::text::{blank, join, decimal, decimal_string, same_text, trim, trimmed};
use vstd::prelude::*;

verus! {

/// The models of the catalogue.
#[derive(Debug, Clone, Copy, PartialEq, Eq, Structural)]
pub enum EmbeddingModel {
    BGESmallENV15,
    AllMiniLML6V2,
    MxbaiEmbedLargeV1,
    ClipVitB32,
    BGELargeENV15,
    BGESmallZHV15,
    BGELargeZHV15,
    BGEBaseENV15,
    AllMiniLML12V2,
    ParaphraseMLMpnetBaseV2,
    ModernBertEmbedLarge,
    NomicEmbedTextV1,
    NomicEmbedTextV15,
    MultilingualE5Small,
    MultilingualE5Base,
    MultilingualE5Large,
    GTEBaseENV15,
    GTELargeENV15,
}

/// The three names that a model answers to: with its publisher, without,
/// and in identifier form.
pub open spec fn names_of(m: EmbeddingModel) -> (Seq<char>, Seq<char>, Seq<char>) {
    match m {
        EmbeddingModel::BGESmallENV15 => (
            "BAAI/bge-small-en-v1.5"@,
            "bge-small-en-v1.5"@,
            "BGESmallENV15"@,
        ),
        EmbeddingModel::AllMiniLML6V2 => (
            "sentence-transformers/all-MiniLM-L6-v2"@,
            "all-MiniLM-L6-v2"@,
            "AllMiniLML6V2"@,
        ),
        EmbeddingModel::MxbaiEmbedLargeV1 => (
            "mixedbread-ai/mxbai-embed-large-v1"@,
            "mxbai-embed-large-v1"@,
            "MxbaiEmbedLargeV1"@,
        ),
        EmbeddingModel::ClipVitB32 => (
            "Qdrant/clip-ViT-B-32-text"@,
            "clip-ViT-B-32-text"@,
            "ClipVitB32"@,
        ),
        EmbeddingModel::BGELargeENV15 => (
            "BAAI/bge-large-en-v1.5"@,
            "bge-large-en-v1.5"@,
            "BGELargeENV15"@,
        ),
        EmbeddingModel::BGESmallZHV15 => (
            "BAAI/bge-small-zh-v1.5"@,
            "bge-small-zh-v1.5"@,
            "BGESmallZHV15"@,
        ),
        EmbeddingModel::BGELargeZHV15 => (
            "BAAI/bge-large-zh-v1.5"@,
            "bge-large-zh-v1.5"@,
            "BGELargeZHV15"@,
        ),
        EmbeddingModel::BGEBaseENV15 => (
            "BAAI/bge-base-en-v1.5"@,
            "bge-base-en-v1.5"@,
            "BGEBaseENV15"@,
        ),
        EmbeddingModel::AllMiniLML12V2 => (
            "sentence-transformers/all-MiniLM-L12-v2"@,
            "all-MiniLM-L12-v2"@,
            "AllMiniLML12V2"@,
        ),
        EmbeddingModel::ParaphraseMLMpnetBaseV2 => (
            "sentence-transformers/paraphrase-multilingual-mpnet-base-v2"@,
            "paraphrase-multilingual-mpnet-base-v2"@,
            "ParaphraseMLMpnetBaseV2"@,
        ),
        EmbeddingModel::ModernBertEmbedLarge => (
            "lightonai/ModernBERT-embed-large"@,
            "ModernBERT-embed-large"@,
            "ModernBertEmbedLarge"@,
        ),
        EmbeddingModel::NomicEmbedTextV1 => (
            "nomic-ai/nomic-embed-text-v1"@,
            "nomic-embed-text-v1"@,
            "NomicEmbedTextV1"@,
        ),
        EmbeddingModel::NomicEmbedTextV15 => (
            "nomic-ai/nomic-embed-text-v1.5"@,
            "nomic-embed-text-v1.5"@,
            "NomicEmbedTextV15"@,
        ),
        EmbeddingModel::MultilingualE5Small => (
            "intfloat/multilingual-e5-small"@,
            "multilingual-e5-small"@,
            "MultilingualE5Small"@,
        ),
        EmbeddingModel::MultilingualE5Base => (
            "intfloat/multilingual-e5-base"@,
            "multilingual-e5-base"@,
            "MultilingualE5Base"@,
        ),
        EmbeddingModel::MultilingualE5Large => (
            "intfloat/multilingual-e5-large"@,
            "multilingual-e5-large"@,
            "MultilingualE5Large"@,
        ),
        EmbeddingModel::GTEBaseENV15 => (
            "Alibaba-NLP/gte-base-en-v1.5"@,
            "gte-base-en-v1.5"@,
            "GTEBaseENV15"@,
        ),
        EmbeddingModel::GTELargeENV15 => (
            "Alibaba-NLP/gte-large-en-v1.5"@,
            "gte-large-en-v1.5"@,
            "GTELargeENV15"@,
        ),
    }
}

/// The catalogue, in the order in which names are looked up.
pub open spec fn catalogue() -> Seq<EmbeddingModel> {
    seq![
        EmbeddingModel::BGESmallENV15,
        EmbeddingModel::AllMiniLML6V2,
        EmbeddingModel::MxbaiEmbedLargeV1,
        EmbeddingModel::ClipVitB32,
        EmbeddingModel::BGELargeENV15,
        EmbeddingModel::BGESmallZHV15,
        EmbeddingModel::BGELargeZHV15,
        EmbeddingModel::BGEBaseENV15,
        EmbeddingModel::AllMiniLML12V2,
        EmbeddingModel::ParaphraseMLMpnetBaseV2,
        EmbeddingModel::ModernBertEmbedLarge,
        EmbeddingModel::NomicEmbedTextV1,
        EmbeddingModel::NomicEmbedTextV15,
        EmbeddingModel::MultilingualE5Small,
        EmbeddingModel::MultilingualE5Base,
        EmbeddingModel::MultilingualE5Large,
        EmbeddingModel::GTEBaseENV15,
        EmbeddingModel::GTELargeENV15,
    ]
}

/// A model answers to a name when the name is one of its three, letter
/// for letter.
pub open spec fn answers_to(m: EmbeddingModel, name: Seq<char>) -> bool {
    name == names_of(m).0 || name == names_of(m).1 || name == names_of(m).2
}

/// The first of the given models, from index `from` on, that answers to
/// the name.
pub open spec fn first_answering(models: Seq<EmbeddingModel>, from: int, name: Seq<char>)
    -> Option<EmbeddingModel>
    decreases models.len() - from,
{
    if from < 0 || from >= models.len() {
        None
    } else if answers_to(models[from], name) {
        Some(models[from])
    } else {
        first_answering(models, from + 1, name)
    }
}

/// The model of the catalogue that a name stands for, if any.
pub open spec fn model_named(name: Seq<char>) -> Option<EmbeddingModel> {
    first_answering(catalogue(), 0, name)
}

/// What parsing a model name gives: the model, or an error that repeats
/// the unknown name.
pub open spec fn parsed_model(name: Seq<char>) -> Result<EmbeddingModel, ErrorView> {
    match model_named(name) {
        Some(m) => Ok(m),
        None => Err(error_of(ErrorKind::Other, "Unknown embedding model: "@ + name)),
    }
}

/// What resolving a configured model name gives: the trimmed label and
/// its model; a validation error for a blank name; the parse error for an
/// unknown one.
pub open spec fn resolved_model(name: Seq<char>) -> Result<(Seq<char>, EmbeddingModel), ErrorView> {
    if blank(name) {
        Err(error_of(ErrorKind::Validation, "fastembed model name cannot be empty"@))
    } else {
        match parsed_model(trimmed(name)) {
            Ok(m) => Ok((trimmed(name), m)),
            Err(e) => Err(e),
        }
    }
}

/// Why a vector is turned away, if it is: its length is not the expected
/// one.
pub open spec fn vector_rejection(len: usize, expected: usize) -> Option<ErrorView> {
    if len != expected {
        Some(
            error_of(
                ErrorKind::Embedding,
                "unexpected embedding dimension (expected "@ + decimal(expected as nat) + ", got "@
                    + decimal(len as nat) + ")"@,
            ),
        )
    } else {
        None
    }
}

/// The three names that a model answers to.
pub fn model_names(m: EmbeddingModel) -> (names: (&'static str, &'static str, &'static str))
    ensures
        (names.0@, names.1@, names.2@) == names_of(m),
{
    match m {
        EmbeddingModel::BGESmallENV15 => (
            "BAAI/bge-small-en-v1.5",
            "bge-small-en-v1.5",
            "BGESmallENV15",
        ),
        EmbeddingModel::AllMiniLML6V2 => (
            "sentence-transformers/all-MiniLM-L6-v2",
            "all-MiniLM-L6-v2",
            "AllMiniLML6V2",
        ),
        EmbeddingModel::MxbaiEmbedLargeV1 => (
            "mixedbread-ai/mxbai-embed-large-v1",
            "mxbai-embed-large-v1",
            "MxbaiEmbedLargeV1",
        ),
        EmbeddingModel::ClipVitB32 => ("Qdrant/clip-ViT-B-32-text", "clip-ViT-B-32-text", "ClipVitB32"),
        EmbeddingModel::BGELargeENV15 => (
            "BAAI/bge-large-en-v1.5",
            "bge-large-en-v1.5",
            "BGELargeENV15",
        ),
        EmbeddingModel::BGESmallZHV15 => (
            "BAAI/bge-small-zh-v1.5",
            "bge-small-zh-v1.5",
            "BGESmallZHV15",
        ),
        EmbeddingModel::BGELargeZHV15 => (
            "BAAI/bge-large-zh-v1.5",
            "bge-large-zh-v1.5",
            "BGELargeZHV15",
        ),
        EmbeddingModel::BGEBaseENV15 => ("BAAI/bge-base-en-v1.5", "bge-base-en-v1.5", "BGEBaseENV15"),
        EmbeddingModel::AllMiniLML12V2 => (
            "sentence-transformers/all-MiniLM-L12-v2",
            "all-MiniLM-L12-v2",
            "AllMiniLML12V2",
        ),
        EmbeddingModel::ParaphraseMLMpnetBaseV2 => (
            "sentence-transformers/paraphrase-multilingual-mpnet-base-v2",
            "paraphrase-multilingual-mpnet-base-v2",
            "ParaphraseMLMpnetBaseV2",
        ),
        EmbeddingModel::ModernBertEmbedLarge => (
            "lightonai/ModernBERT-embed-large",
            "ModernBERT-embed-large",
            "ModernBertEmbedLarge",
        ),
        EmbeddingModel::NomicEmbedTextV1 => (
            "nomic-ai/nomic-embed-text-v1",
            "nomic-embed-text-v1",
            "NomicEmbedTextV1",
        ),
        EmbeddingModel::NomicEmbedTextV15 => (
            "nomic-ai/nomic-embed-text-v1.5",
            "nomic-embed-text-v1.5",
            "NomicEmbedTextV15",
        ),
        EmbeddingModel::MultilingualE5Small => (
            "intfloat/multilingual-e5-small",
            "multilingual-e5-small",
            "MultilingualE5Small",
        ),
        EmbeddingModel::MultilingualE5Base => (
            "intfloat/multilingual-e5-base",
            "multilingual-e5-base",
            "MultilingualE5Base",
        ),
        EmbeddingModel::MultilingualE5Large => (
            "intfloat/multilingual-e5-large",
            "multilingual-e5-large",
            "MultilingualE5Large",
        ),
        EmbeddingModel::GTEBaseENV15 => (
            "Alibaba-NLP/gte-base-en-v1.5",
            "gte-base-en-v1.5",
            "GTEBaseENV15",
        ),
        EmbeddingModel::GTELargeENV15 => (
            "Alibaba-NLP/gte-large-en-v1.5",
            "gte-large-en-v1.5",
            "GTELargeENV15",
        ),
    }
}

/// The models of the catalogue, in order.
pub fn all_models() -> (out: Vec<EmbeddingModel>)
    ensures
        out@ == catalogue(),
{
    let mut out: Vec<EmbeddingModel> = Vec::new();
    out.push(EmbeddingModel::BGESmallENV15);
    out.push(EmbeddingModel::AllMiniLML6V2);
    out.push(EmbeddingModel::MxbaiEmbedLargeV1);
    out.push(EmbeddingModel::ClipVitB32);
    out.push(EmbeddingModel::BGELargeENV15);
    out.push(EmbeddingModel::BGESmallZHV15);
    out.push(EmbeddingModel::BGELargeZHV15);
    out.push(EmbeddingModel::BGEBaseENV15);
    out.push(EmbeddingModel::AllMiniLML12V2);
    out.push(EmbeddingModel::ParaphraseMLMpnetBaseV2);
    out.push(EmbeddingModel::ModernBertEmbedLarge);
    out.push(EmbeddingModel::NomicEmbedTextV1);
    out.push(EmbeddingModel::NomicEmbedTextV15);
    out.push(EmbeddingModel::MultilingualE5Small);
    out.push(EmbeddingModel::MultilingualE5Base);
    out.push(EmbeddingModel::MultilingualE5Large);
    out.push(EmbeddingModel::GTEBaseENV15);
    out.push(EmbeddingModel::GTELargeENV15);
    assert(out@ =~= catalogue());
    out
}

/// Finds the model that a name stands for. A name is known if and only if
/// it is, letter for letter, one of the three names of a model of the
/// catalogue.
pub fn parse_model(s: &str) -> (r: Result<EmbeddingModel, DomainError>)
    ensures
        match parsed_model(s@) {
            Ok(m) => r == Ok::<EmbeddingModel, DomainError>(m),
            Err(e) => r is Err && r->Err_0@ == e,
        },
{
    let models = all_models();
    let mut i: usize = 0;
    while i < models.len()
        invariant
            i <= models.len(),
            models@ == catalogue(),
            model_named(s@) == first_answering(catalogue(), i as int, s@),
        decreases models.len() - i,
    {
        let m = models[i];
        let names = model_names(m);
        if same_text(s, names.0) || same_text(s, names.1) || same_text(s, names.2) {
            return Ok(m);
        }
        i += 1;
    }
    Err(DomainError::other(join("Unknown embedding model: ", s).as_str()))
}

/// Resolves a configured model name: trims it, refuses a blank one and
/// looks the rest up in the catalogue.
pub fn resolve_model(model_name: &str) -> (r: Result<(String, EmbeddingModel), DomainError>)
    ensures
        match resolved_model(model_name@) {
            Ok((label, m)) => r is Ok && r->Ok_0.0@ == label && r->Ok_0.1 == m,
            Err(e) => r is Err && r->Err_0@ == e,
        },
{
    let label = trim(model_name);
    if label.as_str().is_empty() {
        return Err(DomainError::validation("fastembed model name cannot be empty"));
    }
    match parse_model(label.as_str()) {
        Ok(m) => Ok((label, m)),
        Err(e) => Err(e),
    }
}

/// Accepts the vector of an inference if it has the expected length, and
/// only then.
pub fn accept_vector(vector: Vec<u32>, expected: usize) -> (r: Result<Vec<u32>, DomainError>)
    ensures
        match vector_rejection(vector@.len() as usize, expected) {
            Some(e) => r is Err && r->Err_0@ == e,
            None => r is Ok && r->Ok_0@ == vector@,
        },
{
    if vector.len() != expected {
        let mut msg = "unexpected embedding dimension (expected ".to_owned();
        msg.append(decimal_string(expected).as_str());
        msg.append(", got ");
        msg.append(decimal_string(vector.len()).as_str());
        msg.append(")");
        return Err(DomainError::embedding(msg.as_str()));
    }
    Ok(vector)
}

/// How an inference ended, as the engine that ran it reports.
#[derive(Debug)]
pub enum Inference {
    /// The inference failed; the words are the engine's.
    Failed(String),
    /// The engine returned no vector.
    Empty,
    /// The engine returned the vector.
    Vector(Vec<u32>),
}

/// What an inference is turned into: the engine's failure and a missing
/// vector are errors, and so is a vector of another length than expected.
pub open spec fn accepted_inference(inference: Inference, expected: usize) -> Result<
    Seq<u32>,
    ErrorView,
> {
    match inference {
        Inference::Failed(words) => Err(
            error_of(ErrorKind::Other, "fastembed inference failed: "@ + words@),
        ),
        Inference::Empty => Err(error_of(ErrorKind::Other, "fastembed returned no embedding"@)),
        Inference::Vector(vector) => match vector_rejection(vector@.len() as usize, expected) {
            Some(e) => Err(e),
            None => Ok(vector@),
        },
    }
}

/// The step of setting an engine up that failed.
#[derive(Debug, Clone, Copy, PartialEq, Eq, Structural)]
pub enum SetupStep {
    /// Reading the model's metadata.
    Metadata,
    /// Loading the model.
    Initialise,
}

/// A neural engine as far as the checks around it go: the label and model
/// it answers for and the length of its vectors.
#[derive(Debug)]
pub struct FastEmbedEngine {
    model_label: String,
    model: EmbeddingModel,
    dimensions: usize,
}

impl FastEmbedEngine {
    /// The label that the engine answers to.
    pub closed spec fn label(&self) -> Seq<char> {
        self.model_label@
    }

    /// The model of the engine.
    pub closed spec fn model(&self) -> EmbeddingModel {
        self.model
    }

    /// The length of the engine's vectors.
    pub closed spec fn dimensions(&self) -> usize {
        self.dimensions
    }

    /// An engine for the model of the given name, whose vectors have the
    /// length that the model's metadata declares. The name is resolved as
    /// [`resolve_model`] says.
    pub fn try_new(model_name: &str, dimensions: usize) -> (r: Result<Self, DomainError>)
        ensures
            match resolved_model(model_name@) {
                Ok((label, m)) => r is Ok && r->Ok_0.label() == label && r->Ok_0.model() == m
                    && r->Ok_0.dimensions() == dimensions,
                Err(e) => r is Err && r->Err_0@ == e,
            },
    {
        match resolve_model(model_name) {
            Ok((label, model)) => Ok(FastEmbedEngine { model_label: label, model, dimensions }),
            Err(e) => Err(e),
        }
    }

    /// The error for a step of the setup that failed.
    pub fn setup_failure(step: SetupStep, label: &str, detail: &str) -> (e: DomainError)
        ensures
            e@ == error_of(
                ErrorKind::Other,
                match step {
                    SetupStep::Metadata => "unable to read metadata for fastembed model `"@,
                    SetupStep::Initialise => "failed to initialise fastembed model `"@,
                } + label@ + "`: "@ + detail@,
            ),
    {
        let mut msg = match step {
            SetupStep::Metadata => "unable to read metadata for fastembed model `".to_owned(),
            SetupStep::Initialise => "failed to initialise fastembed model `".to_owned(),
        };
        msg.append(label);
        msg.append("`: ");
        msg.append(detail);
        DomainError::other(msg.as_str())
    }

    /// The model that the engine runs.
    pub fn embedding_model(&self) -> (m: EmbeddingModel)
        ensures
            m == self.model(),
    {
        self.model
    }

    /// The number of components of the engine's vectors.
    pub fn dims(&self) -> (n: usize)
        ensures
            n == self.dimensions(),
    {
        self.dimensions
    }

    /// Checks a request before inference: it must name the engine's model,
    /// ASCII case aside, and carry a text that is not blank.
    pub fn check(&self, model: &str, text: &str) -> (r: Result<(), DomainError>)
        ensures
            match request_rejection(self.label(), model@, text@) {
                Some(e) => r is Err && r->Err_0@ == e,
                None => r is Ok,
            },
    {
        check_request(self.model_label.as_str(), model, text)
    }

    /// Turns the end of an inference into the answer of the engine.
    pub fn accept(&self, inference: Inference) -> (r: Result<Vec<u32>, DomainError>)
        ensures
            match accepted_inference(inference, self.dimensions()) {
                Ok(vector) => r is Ok && r->Ok_0@ == vector,
                Err(e) => r is Err && r->Err_0@ == e,
            },
    {
        match inference {
            Inference::Failed(words) => Err(
                DomainError::other(join("fastembed inference failed: ", words.as_str()).as_str()),
            ),
            Inference::Empty => Err(DomainError::other("fastembed returned no embedding")),
            Inference::Vector(vector) => accept_vector(vector, self.dimensions),
        }
    }
}

} // verus!
