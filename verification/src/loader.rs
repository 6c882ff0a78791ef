//! The loader: from what reading a file gave to the line that is printed,
//! or to the failure that ends the run.

use vstd::prelude::*;
use vstd::string::*;
use yaml_rust::ScanError;
use yaml_rust::Yaml;
use crate::document::Node;
use crate::render::render;
use crate::render::render_document;
use crate::yaml::lift;
use crate::yaml::load_from_str;
use crate::yaml::report;
use crate::yaml::scan_failure;
use crate::yaml::yaml_node;
use crate::yaml::yaml_nodes;
use crate::yaml::yaml_stream;
use crate::yaml::Failure;
use crate::yaml::ParseFailure;

verus! {

/// The mathematical model of a `Source`.
pub enum SourceModel {
    /// The file could not be opened, for the reason given.
    Unopened(Seq<char>),
    /// The file was opened but did not read as text, for the reason given.
    Unreadable(Seq<char>),
    /// The whole contents of the file.
    Text(Seq<char>),
}

/// What reading the file gave.
#[derive(Debug, PartialEq, Eq)]
pub enum Source {
    /// The file could not be opened, for the reason given.
    Unopened(String),
    /// The file was opened but did not read as text, for the reason given.
    Unreadable(String),
    /// The whole contents of the file.
    Text(String),
}

impl View for Source {
    type V = SourceModel;

    open spec fn view(&self) -> SourceModel {
        match self {
            Source::Unopened(reason) => SourceModel::Unopened(reason@),
            Source::Unreadable(reason) => SourceModel::Unreadable(reason@),
            Source::Text(text) => SourceModel::Text(text@),
        }
    }
}

/// The mathematical model of a `LoadError`.
pub enum Fault {
    /// The file could not be opened.
    Open(Seq<char>),
    /// The file could not be read as text.
    Read(Seq<char>),
    /// The text is not well-formed YAML.
    Parse(Failure),
    /// The text is well-formed and holds no document.
    Empty,
}

/// Why nothing is printed.
#[derive(Debug, PartialEq, Eq)]
pub enum LoadError {
    /// The file could not be opened.
    Open(String),
    /// The file could not be read as text.
    Read(String),
    /// The text is not well-formed YAML.
    Parse(ParseFailure),
    /// The text is well-formed and holds no document.
    Empty,
}

impl View for LoadError {
    type V = Fault;

    open spec fn view(&self) -> Fault {
        match self {
            LoadError::Open(reason) => Fault::Open(reason@),
            LoadError::Read(reason) => Fault::Read(reason@),
            LoadError::Parse(failure) => Fault::Parse(failure@),
            LoadError::Empty => Fault::Empty,
        }
    }
}

/// The model of what a run returns: the line, or the fault.
pub open spec fn outcome_of(result: Result<String, LoadError>) -> Result<Seq<char>, Fault> {
    match result {
        Ok(line) => Ok(line@),
        Err(error) => Err(error@),
    }
}

/// The outcome for a parsed stream: the parser's rejection, the fault of an
/// empty stream, or the rendering of the first document. Later documents do
/// not count.
pub open spec fn stream_outcome(stream: Result<Seq<Node>, Failure>) -> Result<Seq<char>, Fault> {
    match stream {
        Err(failure) => Err(Fault::Parse(failure)),
        Ok(nodes) => if nodes.len() == 0 {
            Err(Fault::Empty)
        } else {
            Ok(render(nodes[0]))
        },
    }
}

/// The outcome for a text: that of the stream which the parser makes of it.
pub open spec fn text_outcome(text: Seq<char>) -> Result<Seq<char>, Fault> {
    stream_outcome(yaml_stream(text))
}

/// The outcome for a source: the fault of the read, or the outcome for the
/// text.
pub open spec fn source_outcome(source: SourceModel) -> Result<Seq<char>, Fault> {
    match source {
        SourceModel::Unopened(reason) => Err(Fault::Open(reason)),
        SourceModel::Unreadable(reason) => Err(Fault::Read(reason)),
        SourceModel::Text(text) => text_outcome(text),
    }
}

/// The stream that a parser result stands for.
pub open spec fn loaded_stream(loaded: Result<Vec<Yaml>, ScanError>) -> Result<Seq<Node>, Failure> {
    match loaded {
        Ok(values) => Ok(yaml_nodes(values@)),
        Err(error) => Err(scan_failure(error)),
    }
}

/// The message that names a fault.
pub open spec fn diagnostic_text(fault: Fault) -> Seq<char> {
    match fault {
        Fault::Open(reason) => "Unable to open file: "@ + reason,
        Fault::Read(reason) => "Unable to read file: "@ + reason,
        Fault::Parse(failure) => "Unable to parse file: "@ + failure.message,
        Fault::Empty => "Unable to find a document in file"@,
    }
}

/// The first of the documents, if there is one.
pub fn first_document(documents: &Vec<Yaml>) -> (first: Option<&Yaml>)
    ensures
        match first {
            Some(document) => documents@.len() > 0 && *document == documents@[0],
            None => documents@.len() == 0,
        },
{
    if documents.len() > 0 {
        Some(&documents[0])
    } else {
        None
    }
}

/// Renders the first document of a parser result.
///
/// A rejection by the parser is handed on as `LoadError::Parse` with the
/// parser's report, a stream without documents gives `LoadError::Empty`, and
/// every other stream gives the rendering of its first document.
pub fn render_first(loaded: Result<Vec<Yaml>, ScanError>) -> (result: Result<String, LoadError>)
    ensures
        outcome_of(result) == stream_outcome(loaded_stream(loaded)),
{
    match loaded {
        Err(error) => Err(LoadError::Parse(report(&error))),
        Ok(values) => match first_document(&values) {
            None => Err(LoadError::Empty),
            Some(value) => {
                let document = lift(value);
                Ok(render_document(&document))
            },
        },
    }
}

/// Parses a text and renders its first document.
pub fn load_text(text: &str) -> (result: Result<String, LoadError>)
    ensures
        outcome_of(result) == text_outcome(text@),
{
    render_first(load_from_str(text))
}

/// Runs the loader on what reading the file gave: the line to print, or the
/// failure that ends the run with nothing printed.
pub fn collect(source: Source) -> (result: Result<String, LoadError>)
    ensures
        outcome_of(result) == source_outcome(source@),
{
    match source {
        Source::Unopened(reason) => Err(LoadError::Open(reason)),
        Source::Unreadable(reason) => Err(LoadError::Read(reason)),
        Source::Text(text) => load_text(text.as_str()),
    }
}

impl LoadError {
    /// The message that names this failure.
    pub fn diagnostic(&self) -> (message: String)
        ensures
            message@ == diagnostic_text(self@),
    {
        match self {
            LoadError::Open(reason) => String::from_str("Unable to open file: ").concat(
                reason.as_str(),
            ),
            LoadError::Read(reason) => String::from_str("Unable to read file: ").concat(
                reason.as_str(),
            ),
            LoadError::Parse(failure) => String::from_str("Unable to parse file: ").concat(
                failure.message.as_str(),
            ),
            LoadError::Empty => String::from_str("Unable to find a document in file"),
        }
    }
}

/// A text with at least one document loads, and what it gives is the
/// rendering of the first document.
pub proof fn lemma_first_document_is_rendered(text: Seq<char>)
    ensures
        yaml_stream(text) matches Ok(nodes) ==> (nodes.len() >= 1 ==> text_outcome(text) == Ok::<
            Seq<char>,
            Fault,
        >(render(nodes[0]))),
{
}

/// A text loads exactly when the parser accepts it and finds a document in
/// it; a source gives a line exactly when it was read and its text loads.
pub proof fn lemma_success_exactly(source: SourceModel)
    ensures
        source_outcome(source) is Ok <==> (source matches SourceModel::Text(text) && (yaml_stream(
            text,
        ) matches Ok(nodes) && nodes.len() >= 1)),
{
}

/// Two streams with the same first document give the same outcome, whatever
/// follows it.
pub proof fn lemma_later_documents_ignored(first: Seq<Node>, second: Seq<Node>)
    requires
        first.len() >= 1,
        second.len() >= 1,
        first[0] == second[0],
    ensures
        stream_outcome(Ok(first)) == stream_outcome(Ok(second)),
{
}

/// Running the loader again on the same source gives the same outcome: any
/// two results that its contract allows for one source are the same line or
/// the same fault.
pub proof fn lemma_collect_repeatable(
    source: Source,
    once: Result<String, LoadError>,
    again: Result<String, LoadError>,
)
    requires
        outcome_of(once) == source_outcome(source@),
        outcome_of(again) == source_outcome(source@),
    ensures
        outcome_of(once) == outcome_of(again),
{
}

} // verus!
