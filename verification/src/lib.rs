//! A static-site build pipeline: documents with a YAML front-matter block are
//! parsed, their bodies converted to HTML, merged into page templates, and
//! collected into a section listing, a home page, and one page per document.
//! The pipeline computes the full list of files to write; callers perform the
//! actual I/O and write each file in order.

use vstd::prelude::*;

pub mod front_matter;
pub mod output;
pub mod render;

verus! {

/// A required front-matter field that a document can lack.
#[derive(Clone, Copy, Debug, PartialEq, Eq, Structural)]
pub enum RequiredField {
    Title,
    TitleSlug,
}

/// The failures the build pipeline can meet. Every one of them aborts the
/// whole build: there is no per-document recovery.
#[derive(Debug)]
pub enum BuildError {
    /// The metadata block at the head of a document is not well-formed YAML.
    FrontMatterSyntaxError,
    /// `title` or `titleSlug` is absent from a document's metadata, or is not
    /// a string.
    MissingRequiredField(RequiredField),
    /// A source document could not be read from disk.
    SourceReadError,
    /// The template set could not be loaded or compiled.
    TemplateCompileError,
    /// The template engine refused to render a page; the message says why.
    RenderError(String),
    /// An output directory or file could not be written.
    OutputWriteError,
}

} // verus!
