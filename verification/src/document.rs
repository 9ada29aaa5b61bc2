//! Getting the text out of documents.
//!
//! The conversions are the work of other crates. The readers of HTML, PDF
//! and .docx files may panic or run out of stack on a document, so they
//! are called by the host, which hands over what came of it; the
//! normalization of text is called here. What is decided here is what a
//! conversion leaves out, what is done to the text it gives, and how its
//! failure is reported to the host.

use crate::chunk::texts_of;
use crate::errors::{failure_message, PgError};
use unicode_normalization::UnicodeNormalization;
use vstd::prelude::*;

verus! {

/// The tags that are left out of the Markdown of an HTML document, with
/// all that is inside them.
pub open spec fn skipped_tags_of() -> Seq<Seq<char>> {
    seq!["head"@, "script"@, "style"@]
}

/// The tags to leave out when an HTML document is converted: the head, the
/// scripts and the styles.
pub fn skipped_tags() -> (tags: Vec<&'static str>)
    ensures
        texts_of(tags@) == skipped_tags_of(),
{
    let mut tags: Vec<&'static str> = Vec::new();
    tags.push("head");
    tags.push("script");
    tags.push("style");
    assert(texts_of(tags@) =~= skipped_tags_of());
    tags
}

/// The Markdown of an HTML document, out of what the conversion gave: the
/// Markdown, unchanged; and for a conversion that failed, an error for the
/// host that gives the converter's words.
pub fn markdown_from_html(converted: Result<String, String>) -> (r: Result<String, PgError>)
    ensures
        match converted {
            Ok(markdown) => r == Ok::<String, PgError>(markdown),
            Err(cause) => r is Err && r->Err_0.message@ == failure_message(
                "Error converting HTML to Markdown"@,
                cause@,
            ),
        },
{
    match converted {
        Ok(markdown) => Ok(markdown),
        Err(cause) => Err(PgError::failed("Error converting HTML to Markdown", cause.as_str())),
    }
}

/// Why the text of a .docx file could not be had.
#[derive(Debug, PartialEq, Eq)]
pub enum DocxFailure {
    /// The file could not be read as a .docx archive, for the cause given.
    Unreadable(String),
    /// The archive was read, but its parts could not be parsed, for the
    /// cause given.
    Unparsable(String),
}

/// The message with which the host reports that a .docx file gave no text.
pub open spec fn docx_message(failure: DocxFailure) -> Seq<char> {
    match failure {
        DocxFailure::Unreadable(cause) => failure_message("Couldn't read .docx file"@, cause@),
        DocxFailure::Unparsable(cause) => failure_message("Couldn't parse .docx file"@, cause@),
    }
}

/// The text of a .docx document, out of what the reading of the file gave:
/// the text of its body, unchanged; and for a file that could not be read
/// or could not be parsed, an error for the host that says which it was
/// and gives the reader's description.
pub fn text_from_docx(read: Result<String, DocxFailure>) -> (r: Result<String, PgError>)
    ensures
        match read {
            Ok(text) => r == Ok::<String, PgError>(text),
            Err(failure) => r is Err && r->Err_0.message@ == docx_message(failure),
        },
{
    match read {
        Ok(text) => Ok(text),
        Err(DocxFailure::Unreadable(cause)) => Err(
            PgError::failed("Couldn't read .docx file", cause.as_str()),
        ),
        Err(DocxFailure::Unparsable(cause)) => Err(
            PgError::failed("Couldn't parse .docx file", cause.as_str()),
        ),
    }
}

/// The compatibility composition (NFKC) of a text, as
/// `unicode_normalization` computes it: ligatures and the like are taken
/// apart into the characters they stand for.
pub uninterp spec fn nfkc_of(text: Seq<char>) -> Seq<char>;

/// Normalizes with `unicode_normalization`: the characters of
/// `UnicodeNormalization::nfkc`, collected. The result is the text that
/// `nfkc_of` names.
#[verifier::external_body]
fn nfkc(text: &str) -> (r: String)
    ensures
        r@ == nfkc_of(text@),
{
    text.nfkc().collect()
}

/// The text of a PDF document, out of what the extraction gave: the
/// extracted text in its compatibility composition, so that ligatures are
/// plain letters; and for an extraction that failed, an error for the host
/// that gives the extractor's words.
pub fn text_from_pdf(extracted: Result<String, String>) -> (r: Result<String, PgError>)
    ensures
        match extracted {
            Ok(raw) => r is Ok && r->Ok_0@ == nfkc_of(raw@),
            Err(cause) => r is Err && r->Err_0.message@ == failure_message(
                "Error extracting text from PDF"@,
                cause@,
            ),
        },
{
    match extracted {
        Ok(raw) => Ok(nfkc(raw.as_str())),
        Err(cause) => Err(PgError::failed("Error extracting text from PDF", cause.as_str())),
    }
}

} // verus!
