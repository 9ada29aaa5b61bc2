//! Splitting a document into chunks of bounded size.
//!
//! The splitting itself is the work of the `text_splitter` crate. What is
//! decided here is which sizes are accepted, and how a refusal is reported
//! to the host.

use crate::endpoint::{decimal, decimal_string};
use crate::errors::{failure_message, missing_message, PgError};
use vstd::prelude::*;
use vstd::string::StringExecFns;

verus! {

/// The chunks into which `text_splitter` splits `document` when each chunk
/// may have up to `capacity` characters and neighbours may share up to
/// `overlap` of them, for `overlap` below `capacity`.
pub uninterp spec fn character_chunks(document: Seq<char>, capacity: usize, overlap: usize) -> Seq<Seq<char>>;

/// The words with which `text_splitter` refuses an overlap that is not
/// below the capacity.
pub open spec fn overlap_refused() -> Seq<char> {
    "The overlap is larger than or equal to the desired chunk capacity"@
}

/// The texts of `chunks`.
pub open spec fn texts_of(chunks: Seq<&str>) -> Seq<Seq<char>> {
    Seq::new(chunks.len(), |i: int| chunks[i]@)
}

/// Splits with `text_splitter`: a `ChunkConfig` of the given capacity, with
/// the given overlap set by `with_overlap`, then `TextSplitter::chunks`,
/// which counts characters and trims chunks. `with_overlap` refuses an
/// overlap that is not below the capacity, with the words of
/// `overlap_refused`, and nothing else; the chunks of an accepted
/// configuration are those that `character_chunks` names.
#[verifier::external_body]
fn split_by_characters<'a>(document: &'a str, capacity: usize, overlap: usize) -> (r: Result<
    Vec<&'a str>,
    String,
>)
    ensures
        r is Err <==> overlap >= capacity,
        r matches Err(cause) ==> cause@ == overlap_refused(),
        r matches Ok(chunks) ==> texts_of(chunks@) == character_chunks(
            document@,
            capacity,
            overlap,
        ),
{
    let config = text_splitter::ChunkConfig::new(capacity).with_overlap(overlap).map_err(
        |error| error.to_string(),
    )?;
    Ok(text_splitter::TextSplitter::new(config).chunks(document).collect())
}

/// Whether a chunk size and an overlap, as the host gives them, can be
/// tried at all.
pub open spec fn sizes_make_sense(max_characters: i32, max_overlap: i32) -> bool {
    max_characters >= 1 && max_overlap >= 0
}

/// Splits `document` into chunks of at most `max_characters` characters, of
/// which neighbours share at most `max_overlap`.
///
/// A chunk size below one or an overlap below zero is refused before
/// anything is split; an overlap that is not below the chunk size is
/// refused by the splitter, and reported with its words. Otherwise the
/// result is the splitter's: chunks of the document, in order.
pub fn chunks_by_character_count<'a>(document: &'a str, max_characters: i32, max_overlap: i32) -> (r:
    Result<Vec<&'a str>, PgError>)
    ensures
        !sizes_make_sense(max_characters, max_overlap) ==> r is Err && r->Err_0.message@
            == missing_message("max_characters must be >= 1 and max_overlap must be >= 0"@),
        sizes_make_sense(max_characters, max_overlap) && max_overlap >= max_characters ==> r is Err
            && r->Err_0.message@ == failure_message(
            "Error creating chunk config"@,
            overlap_refused(),
        ),
        sizes_make_sense(max_characters, max_overlap) && max_overlap < max_characters ==> r is Ok
            && texts_of(r->Ok_0@) == character_chunks(
            document@,
            max_characters as usize,
            max_overlap as usize,
        ),
{
    if max_characters < 1 || max_overlap < 0 {
        return Err(PgError::missing("max_characters must be >= 1 and max_overlap must be >= 0"));
    }
    match split_by_characters(document, max_characters as usize, max_overlap as usize) {
        Ok(chunks) => Ok(chunks),
        Err(cause) => Err(PgError::failed("Error creating chunk config", cause.as_str())),
    }
}

/// Whether a chunk size and an overlap in tokens are within what a model
/// takes whose longest input is `model_max_length` tokens.
pub open spec fn within_model_limits(max_tokens: i32, max_overlap: i32, model_max_length: i32) -> bool {
    0 < max_tokens <= model_max_length && 0 <= max_overlap < model_max_length
}

/// What is said of sizes that are not within the limits.
pub open spec fn limits_message(model_max_length: i32) -> Seq<char> {
    "max_tokens must be between 1 and "@ + decimal(model_max_length as int)
        + ", and max_overlap must be between 0 and "@ + decimal(model_max_length - 1)
}

/// Checks a chunk size and an overlap in tokens against the longest input
/// of the model, and hands them back as sizes. Sizes outside the limits are
/// an error for the host that names the limits.
fn token_limits(max_tokens: i32, max_overlap: i32, model_max_length: i32) -> (r: Result<
    (usize, usize),
    PgError,
>)
    ensures
        within_model_limits(max_tokens, max_overlap, model_max_length) ==> r == Ok::<
            (usize, usize),
            PgError,
        >((max_tokens as usize, max_overlap as usize)),
        !within_model_limits(max_tokens, max_overlap, model_max_length) ==> r is Err
            && r->Err_0.message@ == missing_message(limits_message(model_max_length)),
{
    if max_tokens > 0 && max_tokens <= model_max_length && max_overlap >= 0 && max_overlap
        < model_max_length {
        Ok((max_tokens as usize, max_overlap as usize))
    } else {
        let most = decimal_string(model_max_length as i64);
        let most_overlap = decimal_string(model_max_length as i64 - 1);
        let message = String::from_str("max_tokens must be between 1 and ").concat(
            most.as_str(),
        ).concat(", and max_overlap must be between 0 and ").concat(most_overlap.as_str());
        Err(PgError::missing(message.as_str()))
    }
}

/// The sizes for splitting a document into chunks of at most `max_tokens`
/// tokens, of which neighbours share at most `max_overlap`, for a model
/// whose longest input is `model_max_length` tokens.
///
/// Sizes outside the model's limits are refused first, with the limits in
/// the message. An overlap that is within the limits but not below the
/// chunk size is refused next, with the words of the splitter, which would
/// refuse it for the same reason. All other sizes are handed back for the
/// splitter.
pub fn token_chunk_sizes(max_tokens: i32, max_overlap: i32, model_max_length: i32) -> (r: Result<
    (usize, usize),
    PgError,
>)
    ensures
        !within_model_limits(max_tokens, max_overlap, model_max_length) ==> r is Err
            && r->Err_0.message@ == missing_message(limits_message(model_max_length)),
        within_model_limits(max_tokens, max_overlap, model_max_length) && max_overlap
            >= max_tokens ==> r is Err && r->Err_0.message@ == failure_message(
            "Error creating chunk config"@,
            overlap_refused(),
        ),
        within_model_limits(max_tokens, max_overlap, model_max_length) && max_overlap
            < max_tokens ==> r == Ok::<(usize, usize), PgError>(
            (max_tokens as usize, max_overlap as usize),
        ),
        r is Ok ==> 1 <= max_tokens <= model_max_length && 0 <= max_overlap < max_tokens,
{
    match token_limits(max_tokens, max_overlap, model_max_length) {
        Err(error) => Err(error),
        Ok((capacity, overlap)) => {
            if overlap >= capacity {
                Err(
                    PgError::failed(
                        "Error creating chunk config",
                        "The overlap is larger than or equal to the desired chunk capacity",
                    ),
                )
            } else {
                Ok((capacity, overlap))
            }
        },
    }
}

/// An entry of a model's map of special tokens.
#[derive(Debug, PartialEq, Eq)]
pub enum TokenEntry {
    /// The entry is a text: the token itself.
    Text(String),
    /// The entry is an object that describes the token.
    Fields { content: String, single_word: bool, lstrip: bool, rstrip: bool, normalized: bool },
    /// The entry is something else.
    Other,
}

/// A special token to add to a tokenizer.
#[derive(Debug, PartialEq, Eq)]
pub struct SpecialToken {
    pub content: String,
    pub single_word: bool,
    pub lstrip: bool,
    pub rstrip: bool,
    pub normalized: bool,
}

/// The special token that an entry stands for, if it stands for one. A
/// text is the content of a token that may break words, strips nothing and
/// is normalized; an object says all that itself.
pub open spec fn special_token_of(entry: TokenEntry) -> Option<SpecialToken> {
    match entry {
        TokenEntry::Text(content) => Some(
            SpecialToken {
                content,
                single_word: false,
                lstrip: false,
                rstrip: false,
                normalized: true,
            },
        ),
        TokenEntry::Fields { content, single_word, lstrip, rstrip, normalized } => Some(
            SpecialToken { content, single_word, lstrip, rstrip, normalized },
        ),
        TokenEntry::Other => None,
    }
}

/// The special token that an entry of the map stands for, if any.
pub fn special_token(entry: TokenEntry) -> (token: Option<SpecialToken>)
    ensures
        token == special_token_of(entry),
{
    match entry {
        TokenEntry::Text(content) => Some(
            SpecialToken {
                content,
                single_word: false,
                lstrip: false,
                rstrip: false,
                normalized: true,
            },
        ),
        TokenEntry::Fields { content, single_word, lstrip, rstrip, normalized } => Some(
            SpecialToken { content, single_word, lstrip, rstrip, normalized },
        ),
        TokenEntry::Other => None,
    }
}

} // verus!
