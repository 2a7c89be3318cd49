//! Server-side embedding decisions: when a write or a search brings its own
//! embedding, when one is computed, and from what text.
//!
//! The embedding provider is described by what the decisions read of it:
//! its model id and its dimensionality. Embedding components are held as
//! the bit patterns of their `f32` values.
use crate::error::{error_payload, OmsError};
use crate::ids::{int_text, u64_to_string};
use crate::json::{content_text, content_to_text, Json};
use crate::text::{concat2, concat3, is_blank, is_blank_spec, str_eq};
use vstd::prelude::*;

verus! {

broadcast use vstd::string::group_string_axioms;

/// The provider used when no embedding provider is configured: it computes
/// nothing, and callers supply their own embeddings for vector search.
#[derive(Debug, Clone, Copy, PartialEq, Eq)]
pub struct NoopEmbedder;

impl NoopEmbedder {
    /// The model id of the placeholder provider.
    pub fn model_id(&self) -> (s: &'static str)
        ensures
            s@ == "none"@,
    {
        "none"
    }

    /// The placeholder provider produces no dimensions.
    pub fn dimensions(&self) -> (d: usize)
        ensures
            d == 0,
    {
        0
    }

    /// What the placeholder answers when asked to embed content.
    pub fn embed_texts_error(&self) -> (e: OmsError)
        ensures
            e is InvalidInput,
            error_payload(e)
                == "no embedding provider configured; supply embeddings in the request or configure KD6_EMBEDDING_PROVIDER"@,
    {
        OmsError::InvalidInput(
            "no embedding provider configured; supply embeddings in the request or configure KD6_EMBEDDING_PROVIDER".to_owned(),
        )
    }

    /// What the placeholder answers when asked to embed a query.
    pub fn embed_query_error(&self) -> (e: OmsError)
        ensures
            e is InvalidInput,
            error_payload(e)
                == "no embedding provider configured; supply embedding in the search request or configure KD6_EMBEDDING_PROVIDER"@,
    {
        OmsError::InvalidInput(
            "no embedding provider configured; supply embedding in the search request or configure KD6_EMBEDDING_PROVIDER".to_owned(),
        )
    }
}

/// Whether a provider is the placeholder: model `none` with no dimensions.
pub open spec fn is_noop_spec(model_id: Seq<char>, dimensions: usize) -> bool {
    model_id == "none"@ && dimensions == 0
}

/// Whether the provider with this model id and dimensionality is the
/// placeholder.
pub fn is_noop(model_id: &str, dimensions: usize) -> (b: bool)
    ensures
        b == is_noop_spec(model_id@, dimensions),
{
    str_eq(model_id, "none") && dimensions == 0
}

/// The message for a supplied embedding of the wrong size; `what` names it.
pub open spec fn dimension_message(what: Seq<char>, got: nat, expected: nat, model: Seq<char>) -> Seq<
    char,
> {
    what + " has "@ + int_text(got as int) + " dimensions, expected "@ + int_text(expected as int)
        + " for model "@ + model
}

/// Builds [`dimension_message`].
fn dimension_error(what: &str, got: usize, expected: usize, model_id: &str) -> (e: OmsError)
    ensures
        e is InvalidInput,
        error_payload(e) == dimension_message(what@, got as nat, expected as nat, model_id@),
{
    let g = u64_to_string(got as u64);
    let x = u64_to_string(expected as u64);
    let a = concat3(what, " has ", g.as_str());
    let b = concat3(a.as_str(), " dimensions, expected ", x.as_str());
    OmsError::InvalidInput(concat3(b.as_str(), " for model ", model_id))
}

/// What to do about an embedding: use the given one (possibly none), or
/// compute one from the given text.
#[derive(Debug, PartialEq, Eq)]
pub enum EmbedStep {
    Use(Option<Vec<u32>>),
    Compute(String),
}

/// Decides the embedding of a written memory. A supplied embedding is used
/// as it is, but must match the configured provider's dimensionality; with
/// none supplied, one is computed from the content's text, unless no
/// provider is configured or the text is empty.
pub fn plan_content_embedding(
    model_id: &str,
    dimensions: usize,
    content: &Json,
    existing: Option<Vec<u32>>,
) -> (r: Result<EmbedStep, OmsError>)
    ensures
        match existing {
            Some(emb) => if !is_noop_spec(model_id@, dimensions) && emb@.len() != dimensions {
                r is Err && r->Err_0 is InvalidInput && error_payload(r->Err_0)
                    == dimension_message("embedding"@, emb@.len(), dimensions as nat, model_id@)
            } else {
                r == Ok::<EmbedStep, OmsError>(EmbedStep::Use(Some(emb)))
            },
            None => if is_noop_spec(model_id@, dimensions) || content_text(*content).len() == 0 {
                r == Ok::<EmbedStep, OmsError>(EmbedStep::Use(None))
            } else {
                r matches Ok(EmbedStep::Compute(t)) && t@ == content_text(*content)
            },
        },
{
    let noop = is_noop(model_id, dimensions);
    match existing {
        Some(emb) => {
            if !noop && emb.len() != dimensions {
                return Err(dimension_error("embedding", emb.len(), dimensions, model_id));
            }
            Ok(EmbedStep::Use(Some(emb)))
        },
        None => {
            if noop {
                return Ok(EmbedStep::Use(None));
            }
            let text = content_to_text(content);
            if text.as_str().is_empty() {
                return Ok(EmbedStep::Use(None));
            }
            Ok(EmbedStep::Compute(text))
        },
    }
}

/// Decides the embedding of a search. A supplied embedding is used as it
/// is, but must match the configured provider's dimensionality; with none
/// supplied, the query is embedded, unless no provider is configured or
/// the query is blank.
pub fn plan_query_embedding(
    model_id: &str,
    dimensions: usize,
    query: &str,
    existing: Option<Vec<u32>>,
) -> (r: Result<EmbedStep, OmsError>)
    ensures
        match existing {
            Some(emb) => if !is_noop_spec(model_id@, dimensions) && emb@.len() != dimensions {
                r is Err && r->Err_0 is InvalidInput && error_payload(r->Err_0)
                    == dimension_message("query embedding"@, emb@.len(), dimensions as nat, model_id@)
            } else {
                r == Ok::<EmbedStep, OmsError>(EmbedStep::Use(Some(emb)))
            },
            None => if is_noop_spec(model_id@, dimensions) || is_blank_spec(query@) {
                r == Ok::<EmbedStep, OmsError>(EmbedStep::Use(None))
            } else {
                r matches Ok(EmbedStep::Compute(t)) && t@ == query@
            },
        },
{
    let noop = is_noop(model_id, dimensions);
    match existing {
        Some(emb) => {
            if !noop && emb.len() != dimensions {
                return Err(dimension_error("query embedding", emb.len(), dimensions, model_id));
            }
            Ok(EmbedStep::Use(Some(emb)))
        },
        None => {
            if noop || is_blank(query) {
                return Ok(EmbedStep::Use(None));
            }
            Ok(EmbedStep::Compute(query.to_owned()))
        },
    }
}

/// What an update does to the embedding: settle the field now (outer
/// `None` keeps the stored embedding, `Some(None)` clears it,
/// `Some(Some(v))` sets it), or compute one from the given text and set it.
#[derive(Debug, PartialEq, Eq)]
pub enum UpdateEmbedStep {
    Settle(Option<Option<Vec<u32>>>),
    Compute(String),
}

/// Decides the embedding of an update. An explicit embedding is checked
/// like a supplied one and set; an explicit clear clears; when the request
/// does not mention the embedding, one is computed for new content as for
/// a write, and the stored one is kept when there is no new content or
/// nothing to compute.
pub fn plan_update_embedding(
    model_id: &str,
    dimensions: usize,
    new_content: Option<&Json>,
    field: Option<Option<Vec<u32>>>,
) -> (r: Result<UpdateEmbedStep, OmsError>)
    ensures
        match field {
            Some(Some(emb)) => if !is_noop_spec(model_id@, dimensions) && emb@.len()
                != dimensions {
                r is Err && r->Err_0 is InvalidInput && error_payload(r->Err_0)
                    == dimension_message("embedding"@, emb@.len(), dimensions as nat, model_id@)
            } else {
                r == Ok::<UpdateEmbedStep, OmsError>(UpdateEmbedStep::Settle(Some(Some(emb))))
            },
            Some(None) => r == Ok::<UpdateEmbedStep, OmsError>(UpdateEmbedStep::Settle(Some(None))),
            None => match new_content {
                None => r == Ok::<UpdateEmbedStep, OmsError>(UpdateEmbedStep::Settle(None)),
                Some(c) => if is_noop_spec(model_id@, dimensions) || content_text(*c).len() == 0 {
                    r == Ok::<UpdateEmbedStep, OmsError>(UpdateEmbedStep::Settle(None))
                } else {
                    r matches Ok(UpdateEmbedStep::Compute(t)) && t@ == content_text(*c)
                },
            },
        },
{
    match field {
        Some(Some(emb)) => {
            if !is_noop(model_id, dimensions) && emb.len() != dimensions {
                return Err(dimension_error("embedding", emb.len(), dimensions, model_id));
            }
            Ok(UpdateEmbedStep::Settle(Some(Some(emb))))
        },
        Some(None) => Ok(UpdateEmbedStep::Settle(Some(None))),
        None => match new_content {
            None => Ok(UpdateEmbedStep::Settle(None)),
            Some(c) => match plan_content_embedding(model_id, dimensions, c, None) {
                Ok(EmbedStep::Compute(t)) => Ok(UpdateEmbedStep::Compute(t)),
                Ok(EmbedStep::Use(_)) => Ok(UpdateEmbedStep::Settle(None)),
                Err(e) => Err(e),
            },
        },
    }
}

} // verus!
