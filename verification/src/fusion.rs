//! Merging audio embeddings into the decoder's input at the placeholder
//! positions.

use vstd::prelude::*;
use crate::error::PipelineError;
use crate::prompt::{lemma_count_prefix, spec_count, PromptSequence};

verus! {

/// The number of placeholders before position `i` of a prompt: the index of
/// the audio embedding that belongs at `i` where `i` holds a placeholder.
pub open spec fn spec_audio_index(tokens: Seq<u32>, placeholder: u32, i: int) -> int {
    spec_count(tokens.take(i), placeholder) as int
}

/// The embedding at position `i` of the fused sequence: the next audio
/// embedding where the prompt holds a placeholder, the prompt's own
/// embedding elsewhere.
pub open spec fn spec_fused_at<T>(
    tokens: Seq<u32>,
    placeholder: u32,
    embedded: Seq<T>,
    audio: Seq<T>,
    i: int,
) -> T {
    if tokens[i] == placeholder {
        audio[spec_audio_index(tokens, placeholder, i)]
    } else {
        embedded[i]
    }
}

/// The fused sequence: as long as the embedded prompt, and at each position
/// what [`spec_fused_at`] gives.
pub open spec fn spec_fused<T>(
    tokens: Seq<u32>,
    placeholder: u32,
    embedded: Seq<T>,
    audio: Seq<T>,
) -> Seq<T> {
    Seq::new(embedded.len(), |i: int| spec_fused_at(tokens, placeholder, embedded, audio, i))
}

/// Replaces the embeddings at the placeholder positions of `prompt` by the
/// audio embeddings, in order.
///
/// `embedded` holds one embedding per token of the prompt and `audio` the
/// output of the encoder and projector. The number of audio embeddings must
/// be the number of placeholders that the prompt reserves: any other number
/// is a shape mismatch, and nothing is cut or filled in. An embedded prompt
/// of another length than the prompt is a shape error.
pub fn fuse<T>(prompt: &PromptSequence, embedded: Vec<T>, audio: Vec<T>) -> (r: Result<
    Vec<T>,
    PipelineError,
>)
    ensures
        r is Ok <==> audio@.len() == prompt.spec_reserved() && embedded@.len() == prompt@.len(),
        audio@.len() != prompt.spec_reserved() ==> r == Err::<Vec<T>, PipelineError>(
            PipelineError::ShapeMismatch {
                expected: prompt.spec_reserved() as usize,
                actual: audio@.len() as usize,
            },
        ),
        audio@.len() == prompt.spec_reserved() && embedded@.len() != prompt@.len() ==> r == Err::<
            Vec<T>,
            PipelineError,
        >(PipelineError::Shape),
        r matches Ok(fused) ==> fused@ == spec_fused(
            prompt@,
            prompt.spec_placeholder(),
            embedded@,
            audio@,
        ),
{
    let reserved: usize = prompt.reserved();
    if audio.len() != reserved {
        return Err(PipelineError::ShapeMismatch { expected: reserved, actual: audio.len() });
    }
    if embedded.len() != prompt.len() {
        return Err(PipelineError::Shape);
    }
    let tokens = prompt.tokens();
    let placeholder: u32 = prompt.placeholder();
    let ghost embedded0 = embedded@;
    let ghost audio0 = audio@;
    let mut fused = embedded;
    let mut rest = audio;
    let mut i: usize = tokens.len();
    proof {
        assert(tokens@.take(i as int) =~= tokens@);
    }
    while i > 0
        invariant
            i <= tokens@.len(),
            fused@.len() == tokens@.len(),
            embedded0.len() == tokens@.len(),
            audio0.len() == spec_count(tokens@, placeholder),
            rest@ == audio0.take(spec_audio_index(tokens@, placeholder, i as int)),
            forall|j: int| 0 <= j < i ==> fused@[j] == embedded0[j],
            forall|j: int|
                i <= j < tokens@.len() ==> fused@[j] == spec_fused_at(
                    tokens@,
                    placeholder,
                    embedded0,
                    audio0,
                    j,
                ),
        decreases i,
    {
        i = i - 1;
        proof {
            assert(tokens@.take(i + 1).drop_last() =~= tokens@.take(i as int));
            lemma_count_prefix(tokens@, placeholder, i + 1);
        }
        if tokens[i] == placeholder {
            let last = rest.pop();
            match last {
                Some(e) => {
                    fused.set(i, e);
                },
                None => {},
            }
        }
    }
    assert(fused@ =~= spec_fused(tokens@, placeholder, embedded0, audio0));
    Ok(fused)
}

/// Fusion keeps the length of the embedded prompt and the embedding of
/// every position that holds no placeholder; the placeholder positions
/// take the audio embeddings in their order.
pub proof fn lemma_fusion_preserves_order<T>(
    tokens: Seq<u32>,
    placeholder: u32,
    embedded: Seq<T>,
    audio: Seq<T>,
    i: int,
    j: int,
)
    requires
        embedded.len() == tokens.len(),
        audio.len() == spec_count(tokens, placeholder),
        0 <= i < j < tokens.len(),
        tokens[i] == placeholder,
        tokens[j] == placeholder,
    ensures
        spec_fused(tokens, placeholder, embedded, audio).len() == embedded.len(),
        0 <= spec_audio_index(tokens, placeholder, i) < spec_audio_index(tokens, placeholder, j)
            < audio.len(),
{
    lemma_count_between(tokens, placeholder, i, j);
    lemma_count_between(tokens, placeholder, j, tokens.len() as int);
    assert(tokens.take(tokens.len() as int) =~= tokens);
}

/// Between a placeholder at `i` and a later position `j` the count of
/// placeholders grows.
proof fn lemma_count_between(tokens: Seq<u32>, placeholder: u32, i: int, j: int)
    requires
        0 <= i < j <= tokens.len(),
        tokens[i] == placeholder,
    ensures
        spec_count(tokens.take(i), placeholder) < spec_count(tokens.take(j), placeholder),
    decreases j - i,
{
    assert(tokens.take(j).drop_last() =~= tokens.take(j - 1));
    if j - 1 > i {
        lemma_count_between(tokens, placeholder, i, j - 1);
    }
}

} // verus!
