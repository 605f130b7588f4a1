//! Reading values of the model's configuration from its JSON text.
//!
//! The text is parsed by `serde_json`. What is decided here is which value
//! stands for a setting that the text does not hold, and which values a
//! setting may take.

use vstd::prelude::*;
use crate::audio::SAMPLE_RATE;
use crate::config::{DecoderConfig, Device, VoxtralGenerationConfig};
use crate::error::PipelineError;
use crate::model::VoxtralConfig;
use crate::prompt::PromptTemplate;
use crate::ratio::Ratio;

verus! {

/// Makes `serde_json::Value`, a parsed JSON value, known as a type whose
/// inside is not looked at.
#[verifier::external_type_specification]
#[verifier::external_body]
pub struct ExJsonValue(serde_json::Value);

/// Makes `serde_json::Error`, the failure of a parse, known as a type whose
/// inside is not looked at.
#[verifier::external_type_specification]
#[verifier::external_body]
pub struct ExJsonError(serde_json::Error);

/// The members of a JSON object that hold an unsigned integer of at most
/// 64 bits, by their keys. A value that is no object has none.
pub uninterp spec fn json_unsigned_members(document: serde_json::Value) -> Map<Seq<char>, u64>;

/// The unsigned members of the value that a JSON text stands for; `None`
/// for a text that is no JSON.
pub uninterp spec fn json_text_unsigned_members(text: Seq<char>) -> Option<Map<Seq<char>, u64>>;

/// Calls `serde_json::from_str` for a `serde_json::Value`.
///
/// Believed of it: whether a text parses, and to which unsigned members,
/// depends on the text alone.
#[verifier::external_body]
fn parse_document(text: &str) -> (r: Result<serde_json::Value, serde_json::Error>)
    ensures
        r matches Ok(document) ==> json_text_unsigned_members(text@) == Some(
            json_unsigned_members(document),
        ),
        r is Err ==> json_text_unsigned_members(text@) is None,
{
    serde_json::from_str::<serde_json::Value>(text)
}

/// Calls `serde_json::Value::get` with a key, and `serde_json::Value::as_u64`
/// on what it finds.
///
/// Believed of them: `get` finds the member of an object that has the key,
/// and nothing in a value that is no object; `as_u64` gives the number that
/// a member holds where it is an unsigned integer of at most 64 bits, and
/// nothing otherwise.
#[verifier::external_body]
fn unsigned_member(document: &serde_json::Value, key: &str) -> (found: Option<u64>)
    ensures
        found == spec_lookup(json_unsigned_members(*document), key@),
{
    match document.get(key) {
        Some(value) => value.as_u64(),
        None => None,
    }
}

/// The value that `members` holds for `key`, if any.
pub open spec fn spec_lookup(members: Map<Seq<char>, u64>, key: Seq<char>) -> Option<u64> {
    if members.contains_key(key) {
        Some(members[key])
    } else {
        None
    }
}

/// The placeholder token of a model whose configuration does not name one.
pub const DEFAULT_AUDIO_TOKEN_ID: u32 = 24;

/// The token that a setting stands for: the default where the setting is
/// absent, the value where it is the number of a token, and a
/// configuration error where it is too large to be one.
pub open spec fn spec_token_id(found: Option<u64>, default: u32) -> Result<u32, PipelineError> {
    match found {
        None => Ok(default),
        Some(value) => if value <= u32::MAX {
            Ok(value as u32)
        } else {
            Err(PipelineError::Config)
        },
    }
}

/// The number that a setting stands for: the default where the setting is
/// absent, the value where it can be held, and a configuration error where
/// it cannot.
pub open spec fn spec_size(found: Option<u64>, default: usize) -> Result<usize, PipelineError> {
    match found {
        None => Ok(default),
        Some(value) => if value <= usize::MAX {
            Ok(value as usize)
        } else {
            Err(PipelineError::Config)
        },
    }
}

/// The token that a setting stands for; see [`spec_token_id`].
pub fn token_id_or(found: Option<u64>, default: u32) -> (r: Result<u32, PipelineError>)
    ensures
        r == spec_token_id(found, default),
{
    match found {
        None => Ok(default),
        Some(value) => if value <= u32::MAX as u64 {
            Ok(value as u32)
        } else {
            Err(PipelineError::Config)
        },
    }
}

/// The number that a setting stands for; see [`spec_size`].
pub fn size_or(found: Option<u64>, default: usize) -> (r: Result<usize, PipelineError>)
    ensures
        r == spec_size(found, default),
{
    match found {
        None => Ok(default),
        Some(value) => if value <= usize::MAX as u64 {
            Ok(value as usize)
        } else {
            Err(PipelineError::Config)
        },
    }
}

/// The placeholder token that the configuration text names under
/// `audio_token_id`, or [`DEFAULT_AUDIO_TOKEN_ID`] where it names none.
///
/// A text that is no JSON, and a value that is no token, are configuration
/// errors.
pub fn audio_token_id(config_text: &str) -> (r: Result<u32, PipelineError>)
    ensures
        r == (match json_text_unsigned_members(config_text@) {
            None => Err::<u32, PipelineError>(PipelineError::Config),
            Some(members) => spec_token_id(
                spec_lookup(members, "audio_token_id"@),
                DEFAULT_AUDIO_TOKEN_ID,
            ),
        }),
{
    match parse_document(config_text) {
        Ok(document) => token_id_or(
            unsigned_member(&document, "audio_token_id"),
            DEFAULT_AUDIO_TOKEN_ID,
        ),
        Err(_) => Err(PipelineError::Config),
    }
}

/// The number that the configuration text holds under `key`, or `default`
/// where it holds none.
///
/// A text that is no JSON, and a value that cannot be held, are
/// configuration errors.
pub fn size_setting(config_text: &str, key: &str, default: usize) -> (r: Result<
    usize,
    PipelineError,
>)
    ensures
        r == (match json_text_unsigned_members(config_text@) {
            None => Err::<usize, PipelineError>(PipelineError::Config),
            Some(members) => spec_size(spec_lookup(members, key@), default),
        }),
{
    match parse_document(config_text) {
        Ok(document) => size_or(unsigned_member(&document, key), default),
        Err(_) => Err(PipelineError::Config),
    }
}

/// The length of a window, in samples: fifteen seconds.
pub const CHUNK_SAMPLES: usize = 240_000;

/// The number of samples from one feature frame to the next.
pub const HOP_SAMPLES: usize = 160;

/// The number of feature frames that the encoder folds into one of its
/// positions.
pub const FRAMES_PER_POSITION: usize = 2;

/// The number of encoder positions that the projector folds into one
/// embedding.
pub const POSITIONS_PER_EMBEDDING: usize = 4;

/// The number of mel bins of a model whose configuration names none.
pub const DEFAULT_MEL_BINS: usize = 128;

/// The number of encoder positions of a model whose configuration names
/// none.
pub const DEFAULT_SOURCE_POSITIONS: usize = 1500;

/// The size of the decoder's vocabulary where the configuration names none.
pub const DEFAULT_VOCAB_SIZE: usize = 131_072;

/// The number of decoder layers where the configuration names none.
pub const DEFAULT_DECODER_LAYERS: usize = 30;

/// The largest number of tokens generated for one window.
pub const MAX_NEW_TOKENS: usize = 1000;

/// What the texts of a model's configuration hold of the settings that the
/// pipeline reads: for each the value found, if any.
#[derive(Clone, Copy, Debug, PartialEq, Eq, Structural)]
pub struct FoundSettings {
    /// `audio_token_id` of the configuration.
    pub audio_token_id: Option<u64>,
    /// `num_mel_bins` of the audio part.
    pub num_mel_bins: Option<u64>,
    /// `max_source_positions` of the audio part.
    pub max_source_positions: Option<u64>,
    /// `vocab_size` of the text part.
    pub vocab_size: Option<u64>,
    /// `num_hidden_layers` of the text part.
    pub num_hidden_layers: Option<u64>,
    /// `max_position_embeddings` of the text part.
    pub max_position_embeddings: Option<u64>,
}

/// The settings found among the unsigned members of the configuration, of
/// its audio part and of its text part.
pub open spec fn spec_found(
    top: Map<Seq<char>, u64>,
    audio: Map<Seq<char>, u64>,
    text: Map<Seq<char>, u64>,
) -> FoundSettings {
    FoundSettings {
        audio_token_id: spec_lookup(top, "audio_token_id"@),
        num_mel_bins: spec_lookup(audio, "num_mel_bins"@),
        max_source_positions: spec_lookup(audio, "max_source_positions"@),
        vocab_size: spec_lookup(text, "vocab_size"@),
        num_hidden_layers: spec_lookup(text, "num_hidden_layers"@),
        max_position_embeddings: spec_lookup(text, "max_position_embeddings"@),
    }
}

/// Whether a configuration can be made of what was found: the length of
/// the decoder's context is there, every value can be held, and so can the
/// number of frames that the encoder takes.
pub open spec fn spec_is_complete(found: FoundSettings) -> bool {
    &&& found.max_position_embeddings is Some
    &&& spec_token_id(found.audio_token_id, DEFAULT_AUDIO_TOKEN_ID) is Ok
    &&& spec_size(found.num_mel_bins, DEFAULT_MEL_BINS) is Ok
    &&& spec_size(found.max_source_positions, DEFAULT_SOURCE_POSITIONS) is Ok
    &&& spec_size(found.vocab_size, DEFAULT_VOCAB_SIZE) is Ok
    &&& spec_size(found.num_hidden_layers, DEFAULT_DECODER_LAYERS) is Ok
    &&& spec_size(found.max_position_embeddings, 0) is Ok
    &&& spec_size(found.max_source_positions, DEFAULT_SOURCE_POSITIONS)->Ok_0
        * FRAMES_PER_POSITION <= usize::MAX
}

/// Whether `config` is the configuration made of what was found: windows
/// of fifteen seconds that overlap by a tenth, the geometry of the encoder,
/// the prompt for a transcription in English around the placeholder token,
/// the decoder, and greedy decoding.
pub open spec fn spec_is_config_from(
    found: FoundSettings,
    end_token: u32,
    device: Device,
    config: VoxtralConfig,
) -> bool {
    &&& config.sample_rate == SAMPLE_RATE
    &&& config.chunk_samples == CHUNK_SAMPLES
    &&& config.overlap == (Ratio { numer: 1, denom: 10 })
    &&& config.hop_samples == HOP_SAMPLES
    &&& Ok::<usize, PipelineError>(config.mel_bins) == spec_size(
        found.num_mel_bins,
        DEFAULT_MEL_BINS,
    )
    &&& config.encoder_capacity_frames == spec_size(
        found.max_source_positions,
        DEFAULT_SOURCE_POSITIONS,
    )->Ok_0 * FRAMES_PER_POSITION
    &&& config.frames_per_embedding == FRAMES_PER_POSITION * POSITIONS_PER_EMBEDDING
    &&& config.template.bos == 1
    &&& config.template.inst_open == 3
    &&& config.template.begin_audio == 25
    &&& Ok::<u32, PipelineError>(config.template.placeholder) == spec_token_id(
        found.audio_token_id,
        DEFAULT_AUDIO_TOKEN_ID,
    )
    &&& config.template.inst_close == 4
    &&& config.template.language_tag@ == seq![9909u32, 1058u32, 1262u32]
    &&& config.template.transcribe == 34
    &&& Ok::<usize, PipelineError>(config.decoder.vocab_size) == spec_size(
        found.vocab_size,
        DEFAULT_VOCAB_SIZE,
    )
    &&& Ok::<usize, PipelineError>(config.decoder.layers) == spec_size(
        found.num_hidden_layers,
        DEFAULT_DECODER_LAYERS,
    )
    &&& Ok::<usize, PipelineError>(config.decoder.max_context) == spec_size(
        found.max_position_embeddings,
        0,
    )
    &&& config.decoder.end_token == end_token
    &&& config.generation.max_new_tokens == MAX_NEW_TOKENS
    &&& config.generation.temperature.spec_is_zero()
    &&& config.generation.temperature.wf()
    &&& config.generation.top_p is None
    &&& config.generation.device == device
}

/// The configuration made of what was found, with `end_token` as the token
/// that ends a generation and `device` as the place of the computation.
///
/// Settings that were not found take their defaults; the length of the
/// decoder's context has none, and its absence is a configuration error,
/// as is a value that cannot be held.
pub fn config_from(found: &FoundSettings, end_token: u32, device: Device) -> (r: Result<
    VoxtralConfig,
    PipelineError,
>)
    ensures
        r is Ok <==> spec_is_complete(*found),
        r matches Err(e) ==> e == PipelineError::Config,
        r matches Ok(config) ==> spec_is_config_from(*found, end_token, device, config),
{
    if found.max_position_embeddings.is_none() {
        return Err(PipelineError::Config);
    }
    let placeholder: u32 = match token_id_or(found.audio_token_id, DEFAULT_AUDIO_TOKEN_ID) {
        Ok(v) => v,
        Err(e) => {
            return Err(e);
        },
    };
    let mel_bins: usize = match size_or(found.num_mel_bins, DEFAULT_MEL_BINS) {
        Ok(v) => v,
        Err(e) => {
            return Err(e);
        },
    };
    let positions: usize = match size_or(found.max_source_positions, DEFAULT_SOURCE_POSITIONS) {
        Ok(v) => v,
        Err(e) => {
            return Err(e);
        },
    };
    let vocab_size: usize = match size_or(found.vocab_size, DEFAULT_VOCAB_SIZE) {
        Ok(v) => v,
        Err(e) => {
            return Err(e);
        },
    };
    let layers: usize = match size_or(found.num_hidden_layers, DEFAULT_DECODER_LAYERS) {
        Ok(v) => v,
        Err(e) => {
            return Err(e);
        },
    };
    let max_context: usize = match size_or(found.max_position_embeddings, 0) {
        Ok(v) => v,
        Err(e) => {
            return Err(e);
        },
    };
    let encoder_capacity_frames: usize = match positions.checked_mul(FRAMES_PER_POSITION) {
        Some(v) => v,
        None => {
            return Err(PipelineError::Config);
        },
    };
    let mut language_tag: Vec<u32> = Vec::new();
    language_tag.push(9909);
    language_tag.push(1058);
    language_tag.push(1262);
    assert(language_tag@ =~= seq![9909u32, 1058u32, 1262u32]);
    Ok(
        VoxtralConfig {
            sample_rate: SAMPLE_RATE,
            chunk_samples: CHUNK_SAMPLES,
            overlap: Ratio { numer: 1, denom: 10 },
            hop_samples: HOP_SAMPLES,
            mel_bins,
            encoder_capacity_frames,
            frames_per_embedding: FRAMES_PER_POSITION * POSITIONS_PER_EMBEDDING,
            template: PromptTemplate {
                bos: 1,
                inst_open: 3,
                begin_audio: 25,
                placeholder,
                inst_close: 4,
                language_tag,
                transcribe: 34,
            },
            decoder: DecoderConfig { vocab_size, layers, max_context, end_token },
            generation: VoxtralGenerationConfig::greedy(MAX_NEW_TOKENS, device),
        },
    )
}

/// What the three texts of a model's configuration hold of the settings
/// that the pipeline reads: the configuration as a whole, its audio part
/// and its text part. A text that is no JSON is a configuration error.
pub fn find_settings(config_text: &str, audio_text: &str, decoder_text: &str) -> (r: Result<
    FoundSettings,
    PipelineError,
>)
    ensures
        r is Ok <==> json_text_unsigned_members(config_text@) is Some
            && json_text_unsigned_members(audio_text@) is Some && json_text_unsigned_members(
            decoder_text@,
        ) is Some,
        r matches Err(e) ==> e == PipelineError::Config,
        r matches Ok(found) ==> found == spec_found(
            json_text_unsigned_members(config_text@)->Some_0,
            json_text_unsigned_members(audio_text@)->Some_0,
            json_text_unsigned_members(decoder_text@)->Some_0,
        ),
{
    let top = match parse_document(config_text) {
        Ok(document) => document,
        Err(_) => {
            return Err(PipelineError::Config);
        },
    };
    let audio = match parse_document(audio_text) {
        Ok(document) => document,
        Err(_) => {
            return Err(PipelineError::Config);
        },
    };
    let decoder = match parse_document(decoder_text) {
        Ok(document) => document,
        Err(_) => {
            return Err(PipelineError::Config);
        },
    };
    Ok(
        FoundSettings {
            audio_token_id: unsigned_member(&top, "audio_token_id"),
            num_mel_bins: unsigned_member(&audio, "num_mel_bins"),
            max_source_positions: unsigned_member(&audio, "max_source_positions"),
            vocab_size: unsigned_member(&decoder, "vocab_size"),
            num_hidden_layers: unsigned_member(&decoder, "num_hidden_layers"),
            max_position_embeddings: unsigned_member(&decoder, "max_position_embeddings"),
        },
    )
}

/// The configuration that the three texts of a model's configuration give;
/// see [`find_settings`] and [`config_from`].
pub fn voxtral_config(
    config_text: &str,
    audio_text: &str,
    decoder_text: &str,
    end_token: u32,
    device: Device,
) -> (r: Result<VoxtralConfig, PipelineError>)
    ensures
        r is Ok ==> json_text_unsigned_members(config_text@) is Some && json_text_unsigned_members(
            audio_text@,
        ) is Some && json_text_unsigned_members(decoder_text@) is Some,
        json_text_unsigned_members(config_text@) is Some && json_text_unsigned_members(audio_text@)
            is Some && json_text_unsigned_members(decoder_text@) is Some ==> {
            let found = spec_found(
                json_text_unsigned_members(config_text@)->Some_0,
                json_text_unsigned_members(audio_text@)->Some_0,
                json_text_unsigned_members(decoder_text@)->Some_0,
            );
            &&& r is Ok <==> spec_is_complete(found)
            &&& r matches Ok(config) ==> spec_is_config_from(found, end_token, device, config)
        },
        r matches Err(e) ==> e == PipelineError::Config,
{
    match find_settings(config_text, audio_text, decoder_text) {
        Ok(found) => config_from(&found, end_token, device),
        Err(e) => Err(e),
    }
}

} // verus!
