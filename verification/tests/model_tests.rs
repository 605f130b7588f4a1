use byteorder::{LittleEndian, ReadBytesExt};
use std::io::Cursor;
use voxtral::audio::{prepare_step, PrepareStep, SAMPLE_RATE};
use voxtral::config::{select_device, DecoderConfig, Device, VoxtralGenerationConfig};
use voxtral::error::PipelineError;
use voxtral::features::{padded_sample_count, FeatureExtractor};
use voxtral::model::{load_model, use_cpu, VoxtralConfig};
use voxtral::prompt::{PromptBuilder, PromptTemplate};
use voxtral::ratio::Ratio;
use voxtral::settings::{audio_token_id, size_setting, DEFAULT_AUDIO_TOKEN_ID};

fn english_template() -> PromptTemplate {
    PromptTemplate {
        bos: 1,
        inst_open: 3,
        begin_audio: 25,
        placeholder: 24,
        inst_close: 4,
        language_tag: vec![9909, 1058, 1262],
        transcribe: 34,
    }
}

fn extractor() -> FeatureExtractor {
    FeatureExtractor::new(160, 128, 3000, 8).unwrap()
}

fn config() -> VoxtralConfig {
    VoxtralConfig {
        sample_rate: 16000,
        chunk_samples: 240000,
        overlap: Ratio { numer: 1, denom: 10 },
        hop_samples: 160,
        mel_bins: 128,
        encoder_capacity_frames: 3000,
        frames_per_embedding: 8,
        template: english_template(),
        decoder: DecoderConfig { vocab_size: 131072, layers: 30, max_context: 4096, end_token: 2 },
        generation: VoxtralGenerationConfig::greedy(1000, Device::Cpu),
    }
}

fn resample_if_needed(audio_data: &[f32], sample_rate: u32) -> Vec<f32> {
    let target_sr = 16000;
    match prepare_step(sample_rate, target_sr) {
        PrepareStep::Ready => audio_data.to_vec(),
        // the converter itself is not part of the library
        PrepareStep::Resample { .. } => audio_data.to_vec(),
    }
}

#[test]
fn test_audio_token_id_extraction() {
    // audio_token_id is taken from the configuration
    let config_content = r#"{
        "audio_token_id": 42
    }"#;

    let audio_token_id = audio_token_id(config_content).unwrap() as usize;

    assert_eq!(audio_token_id, 42);
}

#[test]
fn test_audio_token_id_default() {
    // audio_token_id defaults to 24 when not in config
    let config_content = r#"{"other_field": "value"}"#;

    let audio_token_id = audio_token_id(config_content).unwrap() as usize;

    assert_eq!(audio_token_id, 24);
}

#[test]
fn test_transcribe_with_voxtral_input_validation() {
    // Audio features must be 3D tensor
    let audio_dims = vec![1, 128, 1000]; // [batch, mels, time]

    assert_eq!(audio_dims.len(), 3, "Audio features must be 3D");
    assert_eq!(audio_dims[1], 128, "Must have 128 mel bins");
    assert_eq!(extractor().check_dims(&audio_dims), Ok(()));
}

#[test]
fn test_pcm_resample_call() {
    let result = resample_if_needed(&[0.5, -0.5, 0.5], 44100);
    assert_eq!(result.len(), 3);
    assert_eq!(prepare_step(44100, 16000), PrepareStep::Resample { from: 44100, to: 16000 });
}

#[test]
fn test_pcm_no_resample_needed() {
    // Test that when sample rate matches, no resampling occurs
    let audio_data = vec![0.1, 0.2, 0.3, 0.4, 0.5];
    let sample_rate = 16000;
    let target_sr = 16000;

    let result = match prepare_step(sample_rate, target_sr) {
        PrepareStep::Ready => audio_data.to_vec(),
        PrepareStep::Resample { .. } => vec![], // Would call resample
    };

    assert_eq!(result, audio_data);
    assert_eq!(SAMPLE_RATE, 16000);
}

#[test]
fn test_padded_audio_chunk_size() {
    // Test that audio is padded to 30-second chunks (480000 samples)
    let chunk_size = 480000; // 30 seconds * 16000 Hz
    let audio = vec![0.5; 100000]; // 100k samples

    let target_samples = padded_sample_count(audio.len(), chunk_size).unwrap();
    let mut padded_audio = audio.clone();
    padded_audio.resize(target_samples, 0.0);

    assert_eq!(padded_audio.len() % chunk_size, 0);
    assert!(padded_audio.len() >= chunk_size);
    assert_eq!(padded_audio.len(), 480000);
    assert_eq!(extractor().capacity_samples(), chunk_size);
}

#[test]
fn test_token_sequence_construction() {
    // The expected format: <s>[INST][BEGIN_AUDIO][AUDIO]*N[/INST]lang:en[TRANSCRIBE]
    let mut input_tokens = Vec::new();

    // Pattern components
    input_tokens.push(1u32); // BOS: <s>
    input_tokens.push(3u32); // [INST]
    input_tokens.push(25u32); // [BEGIN_AUDIO]

    let batch_size = 1;
    let tokens_per_chunk = 375;
    let audio_token_id = 24;
    let num_audio_tokens = batch_size * tokens_per_chunk;

    for _ in 0..num_audio_tokens {
        input_tokens.push(audio_token_id as u32);
    }

    input_tokens.push(4u32); // [/INST]
    input_tokens.push(9909u32); // lang
    input_tokens.push(1058u32); // :
    input_tokens.push(1262u32); // en
    input_tokens.push(34u32); // [TRANSCRIBE]

    let builder = PromptBuilder::new(english_template()).unwrap();
    let prompt = builder.build(num_audio_tokens).unwrap();
    assert_eq!(prompt.tokens(), &input_tokens);
    assert_eq!(prompt.reserved(), 375);
    assert_eq!(prompt.placeholder(), 24);
    assert_eq!(prompt.len(), 383);
    let input_tokens = prompt.tokens();

    // Verify the sequence
    assert_eq!(input_tokens[0], 1);
    assert_eq!(input_tokens[1], 3);
    assert_eq!(input_tokens[2], 25);
    assert_eq!(input_tokens[3], 24); // First AUDIO token
    assert_eq!(input_tokens[379], 9909); // lang
}

#[test]
fn test_generation_config_parameters() {
    // Test that generation config uses expected parameters
    let config = VoxtralGenerationConfig {
        max_new_tokens: 1000,
        temperature: Ratio { numer: 0, denom: 1 },
        top_p: None,
        device: Device::Cpu, // Can't use CUDA in test
    };

    assert_eq!(config.max_new_tokens, 1000);
    assert_eq!(config.temperature.numer as f64 / config.temperature.denom as f64, 0.0);
    assert_eq!(config.top_p, None);
    assert!(config.is_valid());
    assert!(config.policy().is_greedy());
    assert_eq!(config, VoxtralGenerationConfig::greedy(1000, Device::Cpu));
}

#[test]
fn test_tensor_shape_validation() {
    // Test the validation logic for audio features
    let dims = vec![2, 128, 500]; // Valid: [batch, mels, time]

    assert!(dims.len() == 3, "Audio features must be 3D tensor (batch, mels, time)");
    assert_eq!(dims[1], 128, "Audio features must have 128 mel bins");
    assert_eq!(extractor().check_dims(&dims), Ok(()));
}

#[test]
fn test_device_selection_logic() {
    // Test the device selection logic
    let use_cpu = false;
    let cuda_available = false; // none while testing

    let device = match select_device(use_cpu, cuda_available) {
        Device::Cuda => "cuda",
        Device::Cpu => "cpu",
    };

    assert_eq!(device, "cpu");
}

#[test]
fn test_mel_filters_deserialization() {
    // Mel filters are read from bytes, four to a value
    // Create fake mel filter data
    let mel_bytes = vec![0u8; 128 * 4]; // 128 floats * 4 bytes per float
    let mut mel_filters = vec![0f32; mel_bytes.len() / 4];
    let mut cursor = Cursor::new(mel_bytes);

    let _result = cursor.read_f32_into::<LittleEndian>(&mut mel_filters);

    assert_eq!(mel_filters.len(), 128);
    assert_eq!(mel_filters.len(), extractor().mel_bins());
}

#[test]
fn test_parse_audio_config_defaults() {
    // Test default values for audio configuration
    let audio_json = "{}";

    let vocab_size = size_setting(audio_json, "vocab_size", 51866).unwrap();
    let hidden_size = size_setting(audio_json, "hidden_size", 1280).unwrap();
    let num_hidden_layers = size_setting(audio_json, "num_hidden_layers", 32).unwrap();
    let num_attention_heads = size_setting(audio_json, "num_attention_heads", 20).unwrap();
    let intermediate_size = size_setting(audio_json, "intermediate_size", 5120).unwrap();
    let max_source_positions = size_setting(audio_json, "max_source_positions", 1500).unwrap();
    let num_mel_bins = size_setting(audio_json, "num_mel_bins", 128).unwrap();
    let head_dim = size_setting(audio_json, "head_dim", 64).unwrap();

    assert_eq!(vocab_size, 51866);
    assert_eq!(hidden_size, 1280);
    assert_eq!(num_mel_bins, 128);
    assert_eq!(
        (num_hidden_layers, num_attention_heads, intermediate_size, max_source_positions, head_dim),
        (32, 20, 5120, 1500, 64)
    );
}

#[test]
fn settings_are_read_where_the_text_holds_them() {
    let text = r#"{"audio_token_id": 7, "vocab_size": 131072, "name": "voxtral", "depth": -3,
                   "audio_config": {"vocab_size": 51866}, "ratio": 1.5}"#;
    assert_eq!(audio_token_id(text), Ok(7));
    assert_eq!(size_setting(text, "vocab_size", 1), Ok(131072));
    // what is no unsigned integer counts as absent
    assert_eq!(size_setting(text, "name", 5), Ok(5));
    assert_eq!(size_setting(text, "depth", 5), Ok(5));
    assert_eq!(size_setting(text, "ratio", 5), Ok(5));
    assert_eq!(size_setting(text, "audio_config", 5), Ok(5));
    assert_eq!(size_setting(text, "missing", 5), Ok(5));
    assert_eq!(DEFAULT_AUDIO_TOKEN_ID, 24);
}

#[test]
fn settings_refuse_what_is_no_json_and_what_is_too_large() {
    assert_eq!(audio_token_id("not json"), Err(PipelineError::Config));
    assert_eq!(audio_token_id(""), Err(PipelineError::Config));
    assert_eq!(size_setting("{", "a", 1), Err(PipelineError::Config));
    assert_eq!(audio_token_id(r#"{"audio_token_id": 4294967295}"#), Ok(u32::MAX));
    assert_eq!(audio_token_id(r#"{"audio_token_id": 4294967296}"#), Err(PipelineError::Config));
    // a text that is JSON but no object has no members
    assert_eq!(audio_token_id("[1, 2]"), Ok(24));
    assert_eq!(audio_token_id("42"), Ok(24));
}

#[test]
fn the_build_has_no_accelerator() {
    assert!(!use_cpu());
    for cpu_flag in [false, true] {
        let stays_on_cpu = cpu_flag || !use_cpu();
        assert!(stays_on_cpu);
        assert_eq!(select_device(stays_on_cpu, true), Device::Cpu);
    }
}

#[test]
fn device_is_the_accelerator_only_when_allowed_and_there() {
    assert_eq!(select_device(false, true), Device::Cuda);
    assert_eq!(select_device(true, true), Device::Cpu);
    assert_eq!(select_device(false, false), Device::Cpu);
    assert_eq!(select_device(true, false), Device::Cpu);
}

#[test]
fn load_model_accepts_a_usable_configuration() {
    let model = load_model(true, false, config()).unwrap();
    assert_eq!(model.device(), Device::Cpu);
    assert_eq!(model.sample_rate(), 16000);
    assert_eq!(model.generation(), VoxtralGenerationConfig::greedy(1000, Device::Cpu));
    assert_eq!(model.decoder().vocab_size, 131072);
    assert_eq!(model.extractor().capacity_samples(), 480000);
    let accelerated = load_model(false, true, config()).unwrap();
    assert_eq!(accelerated.device(), Device::Cuda);
}

#[test]
fn load_model_refuses_unusable_configurations() {
    let broken: Vec<fn(&mut VoxtralConfig)> = vec![
        |c| c.sample_rate = 0,
        |c| c.chunk_samples = 0,
        |c| c.overlap = Ratio { numer: 1, denom: 0 },
        |c| c.hop_samples = 0,
        |c| c.mel_bins = 0,
        |c| c.encoder_capacity_frames = 0,
        |c| c.frames_per_embedding = 0,
        |c| c.frames_per_embedding = 3001,
        |c| c.chunk_samples = 480001,
        |c| c.hop_samples = usize::MAX,
        |c| c.template.language_tag = vec![9909, 24],
        |c| c.template.bos = 24,
        |c| c.decoder.vocab_size = 0,
        |c| c.decoder.layers = 0,
        |c| c.decoder.max_context = 0,
        |c| c.decoder.end_token = 131072,
        |c| c.generation.temperature = Ratio { numer: 1, denom: 0 },
        |c| c.generation.top_p = Some(Ratio { numer: 1, denom: 0 }),
    ];
    for change in broken {
        let mut c = config();
        change(&mut c);
        assert_eq!(load_model(true, false, c).err(), Some(PipelineError::Config));
    }
    let mut widest = config();
    widest.chunk_samples = 480000;
    assert!(load_model(true, false, widest).is_ok());
}

#[test]
fn the_prompt_of_a_window_reserves_what_the_encoder_gives() {
    let model = load_model(true, false, config()).unwrap();
    for samples in [1usize, 80000, 240000] {
        let prompt = model.prompt_for(samples).unwrap();
        assert_eq!(prompt.reserved(), 375);
        assert_eq!(prompt.len(), 383);
    }
    // a window that no scheduler of this model cuts, but which the encoder still takes
    assert_eq!(model.prompt_for(480000).unwrap().reserved(), 375);
    // and one that it does not take
    assert_eq!(model.prompt_for(480001).err(), Some(PipelineError::Shape));
}
