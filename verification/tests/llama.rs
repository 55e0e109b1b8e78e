use tiny_llama_cuda::llama::{
    CacheShape, CheckpointFormat, RopeShape, TinyLlamaConfig, TinyLlamaModuleConfig,
    TransformerShape, DEFAULT_NORM_EPS_BITS,
};

#[test]
fn default_norm_eps_is_one_e_minus_five() {
    assert_eq!(DEFAULT_NORM_EPS_BITS, 1e-5f64.to_bits());
    assert_eq!(f64::from_bits(DEFAULT_NORM_EPS_BITS), 1e-5);
}

#[test]
fn new_config_takes_defaults() {
    let cfg = TinyLlamaConfig::new(100, 200, String::from("tok.json"));
    assert_eq!(cfg.d_model, 2048);
    assert_eq!(cfg.hidden_size, 100);
    assert_eq!(cfg.num_hidden_layers, 22);
    assert_eq!(cfg.num_attention_heads, 32);
    assert_eq!(cfg.num_key_value_heads, None);
    assert_eq!(cfg.vocab_size, 200);
    assert_eq!(cfg.norm_eps_bits, DEFAULT_NORM_EPS_BITS);
    assert_eq!(cfg.max_seq_len, 512);
    assert_eq!(cfg.max_batch_size, 1);
    assert_eq!(cfg.tokenizer, "tok.json");
}

#[test]
fn builders_change_only_their_field() {
    let cfg = TinyLlamaConfig::new(100, 200, String::from("t"))
        .with_d_model(64)
        .with_num_hidden_layers(3)
        .with_num_attention_heads(8)
        .with_num_key_value_heads(Some(2))
        .with_norm_eps_bits(1e-6f64.to_bits())
        .with_max_seq_len(16)
        .with_max_batch_size(4);
    assert_eq!(cfg.d_model, 64);
    assert_eq!(cfg.hidden_size, 100);
    assert_eq!(cfg.num_hidden_layers, 3);
    assert_eq!(cfg.num_attention_heads, 8);
    assert_eq!(cfg.num_key_value_heads, Some(2));
    assert_eq!(cfg.vocab_size, 200);
    assert_eq!(f64::from_bits(cfg.norm_eps_bits), 1e-6);
    assert_eq!(cfg.max_seq_len, 16);
    assert_eq!(cfg.max_batch_size, 4);
    assert_eq!(cfg.tokenizer, "t");
}

#[test]
fn tiny_llama_preset() {
    let cfg = TinyLlamaConfig::tiny_llama("/models/tokenizer.json");
    assert_eq!(cfg.d_model, 2048);
    assert_eq!(cfg.hidden_size, 5632);
    assert_eq!(cfg.num_hidden_layers, 22);
    assert_eq!(cfg.num_attention_heads, 32);
    assert_eq!(cfg.num_key_value_heads, Some(4));
    assert_eq!(cfg.vocab_size, 32000);
    assert_eq!(cfg.norm_eps_bits, DEFAULT_NORM_EPS_BITS);
    assert_eq!(cfg.max_seq_len, 512);
    assert_eq!(cfg.max_batch_size, 1);
    assert_eq!(cfg.tokenizer, "/models/tokenizer.json");
}

#[test]
fn tiny_llama_layout_has_one_cache_per_layer() {
    let mut cfg = TinyLlamaConfig::tiny_llama("tokenizer.json");
    cfg.max_seq_len = 128;
    let layout = cfg.init();
    assert_eq!(layout.cache.len(), 22);
    for shape in &layout.cache {
        assert_eq!(
            *shape,
            CacheShape { max_batch_size: 1, num_heads: 4, max_seq_len: 128, d_model: 64 }
        );
    }
    assert_eq!(layout.rope, RopeShape { max_sequence_length: 256, d_model: 64 });
    assert_eq!(
        layout.transformer,
        TransformerShape {
            vocab_size: 32000,
            n_layers: 22,
            d_model: 2048,
            hidden_size: 5632,
            n_heads: 32,
            n_kv_heads: 4,
            max_seq_len: 128,
            norm_eps_bits: DEFAULT_NORM_EPS_BITS,
        }
    );
    assert_eq!(layout.tokenizer, "tokenizer.json");
}

#[test]
fn key_value_heads_default_to_attention_heads() {
    let cfg = TinyLlamaConfig::new(10, 20, String::from("t"))
        .with_d_model(100)
        .with_num_attention_heads(6)
        .with_num_hidden_layers(2)
        .with_max_batch_size(3)
        .with_max_seq_len(7);
    let layout = cfg.init();
    assert_eq!(layout.transformer.n_kv_heads, 6);
    // 100 / 6 rounds down
    assert_eq!(layout.rope, RopeShape { max_sequence_length: 14, d_model: 16 });
    assert_eq!(
        layout.cache,
        vec![
            CacheShape { max_batch_size: 3, num_heads: 6, max_seq_len: 7, d_model: 16 };
            2
        ]
    );
}

#[test]
fn no_layers_means_no_caches() {
    let cfg = TinyLlamaConfig::new(10, 20, String::from("t")).with_num_hidden_layers(0);
    let layout = cfg.init();
    assert!(layout.cache.is_empty());
}

#[test]
fn module_config_builds_same_model_as_chat_config() {
    let cfg = TinyLlamaConfig::tiny_llama("t");
    let module = TinyLlamaModuleConfig::new(2048, 32000, 22, 32, 4, 5632, DEFAULT_NORM_EPS_BITS, 512);
    assert_eq!(module.d_model, 2048);
    assert_eq!(module.num_key_value_heads, 4);
    let full = cfg.init();
    let bare = module.init();
    assert_eq!(full.transformer, bare.transformer);
    assert_eq!(full.rope, bare.rope);
    assert_eq!(bare.rope, RopeShape { max_sequence_length: 1024, d_model: 64 });
}

#[test]
fn checkpoint_format_by_extension() {
    assert_eq!(
        TinyLlamaConfig::checkpoint_format("/m/model.safetensors"),
        Ok(CheckpointFormat::Safetensors)
    );
    assert_eq!(TinyLlamaConfig::checkpoint_format("model.mpk"), Ok(CheckpointFormat::Mpk));
    assert_eq!(TinyLlamaConfig::checkpoint_format(".mpk"), Ok(CheckpointFormat::Mpk));
    assert_eq!(
        TinyLlamaConfig::checkpoint_format("model.mpk.safetensors"),
        Ok(CheckpointFormat::Safetensors)
    );
    assert_eq!(
        TinyLlamaConfig::checkpoint_format("model.safetensors.mpk"),
        Ok(CheckpointFormat::Mpk)
    );
}

#[test]
fn checkpoint_format_refuses_other_extensions() {
    assert_eq!(
        TinyLlamaConfig::checkpoint_format("model.bin"),
        Err(String::from(
            "Unsupported file format. Expected .safetensors or .mpk, got: model.bin"
        ))
    );
    assert_eq!(
        TinyLlamaConfig::checkpoint_format(""),
        Err(String::from("Unsupported file format. Expected .safetensors or .mpk, got: "))
    );
    assert_eq!(
        TinyLlamaConfig::checkpoint_format("model.MPK"),
        Err(String::from(
            "Unsupported file format. Expected .safetensors or .mpk, got: model.MPK"
        ))
    );
    assert_eq!(
        TinyLlamaConfig::checkpoint_format("mpk"),
        Err(String::from("Unsupported file format. Expected .safetensors or .mpk, got: mpk"))
    );
}

#[test]
fn checkpoint_format_handles_non_ascii_paths() {
    assert_eq!(TinyLlamaConfig::checkpoint_format("modèle.mpk"), Ok(CheckpointFormat::Mpk));
    assert_eq!(
        TinyLlamaConfig::checkpoint_format("é"),
        Err(String::from("Unsupported file format. Expected .safetensors or .mpk, got: é"))
    );
}

#[test]
fn missing_checkpoint_message_names_path() {
    assert_eq!(
        TinyLlamaConfig::missing_checkpoint_message("/x/model.mpk"),
        "Model file does not exist: /x/model.mpk"
    );
}
