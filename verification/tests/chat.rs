use tiny_llama_cuda::chat::{chat_prompt, minutes_and_seconds, model_source, ModelSource};

#[test]
fn chat_prompt_frames_user_turn() {
    assert_eq!(
        chat_prompt("How many helicopters can a human eat in one sitting?"),
        "<|system|>\nYou are a friendly chatbot who always responds in the style of a pirate</s>\n<|user|>\nHow many helicopters can a human eat in one sitting?</s>\n<|assistant|>\n"
    );
    assert_eq!(
        chat_prompt(""),
        "<|system|>\nYou are a friendly chatbot who always responds in the style of a pirate</s>\n<|user|>\n</s>\n<|assistant|>\n"
    );
}

#[test]
fn minutes_and_seconds_split() {
    assert_eq!(minutes_and_seconds(0), (0, 0));
    assert_eq!(minutes_and_seconds(59), (0, 59));
    assert_eq!(minutes_and_seconds(60), (1, 0));
    assert_eq!(minutes_and_seconds(3725), (62, 5));
    assert_eq!(minutes_and_seconds(u64::MAX), (u64::MAX / 60, u64::MAX % 60));
}

#[test]
fn model_source_prefers_given_paths() {
    match model_source(Some("m.mpk".to_string()), Some("t.json".to_string()), true, true) {
        Some(ModelSource::Given { checkpoint, tokenizer }) => {
            assert_eq!(checkpoint, "m.mpk");
            assert_eq!(tokenizer, "t.json");
        }
        other => panic!("unexpected {:?}", other),
    }
}

#[test]
fn model_source_falls_back_in_order() {
    assert!(matches!(
        model_source(Some("m.mpk".to_string()), None, true, true),
        Some(ModelSource::CachedMpk)
    ));
    assert!(matches!(model_source(None, None, false, true), Some(ModelSource::HomeSafetensors)));
    assert!(matches!(
        model_source(None, Some("t.json".to_string()), false, false),
        None
    ));
}
