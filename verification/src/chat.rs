//! The decisions of the chat program: which model files it loads, how a user's prompt is
//! framed for the chat model, and how an elapsed time is reported.
use vstd::prelude::*;

verus! {

/// Where the chat program loads its model from.
#[derive(Debug)]
pub enum ModelSource {
    /// The checkpoint and tokenizer paths given on the command line; the checkpoint's
    /// format is chosen by its extension.
    Given { checkpoint: String, tokenizer: String },
    /// The MessagePack checkpoint and tokenizer in the user's cache directory.
    CachedMpk,
    /// The safetensors checkpoint and tokenizer in the user's models directory.
    HomeSafetensors,
}

/// The chat program's choice of model files: the paths given on the command line when both
/// are given; else the cached MessagePack files when both exist; else the safetensors files
/// in the models directory when both exist; else none (and the program gives up).
pub fn model_source(
    checkpoint: Option<String>,
    tokenizer: Option<String>,
    cached_files_exist: bool,
    home_files_exist: bool,
) -> (src: Option<ModelSource>)
    ensures
        (checkpoint is Some && tokenizer is Some) ==> src == Some(
            ModelSource::Given { checkpoint: checkpoint->0, tokenizer: tokenizer->0 },
        ),
        !(checkpoint is Some && tokenizer is Some) ==> src == if cached_files_exist {
            Some(ModelSource::CachedMpk)
        } else if home_files_exist {
            Some(ModelSource::HomeSafetensors)
        } else {
            None
        },
{
    match (checkpoint, tokenizer) {
        (Some(checkpoint), Some(tokenizer)) => Some(ModelSource::Given { checkpoint, tokenizer }),
        _ => {
            if cached_files_exist {
                Some(ModelSource::CachedMpk)
            } else if home_files_exist {
                Some(ModelSource::HomeSafetensors)
            } else {
                None
            }
        },
    }
}

/// The user's prompt framed in the chat model's template: a system turn that asks for a
/// friendly pirate, the user's turn, and an open assistant turn.
pub fn chat_prompt(prompt: &str) -> (framed: String)
    ensures
        framed@
            == "<|system|>\nYou are a friendly chatbot who always responds in the style of a pirate</s>\n<|user|>\n"@
            + prompt@ + "</s>\n<|assistant|>\n"@,
{
    let mut framed = String::from_str(
        "<|system|>\nYou are a friendly chatbot who always responds in the style of a pirate</s>\n<|user|>\n",
    );
    framed.append(prompt);
    framed.append("</s>\n<|assistant|>\n");
    framed
}

/// An elapsed number of seconds as whole minutes and the seconds left over.
pub fn minutes_and_seconds(elapsed_secs: u64) -> (ms: (u64, u64))
    ensures
        ms.0 == elapsed_secs / 60,
        ms.1 == elapsed_secs % 60,
        ms.0 * 60 + ms.1 == elapsed_secs,
        ms.1 < 60,
{
    (elapsed_secs / 60, elapsed_secs % 60)
}

} // verus!
