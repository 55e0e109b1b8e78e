//! Model configuration and the layout that a configuration builds.
//!
//! `TinyLlamaConfig` describes a whole chat model (transformer, rotary encoding, key-value
//! caches and tokenizer); `TinyLlamaModuleConfig` describes the bare module (transformer and
//! rotary encoding). Their `init` methods compute, from the configuration alone, the shape of
//! every part that the backend then allocates.
//!
//! The RMSNorm epsilon is a floating-point number; it is carried here as its IEEE-754 bit
//! pattern (`f64::to_bits`), which is exactly what the backend receives back.
use vstd::prelude::*;

verus! {

/// Bit pattern of the `f64` value `1e-5`, the default RMSNorm epsilon.
pub const DEFAULT_NORM_EPS_BITS: u64 = 0x3ee4_f8b5_88e3_68f1u64;

/// The parameters with which the transformer is built.
#[derive(Clone, Copy, Debug, PartialEq, Eq, Structural)]
pub struct TransformerShape {
    pub vocab_size: usize,
    pub n_layers: usize,
    pub d_model: usize,
    pub hidden_size: usize,
    pub n_heads: usize,
    pub n_kv_heads: usize,
    pub max_seq_len: usize,
    pub norm_eps_bits: u64,
}

/// The parameters with which the rotary positional encoding is built.
#[derive(Clone, Copy, Debug, PartialEq, Eq, Structural)]
pub struct RopeShape {
    /// Number of positions the encoding covers.
    pub max_sequence_length: usize,
    /// Width of one attention head.
    pub d_model: usize,
}

/// The parameters with which one layer's key-value cache is built.
#[derive(Clone, Copy, Debug, PartialEq, Eq, Structural)]
pub struct CacheShape {
    pub max_batch_size: usize,
    pub num_heads: usize,
    pub max_seq_len: usize,
    pub d_model: usize,
}

/// Everything that `TinyLlamaConfig::init` builds, as shapes.
#[derive(Debug)]
pub struct TinyLlamaLayout {
    pub transformer: TransformerShape,
    pub rope: RopeShape,
    /// One cache per transformer block.
    pub cache: Vec<CacheShape>,
    /// Path of the tokenizer file to load.
    pub tokenizer: String,
}

/// Everything that `TinyLlamaModuleConfig::init` builds, as shapes.
#[derive(Clone, Copy, Debug, PartialEq, Eq, Structural)]
pub struct TinyLlamaModuleLayout {
    pub transformer: TransformerShape,
    pub rope: RopeShape,
}

/// Configuration of a TinyLlama chat model.
#[derive(Debug)]
pub struct TinyLlamaConfig {
    /// The size of the model.
    pub d_model: usize,
    /// The size of the feed-forward hidden inner features.
    pub hidden_size: usize,
    /// The number of transformer blocks.
    pub num_hidden_layers: usize,
    /// The number of attention heads.
    pub num_attention_heads: usize,
    /// The number of key-value heads; the number of attention heads when absent.
    pub num_key_value_heads: Option<usize>,
    /// The vocabulary size.
    pub vocab_size: usize,
    /// RMSNorm epsilon, as the bit pattern of an `f64`.
    pub norm_eps_bits: u64,
    /// Maximum sequence length for input text.
    pub max_seq_len: usize,
    /// Maximum batch size (used for key-value cache).
    pub max_batch_size: usize,
    /// The tokenizer path.
    pub tokenizer: String,
}

/// Configuration of the bare TinyLlama module (transformer and rotary encoding).
#[derive(Clone, Copy, Debug, PartialEq, Eq, Structural)]
pub struct TinyLlamaModuleConfig {
    pub d_model: usize,
    pub vocab_size: usize,
    pub num_hidden_layers: usize,
    pub num_attention_heads: usize,
    pub num_key_value_heads: usize,
    pub hidden_size: usize,
    /// RMSNorm epsilon, as the bit pattern of an `f64`.
    pub norm_eps_bits: u64,
    pub max_seq_len: usize,
}

/// The two checkpoint formats that a model can be loaded from.
#[derive(Clone, Copy, Debug, PartialEq, Eq, Structural)]
pub enum CheckpointFormat {
    /// A `.safetensors` file.
    Safetensors,
    /// A named MessagePack record (`.mpk`).
    Mpk,
}

/// `suffix` is a suffix of `s`.
pub open spec fn has_suffix(s: Seq<char>, suffix: Seq<char>) -> bool {
    &&& suffix.len() <= s.len()
    &&& s.subrange(s.len() - suffix.len(), s.len() as int) == suffix
}

/// `t` is a suffix of every sequence that ends with it, whatever their lengths.
pub proof fn lemma_concat_has_suffix(s: Seq<char>, t: Seq<char>)
    ensures
        has_suffix(s + t, t),
{
    assert((s + t).subrange((s + t).len() - t.len(), (s + t).len() as int) =~= t);
}

/// A sequence that has `t` as a suffix is its own first part followed by `t`.
pub proof fn lemma_has_suffix_splits(s: Seq<char>, t: Seq<char>)
    requires
        has_suffix(s, t),
    ensures
        s =~= s.take(s.len() - t.len()) + t,
{
    assert forall|i: int| 0 <= i < s.len() implies s[i] == (s.take(s.len() - t.len()) + t)[i] by {
        if i >= s.len() - t.len() {
            assert(s.subrange(s.len() - t.len(), s.len() as int)[i - (s.len() - t.len())] == s[i]);
        }
    }
}

/// `t` is a suffix of `s` exactly when `s` is some sequence followed by `t`.
pub proof fn lemma_has_suffix_iff_concat(s: Seq<char>, t: Seq<char>)
    ensures
        has_suffix(s, t) <==> exists|prefix: Seq<char>| prefix + t == s,
{
    if has_suffix(s, t) {
        lemma_has_suffix_splits(s, t);
        assert(s.take(s.len() - t.len()) + t == s);
    }
    if exists|prefix: Seq<char>| prefix + t == s {
        let prefix = choose|prefix: Seq<char>| prefix + t == s;
        lemma_concat_has_suffix(prefix, t);
    }
}

/// Whether `s` ends with `suffix`, compared character by character.
pub fn ends_with(s: &str, suffix: &str) -> (b: bool)
    ensures
        b == has_suffix(s@, suffix@),
        b <==> exists|prefix: Seq<char>| prefix + suffix@ == s@,
{
    let n = s.unicode_len();
    let m = suffix.unicode_len();
    proof {
        lemma_has_suffix_iff_concat(s@, suffix@);
    }
    if m > n {
        return false;
    }
    let off = n - m;
    let mut i: usize = 0;
    while i < m
        invariant
            n == s@.len(),
            m == suffix@.len(),
            m <= n,
            off == n - m,
            i <= m,
            forall|j: int| 0 <= j < i ==> s@[off + j] == suffix@[j],
        decreases m - i,
    {
        if s.get_char(off + i) != suffix.get_char(i) {
            assert(s@.subrange(off as int, n as int)[i as int] != suffix@[i as int]);
            return false;
        }
        i = i + 1;
    }
    assert(s@.subrange(off as int, n as int) =~= suffix@);
    proof {
        lemma_has_suffix_iff_concat(s@, suffix@);
    }
    true
}

impl TinyLlamaConfig {
    /// Number of key-value heads the model is built with.
    pub open spec fn kv_heads(&self) -> usize {
        match self.num_key_value_heads {
            Some(n) => n,
            None => self.num_attention_heads,
        }
    }

    /// Width of one attention head.
    pub open spec fn head_dim(&self) -> usize {
        (self.d_model / self.num_attention_heads) as usize
    }

    /// The transformer this configuration builds.
    pub open spec fn transformer_shape(&self) -> TransformerShape {
        TransformerShape {
            vocab_size: self.vocab_size,
            n_layers: self.num_hidden_layers,
            d_model: self.d_model,
            hidden_size: self.hidden_size,
            n_heads: self.num_attention_heads,
            n_kv_heads: self.kv_heads(),
            max_seq_len: self.max_seq_len,
            norm_eps_bits: self.norm_eps_bits,
        }
    }

    /// The rotary encoding this configuration builds: it covers twice the maximum
    /// sequence length, one head wide.
    pub open spec fn rope_shape(&self) -> RopeShape {
        RopeShape { max_sequence_length: (self.max_seq_len * 2) as usize, d_model: self.head_dim() }
    }

    /// The shape of each layer's key-value cache.
    pub open spec fn cache_shape(&self) -> CacheShape {
        CacheShape {
            max_batch_size: self.max_batch_size,
            num_heads: self.kv_heads(),
            max_seq_len: self.max_seq_len,
            d_model: self.head_dim(),
        }
    }

    /// The configuration can be built: there is at least one attention head, and twice the
    /// maximum sequence length is a machine integer.
    pub open spec fn buildable(&self) -> bool {
        &&& self.num_attention_heads > 0
        &&& self.max_seq_len * 2 <= usize::MAX
    }

    /// A configuration with the given required values and every other field at its default:
    /// a model size of 2048, 22 blocks, 32 attention heads, no separate key-value head count,
    /// an epsilon of `1e-5`, sequences of at most 512 tokens and a batch of one.
    pub fn new(hidden_size: usize, vocab_size: usize, tokenizer: String) -> (cfg: Self)
        ensures
            cfg.d_model == 2048,
            cfg.hidden_size == hidden_size,
            cfg.num_hidden_layers == 22,
            cfg.num_attention_heads == 32,
            cfg.num_key_value_heads is None,
            cfg.vocab_size == vocab_size,
            cfg.norm_eps_bits == DEFAULT_NORM_EPS_BITS,
            cfg.max_seq_len == 512,
            cfg.max_batch_size == 1,
            cfg.tokenizer == tokenizer,
    {
        TinyLlamaConfig {
            d_model: 2048,
            hidden_size,
            num_hidden_layers: 22,
            num_attention_heads: 32,
            num_key_value_heads: None,
            vocab_size,
            norm_eps_bits: DEFAULT_NORM_EPS_BITS,
            max_seq_len: 512,
            max_batch_size: 1,
            tokenizer,
        }
    }

    /// Sets the size of the model.
    pub fn with_d_model(self, d_model: usize) -> (cfg: Self)
        ensures
            cfg == (TinyLlamaConfig { d_model, ..self }),
    {
        TinyLlamaConfig { d_model, ..self }
    }

    /// Sets the number of transformer blocks.
    pub fn with_num_hidden_layers(self, num_hidden_layers: usize) -> (cfg: Self)
        ensures
            cfg == (TinyLlamaConfig { num_hidden_layers, ..self }),
    {
        TinyLlamaConfig { num_hidden_layers, ..self }
    }

    /// Sets the number of attention heads.
    pub fn with_num_attention_heads(self, num_attention_heads: usize) -> (cfg: Self)
        ensures
            cfg == (TinyLlamaConfig { num_attention_heads, ..self }),
    {
        TinyLlamaConfig { num_attention_heads, ..self }
    }

    /// Sets the number of key-value heads.
    pub fn with_num_key_value_heads(self, num_key_value_heads: Option<usize>) -> (cfg: Self)
        ensures
            cfg == (TinyLlamaConfig { num_key_value_heads, ..self }),
    {
        TinyLlamaConfig { num_key_value_heads, ..self }
    }

    /// Sets the RMSNorm epsilon, given as the bit pattern of an `f64`.
    pub fn with_norm_eps_bits(self, norm_eps_bits: u64) -> (cfg: Self)
        ensures
            cfg == (TinyLlamaConfig { norm_eps_bits, ..self }),
    {
        TinyLlamaConfig { norm_eps_bits, ..self }
    }

    /// Sets the maximum sequence length.
    pub fn with_max_seq_len(self, max_seq_len: usize) -> (cfg: Self)
        ensures
            cfg == (TinyLlamaConfig { max_seq_len, ..self }),
    {
        TinyLlamaConfig { max_seq_len, ..self }
    }

    /// Sets the maximum batch size.
    pub fn with_max_batch_size(self, max_batch_size: usize) -> (cfg: Self)
        ensures
            cfg == (TinyLlamaConfig { max_batch_size, ..self }),
    {
        TinyLlamaConfig { max_batch_size, ..self }
    }

    /// TinyLlama-1.1B Chat v1.0 configuration: a model size of 2048, feed-forward width 5632,
    /// 22 blocks, 32 attention heads sharing 4 key-value heads, and a vocabulary of 32000.
    pub fn tiny_llama(tokenizer_path: &str) -> (cfg: Self)
        ensures
            cfg.d_model == 2048,
            cfg.hidden_size == 5632,
            cfg.num_hidden_layers == 22,
            cfg.num_attention_heads == 32,
            cfg.num_key_value_heads == Some(4usize),
            cfg.vocab_size == 32000,
            cfg.norm_eps_bits == DEFAULT_NORM_EPS_BITS,
            cfg.max_seq_len == 512,
            cfg.max_batch_size == 1,
            cfg.tokenizer@ == tokenizer_path@,
    {
        Self::new(5632, 32000, String::from_str(tokenizer_path))
            .with_d_model(2048)
            .with_num_hidden_layers(22)
            .with_num_key_value_heads(Some(4))
    }

    /// The format a checkpoint is loaded as, chosen by the path's extension:
    /// `.safetensors` first, then `.mpk`; any other path is refused with a message that
    /// names it.
    pub fn checkpoint_format(checkpoint_path: &str) -> (r: Result<CheckpointFormat, String>)
        ensures
            r == Ok::<CheckpointFormat, String>(CheckpointFormat::Safetensors) <==> has_suffix(
                checkpoint_path@,
                ".safetensors"@,
            ),
            r == Ok::<CheckpointFormat, String>(CheckpointFormat::Mpk) <==> (!has_suffix(
                checkpoint_path@,
                ".safetensors"@,
            ) && has_suffix(checkpoint_path@, ".mpk"@)),
            r is Err <==> (!has_suffix(checkpoint_path@, ".safetensors"@) && !has_suffix(
                checkpoint_path@,
                ".mpk"@,
            )),
            r matches Err(msg) ==> msg@
                == "Unsupported file format. Expected .safetensors or .mpk, got: "@
                + checkpoint_path@,
    {
        if ends_with(checkpoint_path, ".safetensors") {
            Ok(CheckpointFormat::Safetensors)
        } else if ends_with(checkpoint_path, ".mpk") {
            Ok(CheckpointFormat::Mpk)
        } else {
            let mut msg = String::from_str(
                "Unsupported file format. Expected .safetensors or .mpk, got: ",
            );
            msg.append(checkpoint_path);
            Err(msg)
        }
    }

    /// The message with which loading fails when the checkpoint file does not exist.
    pub fn missing_checkpoint_message(checkpoint: &str) -> (msg: String)
        ensures
            msg@ == "Model file does not exist: "@ + checkpoint@,
    {
        let mut msg = String::from_str("Model file does not exist: ");
        msg.append(checkpoint);
        msg
    }

    /// The layout of the model this configuration builds: the transformer, a rotary encoding
    /// over twice the maximum sequence length, and one key-value cache per block.
    pub fn init(&self) -> (layout: TinyLlamaLayout)
        requires
            self.buildable(),
        ensures
            layout.transformer == self.transformer_shape(),
            layout.rope == self.rope_shape(),
            layout.cache@.len() == self.num_hidden_layers,
            forall|i: int| 0 <= i < layout.cache@.len() ==> layout.cache@[i] == self.cache_shape(),
            layout.tokenizer@ == self.tokenizer@,
            layout.transformer.vocab_size == self.vocab_size,
            layout.transformer.n_layers == self.num_hidden_layers,
            layout.transformer.d_model == self.d_model,
            layout.transformer.hidden_size == self.hidden_size,
            layout.transformer.n_heads == self.num_attention_heads,
            self.num_key_value_heads matches Some(n) ==> layout.transformer.n_kv_heads == n,
            self.num_key_value_heads is None ==> layout.transformer.n_kv_heads
                == self.num_attention_heads,
            layout.transformer.max_seq_len == self.max_seq_len,
            layout.transformer.norm_eps_bits == self.norm_eps_bits,
            layout.rope.max_sequence_length == 2 * self.max_seq_len,
            layout.rope.d_model == self.d_model / self.num_attention_heads,
            forall|i: int|
                0 <= i < layout.cache@.len() ==> {
                    &&& (#[trigger] layout.cache@[i]).max_batch_size == self.max_batch_size
                    &&& layout.cache@[i].num_heads == layout.transformer.n_kv_heads
                    &&& layout.cache@[i].max_seq_len == self.max_seq_len
                    &&& layout.cache@[i].d_model == self.d_model / self.num_attention_heads
                },
    {
        let num_key_value_heads = match self.num_key_value_heads {
            Some(n) => n,
            None => self.num_attention_heads,
        };
        let head_dim = self.d_model / self.num_attention_heads;
        let transformer = TransformerShape {
            vocab_size: self.vocab_size,
            n_layers: self.num_hidden_layers,
            d_model: self.d_model,
            hidden_size: self.hidden_size,
            n_heads: self.num_attention_heads,
            n_kv_heads: num_key_value_heads,
            max_seq_len: self.max_seq_len,
            norm_eps_bits: self.norm_eps_bits,
        };
        let rope = RopeShape { max_sequence_length: self.max_seq_len * 2, d_model: head_dim };
        let shape = CacheShape {
            max_batch_size: self.max_batch_size,
            num_heads: num_key_value_heads,
            max_seq_len: self.max_seq_len,
            d_model: head_dim,
        };
        let mut cache: Vec<CacheShape> = Vec::new();
        let mut layer: usize = 0;
        while layer < self.num_hidden_layers
            invariant
                layer <= self.num_hidden_layers,
                cache@.len() == layer,
                shape == self.cache_shape(),
                forall|i: int| 0 <= i < cache@.len() ==> cache@[i] == self.cache_shape(),
            decreases self.num_hidden_layers - layer,
        {
            cache.push(shape);
            layer = layer + 1;
        }
        TinyLlamaLayout { transformer, rope, cache, tokenizer: self.tokenizer.clone() }
    }
}

impl TinyLlamaModuleConfig {
    /// The transformer this configuration builds.
    pub open spec fn transformer_shape(&self) -> TransformerShape {
        TransformerShape {
            vocab_size: self.vocab_size,
            n_layers: self.num_hidden_layers,
            d_model: self.d_model,
            hidden_size: self.hidden_size,
            n_heads: self.num_attention_heads,
            n_kv_heads: self.num_key_value_heads,
            max_seq_len: self.max_seq_len,
            norm_eps_bits: self.norm_eps_bits,
        }
    }

    /// The rotary encoding this configuration builds.
    pub open spec fn rope_shape(&self) -> RopeShape {
        RopeShape {
            max_sequence_length: (self.max_seq_len * 2) as usize,
            d_model: (self.d_model / self.num_attention_heads) as usize,
        }
    }

    /// The configuration can be built.
    pub open spec fn buildable(&self) -> bool {
        &&& self.num_attention_heads > 0
        &&& self.max_seq_len * 2 <= usize::MAX
    }

    /// A module configuration with every field given.
    pub fn new(
        d_model: usize,
        vocab_size: usize,
        num_hidden_layers: usize,
        num_attention_heads: usize,
        num_key_value_heads: usize,
        hidden_size: usize,
        norm_eps_bits: u64,
        max_seq_len: usize,
    ) -> (cfg: Self)
        ensures
            cfg == (TinyLlamaModuleConfig {
                d_model,
                vocab_size,
                num_hidden_layers,
                num_attention_heads,
                num_key_value_heads,
                hidden_size,
                norm_eps_bits,
                max_seq_len,
            }),
    {
        TinyLlamaModuleConfig {
            d_model,
            vocab_size,
            num_hidden_layers,
            num_attention_heads,
            num_key_value_heads,
            hidden_size,
            norm_eps_bits,
            max_seq_len,
        }
    }

    /// The layout of the module this configuration builds.
    pub fn init(&self) -> (layout: TinyLlamaModuleLayout)
        requires
            self.buildable(),
        ensures
            layout.transformer == self.transformer_shape(),
            layout.rope == self.rope_shape(),
            layout.transformer.vocab_size == self.vocab_size,
            layout.transformer.n_layers == self.num_hidden_layers,
            layout.transformer.d_model == self.d_model,
            layout.transformer.hidden_size == self.hidden_size,
            layout.transformer.n_heads == self.num_attention_heads,
            layout.transformer.n_kv_heads == self.num_key_value_heads,
            layout.transformer.max_seq_len == self.max_seq_len,
            layout.transformer.norm_eps_bits == self.norm_eps_bits,
            layout.rope.max_sequence_length == 2 * self.max_seq_len,
            layout.rope.d_model == self.d_model / self.num_attention_heads,
    {
        let transformer = TransformerShape {
            vocab_size: self.vocab_size,
            n_layers: self.num_hidden_layers,
            d_model: self.d_model,
            hidden_size: self.hidden_size,
            n_heads: self.num_attention_heads,
            n_kv_heads: self.num_key_value_heads,
            max_seq_len: self.max_seq_len,
            norm_eps_bits: self.norm_eps_bits,
        };
        let rope = RopeShape {
            max_sequence_length: self.max_seq_len * 2,
            d_model: self.d_model / self.num_attention_heads,
        };
        TinyLlamaModuleLayout { transformer, rope }
    }
}

/// A chat-model configuration and a module configuration with the same parameters (the
/// module's key-value head count being the one the chat model resolves) build the same
/// transformer and the same rotary encoding.
pub proof fn lemma_module_config_builds_same_model(
    cfg: TinyLlamaConfig,
    module: TinyLlamaModuleConfig,
)
    requires
        module.d_model == cfg.d_model,
        module.vocab_size == cfg.vocab_size,
        module.num_hidden_layers == cfg.num_hidden_layers,
        module.num_attention_heads == cfg.num_attention_heads,
        module.num_key_value_heads == cfg.kv_heads(),
        module.hidden_size == cfg.hidden_size,
        module.norm_eps_bits == cfg.norm_eps_bits,
        module.max_seq_len == cfg.max_seq_len,
    ensures
        module.transformer_shape() == cfg.transformer_shape(),
        module.rope_shape() == cfg.rope_shape(),
        module.buildable() == cfg.buildable(),
{
}

/// The attention heads of a buildable configuration together are no wider than the model,
/// and less than one head's width is left over.
pub proof fn lemma_heads_fit_model(cfg: TinyLlamaConfig)
    requires
        cfg.buildable(),
    ensures
        cfg.head_dim() * cfg.num_attention_heads <= cfg.d_model,
        cfg.d_model - cfg.head_dim() * cfg.num_attention_heads < cfg.num_attention_heads,
{
    let d = cfg.d_model as int;
    let h = cfg.num_attention_heads as int;
    assert(cfg.head_dim() as int == d / h);
    assert((d / h) * h <= d && d - (d / h) * h < h) by (nonlinear_arith)
        requires
            d >= 0,
            h > 0,
    {
        assert(d == h * (d / h) + d % h);
    }
}

/// Every part a chat configuration builds carries that configuration's own values: the
/// transformer its sizes, head counts (the key-value heads resolved to the attention heads
/// when absent), sequence length and epsilon; the rotary encoding twice its sequence length,
/// one head wide; each cache its batch size, key-value heads, sequence length and head width.
pub proof fn lemma_layout_carries_configuration(cfg: TinyLlamaConfig)
    ensures
        cfg.transformer_shape().vocab_size == cfg.vocab_size,
        cfg.transformer_shape().n_layers == cfg.num_hidden_layers,
        cfg.transformer_shape().d_model == cfg.d_model,
        cfg.transformer_shape().hidden_size == cfg.hidden_size,
        cfg.transformer_shape().n_heads == cfg.num_attention_heads,
        cfg.num_key_value_heads matches Some(n) ==> cfg.transformer_shape().n_kv_heads == n,
        cfg.num_key_value_heads is None ==> cfg.transformer_shape().n_kv_heads
            == cfg.num_attention_heads,
        cfg.transformer_shape().max_seq_len == cfg.max_seq_len,
        cfg.transformer_shape().norm_eps_bits == cfg.norm_eps_bits,
        cfg.buildable() ==> cfg.rope_shape().max_sequence_length == 2 * cfg.max_seq_len,
        cfg.buildable() ==> cfg.rope_shape().d_model == cfg.d_model / cfg.num_attention_heads,
        cfg.cache_shape().max_batch_size == cfg.max_batch_size,
        cfg.cache_shape().num_heads == cfg.transformer_shape().n_kv_heads,
        cfg.cache_shape().max_seq_len == cfg.max_seq_len,
        cfg.cache_shape().d_model == cfg.rope_shape().d_model,
{
}

/// The module a module configuration builds carries that configuration's own values.
pub proof fn lemma_module_layout_carries_configuration(cfg: TinyLlamaModuleConfig)
    ensures
        cfg.transformer_shape().vocab_size == cfg.vocab_size,
        cfg.transformer_shape().n_layers == cfg.num_hidden_layers,
        cfg.transformer_shape().d_model == cfg.d_model,
        cfg.transformer_shape().hidden_size == cfg.hidden_size,
        cfg.transformer_shape().n_heads == cfg.num_attention_heads,
        cfg.transformer_shape().n_kv_heads == cfg.num_key_value_heads,
        cfg.transformer_shape().max_seq_len == cfg.max_seq_len,
        cfg.transformer_shape().norm_eps_bits == cfg.norm_eps_bits,
        cfg.buildable() ==> cfg.rope_shape().max_sequence_length == 2 * cfg.max_seq_len,
        cfg.buildable() ==> cfg.rope_shape().d_model == cfg.d_model / cfg.num_attention_heads,
{
}

} // verus!
