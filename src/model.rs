//! The loaded model: tokenizer, encoder and device, and the per-text pipeline
//! of tokenization, inference and masked mean pooling.
use crate::pooling::{mask_total, pooling_divisor};
use candle_core::{DType, Device, Tensor};
use candle_nn::VarBuilder;
use candle_transformers::models::bert::{BertModel, Config};
use std::collections::HashMap;
use tokenizers::Tokenizer;
use vstd::prelude::*;
use vstd::string::StringExecFns;

verus! {

#[verifier::external_type_specification]
#[verifier::external_body]
pub struct ExTensor(Tensor);

#[verifier::external_type_specification]
#[verifier::external_body]
pub struct ExDevice(Device);

/// candle's error type, which candle's operator impls on `Tensor` return.
#[verifier::external_type_specification]
#[verifier::external_body]
pub struct ExCandleError(candle_core::Error);

#[verifier::external_type_specification]
#[verifier::external_body]
pub struct ExBertModel(BertModel);

#[verifier::external_type_specification]
#[verifier::external_body]
pub struct ExConfig(Config);

#[verifier::external_type_specification]
#[verifier::external_body]
pub struct ExTokenizer(Tokenizer);

/// Why loading a model or embedding a text failed, with the message of the
/// component that reported it.
#[derive(Debug, PartialEq, Eq)]
pub enum ModelError {
    /// The configuration is not valid model hyperparameters.
    ConfigParse { message: String },
    /// The tokenizer definition could not be read.
    TokenizerLoad { message: String },
    /// The weight archive could not be read.
    WeightsLoad { message: String },
    /// The weights do not fit the configuration.
    ModelBuild { message: String },
    /// The tokenizer rejected the text.
    Tokenization { message: String },
    /// A tensor operation of inference or pooling failed.
    Inference { message: String },
}

/// Whether loading from these bytes succeeds: every step accepts its input,
/// and the configuration has a head for its layers.
pub open spec fn load_succeeds(config: Seq<u8>, tokenizer: Seq<u8>, weights: Seq<u8>) -> bool {
    &&& config_buildable(config)
    &&& tokenizer_accepted(tokenizer)
    &&& weights_accepted(weights)
    &&& model_builds(config, weights)
}

impl ModelError {
    /// The errors that loading can give.
    pub open spec fn is_load_error(self) -> bool {
        ||| self is ConfigParse
        ||| self is TokenizerLoad
        ||| self is WeightsLoad
        ||| self is ModelBuild
    }
}

/// The token ids of one text and the attention mask beside them.
pub struct TokenEncoding {
    pub ids: Vec<u32>,
    pub attention_mask: Vec<u32>,
}

impl TokenEncoding {
    /// Ids and mask run in parallel.
    pub open spec fn wf(&self) -> bool {
        self.ids@.len() == self.attention_mask@.len()
    }
}

/// A loaded encoder with its tokenizer, on the host processor. It is not
/// changed after loading and can embed any number of texts.
pub struct BertModelWrapper {
    model: BertModel,
    tokenizer: Tokenizer,
    device: Device,
    hidden_size: usize,
}

/// For bytes that serde_json accepts as a BERT `Config`, its hidden size, its
/// number of attention heads and its number of hidden layers; else `None`.
pub uninterp spec fn config_fields(bytes: Seq<u8>) -> Option<(usize, usize, usize)>;

/// Whether tokenizers accepts these bytes as a tokenizer definition.
pub uninterp spec fn tokenizer_accepted(bytes: Seq<u8>) -> bool;

/// Whether candle reads these bytes as a safetensors archive on the CPU.
pub uninterp spec fn weights_accepted(bytes: Seq<u8>) -> bool;

/// Whether candle-transformers builds a BERT model from this configuration
/// and these weights on the CPU.
pub uninterp spec fn model_builds(config: Seq<u8>, weights: Seq<u8>) -> bool;

/// The dimensions of a tensor, outermost first.
pub uninterp spec fn tensor_dims(t: Tensor) -> Seq<usize>;

/// Whether dimensions `b`, aligned on the right with `a`, broadcast to `a`
/// itself: `b` has no more axes, and each of its axes is one or matches.
pub open spec fn broadcasts_into(b: Seq<usize>, a: Seq<usize>) -> bool {
    &&& b.len() <= a.len()
    &&& forall|i: int| 0 <= i < b.len() ==> b[i] == 1 || b[i] == a[a.len() - b.len() + i]
}

/// A configuration that candle-transformers can build a model from without
/// dividing by a zero head count: any layer needs at least one head.
pub open spec fn config_buildable(config: Seq<u8>) -> bool {
    config_fields(config) matches Some((h, heads, layers)) && (layers > 0 ==> heads > 0)
}

/// Relies on candle_core::Device::Cpu: the host processor as compute device.
#[verifier::external_body]
fn cpu_device() -> (r: Device) {
    Device::Cpu
}

/// Relies on serde_json::from_slice, deserializing candle-transformers' BERT
/// `Config`, whose fields `hidden_size`, `num_attention_heads` and
/// `num_hidden_layers` are handed out beside it; the result depends on the
/// bytes alone. The error becomes its message.
#[verifier::external_body]
fn parse_config(bytes: &[u8]) -> (r: Result<(Config, (usize, usize, usize)), String>)
    ensures
        r is Ok <==> config_fields(bytes@) is Some,
        r matches Ok((c, f)) ==> config_fields(bytes@) == Some(f),
{
    serde_json::from_slice::<Config>(bytes).map(|c| {
        let f = (c.hidden_size, c.num_attention_heads, c.num_hidden_layers);
        (c, f)
    }).map_err(|e| e.to_string())
}

/// Relies on tokenizers::Tokenizer::from_bytes, building a tokenizer from its
/// JSON definition; whether it succeeds depends on the bytes alone. The error
/// becomes its message.
#[verifier::external_body]
fn tokenizer_from_bytes(bytes: &[u8]) -> (r: Result<Tokenizer, String>)
    ensures
        r is Ok <==> tokenizer_accepted(bytes@),
{
    Tokenizer::from_bytes(bytes).map_err(|e| e.to_string())
}

/// Relies on candle_core::safetensors::load_buffer, reading the named tensors
/// of a safetensors archive onto the CPU; whether it succeeds depends on the
/// bytes alone. The error becomes its message.
#[verifier::external_body]
fn load_weights(bytes: &[u8]) -> (r: Result<HashMap<String, Tensor>, String>)
    ensures
        r is Ok <==> weights_accepted(bytes@),
{
    candle_core::safetensors::load_buffer(bytes, &Device::Cpu).map_err(|e| e.to_string())
}

/// Relies on candle_transformers' BertModel::load, over the configuration
/// that serde_json reads from `config` and the tensors that
/// candle_core::safetensors::load_buffer reads from `weights`, handed to
/// candle_nn::VarBuilder::from_tensors at 32-bit floating precision on the
/// CPU; the result depends on the bytes alone. BertModel::load divides the
/// hidden size by the head count for each layer, so a configuration with
/// layers and no heads is left out. The error becomes its message.
#[verifier::external_body]
fn build_bert(config: &[u8], weights: &[u8]) -> (r: Result<BertModel, String>)
    requires
        config_buildable(config@),
    ensures
        r is Ok <==> model_builds(config@, weights@),
{
    let config = serde_json::from_slice::<Config>(config).map_err(|e| e.to_string())?;
    let tensors = candle_core::safetensors::load_buffer(weights, &Device::Cpu).map_err(|e| e.to_string())?;
    let vb = VarBuilder::from_tensors(tensors, DType::F32, &Device::Cpu);
    BertModel::load(vb, &config).map_err(|e| e.to_string())
}

/// Relies on tokenizers::Tokenizer::encode with special tokens added, handing
/// out the encoding's ids and attention mask; the error becomes its message.
#[verifier::external_body]
fn tokenize(tokenizer: &Tokenizer, text: &str) -> (r: Result<(Vec<u32>, Vec<u32>), String>) {
    tokenizer.encode(text, true).map(
        |e| (e.get_ids().to_vec(), e.get_attention_mask().to_vec()),
    ).map_err(|e| e.to_string())
}

/// Relies on candle_core::Tensor::new: a one-dimensional `u32` tensor of `data`.
#[verifier::external_body]
fn tensor_from_u32(data: &Vec<u32>, device: &Device) -> (r: Result<Tensor, String>)
    ensures
        r matches Ok(t) ==> tensor_dims(t) == seq![data@.len() as usize],
{
    Tensor::new(data.as_slice(), device).map_err(|e| e.to_string())
}

/// Relies on candle_core::Tensor::unsqueeze: a new axis of size one at `dim`.
#[verifier::external_body]
fn unsqueeze(t: &Tensor, dim: usize) -> (r: Result<Tensor, String>)
    ensures
        dim <= tensor_dims(*t).len() ==> (r matches Ok(u) ==> tensor_dims(u) == tensor_dims(
            *t,
        ).insert(dim as int, 1)),
{
    t.unsqueeze(dim).map_err(|e| e.to_string())
}

/// Relies on candle_core::Tensor::squeeze: removes the axis `dim` where it
/// has size one, and leaves the tensor as it is otherwise.
#[verifier::external_body]
fn squeeze(t: &Tensor, dim: usize) -> (r: Result<Tensor, String>)
    ensures
        dim < tensor_dims(*t).len() && tensor_dims(*t)[dim as int] == 1 ==> (r matches Ok(u)
            ==> tensor_dims(u) == tensor_dims(*t).remove(dim as int)),
{
    t.squeeze(dim).map_err(|e| e.to_string())
}

/// Relies on candle_core::Tensor::zeros_like: zeros of the shape and type of `t`.
#[verifier::external_body]
fn zeros_like(t: &Tensor) -> (r: Result<Tensor, String>) {
    t.zeros_like().map_err(|e| e.to_string())
}

/// Relies on candle_core::Tensor::to_dtype, converting to 32-bit floats.
#[verifier::external_body]
fn to_f32(t: &Tensor) -> (r: Result<Tensor, String>)
    ensures
        r matches Ok(u) ==> tensor_dims(u) == tensor_dims(*t),
{
    t.to_dtype(DType::F32).map_err(|e| e.to_string())
}

/// Relies on candle_core::Tensor::broadcast_mul: the elementwise product
/// after broadcasting both operands to a common shape.
#[verifier::external_body]
fn broadcast_mul(a: &Tensor, b: &Tensor) -> (r: Result<Tensor, String>)
    ensures
        broadcasts_into(tensor_dims(*b), tensor_dims(*a)) ==> (r matches Ok(u) ==> tensor_dims(u)
            == tensor_dims(*a)),
{
    a.broadcast_mul(b).map_err(|e| e.to_string())
}

/// Relies on candle_core::Tensor::broadcast_div: the elementwise quotient
/// after broadcasting both operands to a common shape.
#[verifier::external_body]
fn broadcast_div(a: &Tensor, b: &Tensor) -> (r: Result<Tensor, String>)
    ensures
        broadcasts_into(tensor_dims(*b), tensor_dims(*a)) ==> (r matches Ok(u) ==> tensor_dims(u)
            == tensor_dims(*a)),
{
    a.broadcast_div(b).map_err(|e| e.to_string())
}

/// Relies on candle_core::Tensor::sum: sums over the axis `dim`, removing it.
#[verifier::external_body]
fn sum_dim(t: &Tensor, dim: usize) -> (r: Result<Tensor, String>)
    ensures
        dim < tensor_dims(*t).len() ==> (r matches Ok(u) ==> tensor_dims(u) == tensor_dims(
            *t,
        ).remove(dim as int)),
{
    t.sum(dim).map_err(|e| e.to_string())
}

/// Relies on candle_transformers' BertModel::forward: the encoder's hidden
/// states for a batch of token ids, segment ids and attention mask, one
/// vector per token (the embedding lookup appends the hidden axis to the ids'
/// shape, and every layer keeps that shape).
#[verifier::external_body]
fn bert_forward(
    model: &BertModel,
    ids: &Tensor,
    token_types: &Tensor,
    mask: &Tensor,
) -> (r: Result<Tensor, String>)
    ensures
        tensor_dims(*ids).len() == 2 ==> (r matches Ok(h) ==> tensor_dims(h).len() == 3
            && tensor_dims(h)[0] == tensor_dims(*ids)[0] && tensor_dims(h)[1] == tensor_dims(
            *ids,
        )[1]),
{
    model.forward(ids, token_types, Some(mask)).map_err(|e| e.to_string())
}

/// An inference error from a failed tensor operation.
fn inference<T>(r: Result<T, String>) -> (out: Result<T, ModelError>)
    ensures
        r matches Ok(v) ==> out == Ok::<T, ModelError>(v),
        r matches Err(m) ==> out == Err::<T, ModelError>(ModelError::Inference { message: m }),
{
    match r {
        Ok(v) => Ok(v),
        Err(m) => Err(ModelError::Inference { message: m }),
    }
}

/// Masked mean pooling of hidden states of shape (1, tokens, hidden size):
/// each token's state weighted by its mask entry, summed over the tokens,
/// and divided by the mask's total floored at one. The divisor is computed
/// exactly by `pooling_divisor`; a mask whose total does not fit in a
/// `u32` is an inference error.
pub fn mean_pool(hidden: &Tensor, mask: &Vec<u32>, device: &Device) -> (r: Result<Tensor, ModelError>)
    ensures
        r matches Err(e) ==> e is Inference,
        mask_total(mask@) > u32::MAX ==> r is Err,
        tensor_dims(*hidden).len() == 3 && tensor_dims(*hidden)[0] == 1 && tensor_dims(*hidden)[1]
            == mask@.len() ==> (r matches Ok(v) ==> tensor_dims(v) == seq![tensor_dims(*hidden)[2]]),
{
    let divisor = match pooling_divisor(mask) {
        Some(d) => d,
        None => {
            return Err(
                ModelError::Inference {
                    message: String::from_str("attention mask total exceeds u32"),
                },
            );
        },
    };
    let weights = inference(tensor_from_u32(mask, device))?;
    let weights = inference(to_f32(&weights))?;
    let weights = inference(unsqueeze(&weights, 0))?;
    let weights = inference(unsqueeze(&weights, 2))?;
    let ghost hd = tensor_dims(*hidden);
    let ghost shaped = hd.len() == 3 && hd[0] == 1 && hd[1] == mask@.len();
    proof {
        if shaped {
            assert(tensor_dims(weights) =~= seq![1usize, hd[1], 1usize]);
        }
    }
    let masked = inference(broadcast_mul(hidden, &weights))?;
    let sums = inference(sum_dim(&masked, 1))?;
    proof {
        if shaped {
            assert(tensor_dims(sums) =~= seq![1usize, hd[2]]);
        }
    }
    let one = vec![divisor];
    let count = inference(tensor_from_u32(&one, device))?;
    let count = inference(to_f32(&count))?;
    let mean = inference(broadcast_div(&sums, &count))?;
    let r = inference(squeeze(&mean, 0));
    proof {
        if shaped && r is Ok {
            assert(tensor_dims(r->Ok_0) =~= seq![hd[2]]);
        }
    }
    r
}

/// Pairs token ids with their attention mask; they must have equal lengths.
pub fn encoding_from(ids: Vec<u32>, mask: Vec<u32>) -> (r: Result<TokenEncoding, ModelError>)
    ensures
        r is Ok <==> ids@.len() == mask@.len(),
        r matches Ok(e) ==> e.ids@ == ids@ && e.attention_mask@ == mask@,
        r matches Err(e) ==> e is Tokenization,
{
    if ids.len() != mask.len() {
        Err(
            ModelError::Tokenization {
                message: String::from_str("ids and attention mask differ in length"),
            },
        )
    } else {
        Ok(TokenEncoding { ids, attention_mask: mask })
    }
}

/// The encoding that a tokenizer's answer `t` gives: its message as a
/// tokenization error, or its ids and mask as by `encoding_from`.
pub open spec fn encoding_outcome_spec(
    t: Result<(Vec<u32>, Vec<u32>), String>,
    r: Result<TokenEncoding, ModelError>,
) -> bool {
    match t {
        Err(m) => r == Err::<TokenEncoding, ModelError>(ModelError::Tokenization { message: m }),
        Ok((ids, mask)) => {
            &&& (r is Ok <==> ids@.len() == mask@.len())
            &&& (r matches Ok(e) ==> e.ids@ == ids@ && e.attention_mask@ == mask@)
            &&& (r matches Err(e) ==> e is Tokenization)
        },
    }
}

/// Turns a tokenizer's answer into an encoding or a tokenization error.
pub fn encoding_outcome(t: Result<(Vec<u32>, Vec<u32>), String>) -> (r: Result<
    TokenEncoding,
    ModelError,
>)
    ensures
        encoding_outcome_spec(t, r),
{
    match t {
        Ok((ids, mask)) => encoding_from(ids, mask),
        Err(message) => Err(ModelError::Tokenization { message }),
    }
}

impl BertModelWrapper {
    /// Builds the model from the bytes of its configuration, its tokenizer
    /// definition and its weight archive, on the CPU. The steps run in that
    /// order, and the first that fails gives the error of its kind. A
    /// configuration with hidden layers and no attention heads cannot build.
    pub fn load(config_json: &[u8], tokenizer_json: &[u8], weights: &[u8]) -> (r: Result<
        Self,
        ModelError,
    >)
        ensures
            r is Ok <==> load_succeeds(config_json@, tokenizer_json@, weights@),
            r matches Ok(w) ==> config_fields(config_json@) matches Some(f) && w.width() == f.0,
            config_fields(config_json@) is None ==> (r matches Err(e) && e is ConfigParse),
            config_fields(config_json@) is Some && !tokenizer_accepted(tokenizer_json@) ==> (r matches Err(
                e,
            ) && e is TokenizerLoad),
            config_fields(config_json@) is Some && tokenizer_accepted(tokenizer_json@)
                && !weights_accepted(weights@) ==> (r matches Err(e) && e is WeightsLoad),
            config_fields(config_json@) is Some && tokenizer_accepted(tokenizer_json@)
                && weights_accepted(weights@) ==> (r matches Err(e) ==> e is ModelBuild),
    {
        let (_config, fields) = match parse_config(config_json) {
            Ok(c) => c,
            Err(message) => return Err(ModelError::ConfigParse { message }),
        };
        let tokenizer = match tokenizer_from_bytes(tokenizer_json) {
            Ok(t) => t,
            Err(message) => return Err(ModelError::TokenizerLoad { message }),
        };
        if let Err(message) = load_weights(weights) {
            return Err(ModelError::WeightsLoad { message });
        }
        let (hidden_size, heads, layers) = fields;
        if layers > 0 && heads == 0 {
            return Err(
                ModelError::ModelBuild {
                    message: String::from_str("hidden layers need at least one attention head"),
                },
            );
        }
        let model = match build_bert(config_json, weights) {
            Ok(m) => m,
            Err(message) => return Err(ModelError::ModelBuild { message }),
        };
        Ok(BertModelWrapper { model, tokenizer, device: cpu_device(), hidden_size })
    }

    /// The width of the encoder's hidden states.
    pub closed spec fn width(&self) -> usize {
        self.hidden_size
    }

    /// The width of every embedding that this model gives.
    pub fn hidden_size(&self) -> (r: usize)
        ensures
            r == self.width(),
    {
        self.hidden_size
    }

    /// Tokenizes `text` with the tokenizer's special tokens. The tokenizer
    /// may draw at random, so what it returns is not named; the result is
    /// what `encoding_outcome` makes of whatever it returned.
    pub fn encode(&self, text: &str) -> (r: Result<TokenEncoding, ModelError>)
        ensures
            exists|t: Result<(Vec<u32>, Vec<u32>), String>| encoding_outcome_spec(t, r),
            r matches Ok(enc) ==> enc.wf(),
            r matches Err(e) ==> e is Tokenization,
    {
        let t = tokenize(&self.tokenizer, text);
        let r = encoding_outcome(t);
        assert(encoding_outcome_spec(t, r));
        r
    }

    /// Runs the encoder on one encoding as a batch of one, every token in the
    /// first segment: hidden states of shape (1, tokens, hidden size).
    pub fn forward(&self, enc: &TokenEncoding) -> (r: Result<Tensor, ModelError>)
        ensures
            r matches Err(e) ==> e is Inference,
            r matches Ok(h) ==> tensor_dims(h).len() == 3 && tensor_dims(h)[0] == 1
                && tensor_dims(h)[1] == enc.ids@.len(),
    {
        let ids = inference(tensor_from_u32(&enc.ids, &self.device))?;
        let ids = inference(unsqueeze(&ids, 0))?;
        let mask = inference(tensor_from_u32(&enc.attention_mask, &self.device))?;
        let mask = inference(unsqueeze(&mask, 0))?;
        let token_types = inference(zeros_like(&ids))?;
        let n = enc.ids.len();
        assert(tensor_dims(ids) =~= seq![1usize, n]);
        inference(bert_forward(&self.model, &ids, &token_types, &mask))
    }

    /// The embedding of `text`: tokenization, inference and pooling in turn,
    /// a one-dimensional tensor of the hidden size. Each failure keeps the
    /// kind of the step that gave it.
    pub fn embed_tensor(&self, text: &str) -> (r: Result<Tensor, ModelError>)
        ensures
            r matches Err(e) ==> (e is Tokenization || e is Inference),
            r matches Ok(v) ==> tensor_dims(v).len() == 1,
    {
        let enc = self.encode(text)?;
        let hidden = self.forward(&enc)?;
        mean_pool(&hidden, &enc.attention_mask, &self.device)
    }
}

} // verus!
