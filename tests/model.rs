use sentence_transformer::model::{encoding_from, encoding_outcome, BertModelWrapper, ModelError};
use sentence_transformer::service::embed_many;

const HIDDEN: usize = 4;

fn config_json() -> Vec<u8> {
    br#"{
        "vocab_size": 4,
        "hidden_size": 4,
        "num_hidden_layers": 0,
        "num_attention_heads": 1,
        "intermediate_size": 8,
        "hidden_act": "gelu",
        "hidden_dropout_prob": 0.0,
        "max_position_embeddings": 8,
        "type_vocab_size": 2,
        "initializer_range": 0.02,
        "layer_norm_eps": 1e-12,
        "pad_token_id": 0
    }"#
    .to_vec()
}

fn tokenizer_json() -> Vec<u8> {
    br#"{
        "version": "1.0",
        "truncation": null,
        "padding": null,
        "added_tokens": [],
        "normalizer": null,
        "pre_tokenizer": {"type": "Whitespace"},
        "post_processor": null,
        "decoder": null,
        "model": {
            "type": "WordLevel",
            "vocab": {"[UNK]": 0, "hello": 1, "world": 2, "again": 3},
            "unk_token": "[UNK]"
        }
    }"#
    .to_vec()
}

fn safetensors(tensors: &[(&str, Vec<usize>, Vec<f32>)]) -> Vec<u8> {
    let mut header = String::from("{");
    let mut data: Vec<u8> = Vec::new();
    for (i, (name, shape, values)) in tensors.iter().enumerate() {
        let start = data.len();
        for v in values {
            data.extend_from_slice(&v.to_le_bytes());
        }
        let dims: Vec<String> = shape.iter().map(|d| d.to_string()).collect();
        if i > 0 {
            header.push(',');
        }
        header.push_str(&format!(
            "\"{}\":{{\"dtype\":\"F32\",\"shape\":[{}],\"data_offsets\":[{},{}]}}",
            name,
            dims.join(","),
            start,
            data.len()
        ));
    }
    header.push('}');
    while header.len() % 8 != 0 {
        header.push(' ');
    }
    let mut out = (header.len() as u64).to_le_bytes().to_vec();
    out.extend_from_slice(header.as_bytes());
    out.extend_from_slice(&data);
    out
}

fn ramp(n: usize, scale: f32) -> Vec<f32> {
    (0..n).map(|i| (((i * 37 + 11) % 17) as f32) * scale - 0.5).collect()
}

fn weights() -> Vec<u8> {
    safetensors(&[
        ("embeddings.word_embeddings.weight", vec![4, HIDDEN], ramp(16, 0.25)),
        ("embeddings.position_embeddings.weight", vec![8, HIDDEN], ramp(32, 0.05)),
        ("embeddings.token_type_embeddings.weight", vec![2, HIDDEN], ramp(8, 0.1)),
        ("embeddings.LayerNorm.weight", vec![HIDDEN], vec![1.0; HIDDEN]),
        ("embeddings.LayerNorm.bias", vec![HIDDEN], vec![0.0; HIDDEN]),
    ])
}

fn fixture() -> BertModelWrapper {
    BertModelWrapper::load(&config_json(), &tokenizer_json(), &weights()).unwrap()
}

fn embed(model: &BertModelWrapper, text: &str) -> Result<Vec<f32>, ModelError> {
    let t = model.embed_tensor(text)?;
    Ok(t.to_vec1::<f32>().unwrap())
}

#[test]
fn end_to_end_lengths_follow_inputs() {
    let model = fixture();
    let texts = vec![Some("hello".to_string()), None, Some("world".to_string())];
    let out = embed_many(&texts, |s: &str| embed(&model, s)).unwrap();
    assert_eq!(out.len(), 3);
    assert_eq!(out[0].len(), HIDDEN);
    assert_eq!(out[1].len(), 0);
    assert_eq!(out[2].len(), HIDDEN);
    assert!(out[0].iter().chain(out[2].iter()).all(|x| x.is_finite()));
    assert_ne!(out[0], out[2]);
}

#[test]
fn embedding_twice_is_identical() {
    let model = fixture();
    let a = embed(&model, "hello world").unwrap();
    let b = embed(&model, "hello world").unwrap();
    assert_eq!(a, b);
}

#[test]
fn handle_is_reused_across_calls() {
    let model = fixture();
    for text in ["hello", "world", "again", "hello again"] {
        assert_eq!(embed(&model, text).unwrap().len(), HIDDEN);
    }
}

#[test]
fn encoding_has_parallel_ids_and_mask() {
    let model = fixture();
    let enc = model.encode("hello world").unwrap();
    assert_eq!(enc.ids, vec![1, 2]);
    assert_eq!(enc.attention_mask, vec![1, 1]);
}

#[test]
fn forward_gives_one_state_per_token() {
    let model = fixture();
    let enc = model.encode("hello world again").unwrap();
    let hidden = model.forward(&enc).unwrap();
    assert_eq!(hidden.dims3().unwrap(), (1, 3, HIDDEN));
}

#[test]
fn malformed_config_is_config_error() {
    let r = BertModelWrapper::load(b"{not json", &tokenizer_json(), &weights());
    assert!(matches!(r, Err(ModelError::ConfigParse { .. })));
}

#[test]
fn malformed_tokenizer_is_tokenizer_error() {
    let r = BertModelWrapper::load(&config_json(), b"[]", &weights());
    assert!(matches!(r, Err(ModelError::TokenizerLoad { .. })));
}

#[test]
fn malformed_weights_is_weights_error() {
    let r = BertModelWrapper::load(&config_json(), &tokenizer_json(), b"xx");
    assert!(matches!(r, Err(ModelError::WeightsLoad { .. })));
}

#[test]
fn missing_tensor_is_build_error() {
    let empty = safetensors(&[]);
    let r = BertModelWrapper::load(&config_json(), &tokenizer_json(), &empty);
    assert!(matches!(r, Err(ModelError::ModelBuild { .. })));
}

#[test]
fn layers_without_heads_is_build_error() {
    let config = String::from_utf8(config_json())
        .unwrap()
        .replace("\"num_hidden_layers\": 0", "\"num_hidden_layers\": 1")
        .replace("\"num_attention_heads\": 1", "\"num_attention_heads\": 0");
    let r = BertModelWrapper::load(config.as_bytes(), &tokenizer_json(), &weights());
    assert!(matches!(r, Err(ModelError::ModelBuild { .. })));
}

#[test]
fn loaded_model_reports_hidden_size() {
    assert_eq!(fixture().hidden_size(), HIDDEN);
}

#[test]
fn encoding_needs_equal_lengths() {
    let e = encoding_from(vec![5, 6], vec![1, 0]).unwrap();
    assert_eq!(e.ids, vec![5, 6]);
    assert_eq!(e.attention_mask, vec![1, 0]);
    assert!(matches!(encoding_from(vec![5, 6], vec![1]), Err(ModelError::Tokenization { .. })));
}

#[test]
fn tokenizer_failure_is_tokenization_error() {
    let r = encoding_outcome(Err("bad input".to_string()));
    assert_eq!(r.err(), Some(ModelError::Tokenization { message: "bad input".to_string() }));
    let ok = encoding_outcome(Ok((vec![1], vec![1]))).unwrap();
    assert_eq!(ok.ids, vec![1]);
}

#[test]
fn embedding_tensor_is_one_dimensional_of_hidden_size() {
    let model = fixture();
    let t = model.embed_tensor("").unwrap();
    assert_eq!(t.dims(), &[HIDDEN]);
}
