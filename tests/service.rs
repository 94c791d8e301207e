use sentence_transformer::service::embed_many;
use std::cell::Cell;

#[test]
fn absent_entries_give_empty_vectors_without_a_call() {
    let calls = Cell::new(0u32);
    let texts = vec![Some("hello".to_string()), None, Some("world".to_string())];
    let out = embed_many(&texts, |s: &str| -> Result<Vec<f64>, String> {
        calls.set(calls.get() + 1);
        Ok(vec![s.len() as f64; 4])
    })
    .unwrap();
    assert_eq!(out.len(), 3);
    assert_eq!(out[0].len(), 4);
    assert_eq!(out[1].len(), 0);
    assert_eq!(out[2].len(), 4);
    assert_eq!(calls.get(), 2);
}

#[test]
fn order_of_outputs_follows_inputs() {
    let texts = vec![Some("a".to_string()), Some("bbb".to_string()), None];
    let out = embed_many(&texts, |s: &str| -> Result<Vec<usize>, String> { Ok(vec![s.len()]) })
        .unwrap();
    assert_eq!(out, vec![vec![1], vec![3], vec![]]);
}

#[test]
fn first_failure_stops_the_batch() {
    let calls = Cell::new(0u32);
    let texts = vec![Some("ok".to_string()), Some("bad".to_string()), Some("later".to_string())];
    let r = embed_many(&texts, |s: &str| -> Result<Vec<u8>, String> {
        calls.set(calls.get() + 1);
        if s == "bad" { Err(format!("rejected {s}")) } else { Ok(vec![1]) }
    });
    assert_eq!(r, Err("rejected bad".to_string()));
    assert_eq!(calls.get(), 2);
}

#[test]
fn empty_input_gives_empty_output() {
    let texts: Vec<Option<String>> = vec![];
    let out = embed_many(&texts, |_s: &str| -> Result<Vec<u8>, String> { Ok(vec![1]) }).unwrap();
    assert!(out.is_empty());
}
