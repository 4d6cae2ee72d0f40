use voice_bridge::chunk::{chunk_turn, TextChunk, SEPARATOR_THRESHOLD};

fn concat(deltas: &[Vec<u8>]) -> Vec<u8> {
    let mut all = Vec::new();
    for d in deltas {
        all.extend_from_slice(d);
    }
    all
}

#[test]
fn thirty_words_flush_once_then_terminator() {
    // Exactly 30 space-separated words, one trailing space each, no
    // other spaces: one flushed chunk equal to the full concatenation,
    // followed by the terminator.
    let mut deltas: Vec<Vec<u8>> = Vec::new();
    deltas.push(b"Hello ".to_vec());
    deltas.push(b"world ".to_vec());
    for i in 2..30 {
        deltas.push(format!("word{} ", i).into_bytes());
    }
    assert_eq!(deltas.len(), 30);
    let payloads = chunk_turn(&deltas);
    assert_eq!(payloads.len(), 2);
    assert_eq!(payloads[0], concat(&deltas));
    assert_eq!(payloads[1], Vec::<u8>::new());
}

#[test]
fn twenty_nine_separators_never_flush() {
    let mut chunk = TextChunk::new();
    let mut text = Vec::new();
    for _ in 0..29 {
        text.extend_from_slice(b"a ");
    }
    assert_eq!(chunk.push_delta(&text), None);
    assert_eq!(chunk.len(), text.len());
}

#[test]
fn thirtieth_separator_flushes_at_that_delta() {
    let mut chunk = TextChunk::new();
    let mut text = Vec::new();
    for _ in 0..29 {
        text.extend_from_slice(b"a ");
    }
    assert_eq!(chunk.push_delta(&text), None);
    let flushed = chunk.push_delta(b"b ");
    let mut expected = text.clone();
    expected.extend_from_slice(b"b ");
    assert_eq!(flushed, Some(expected));
    assert_eq!(chunk.len(), 0);
}

#[test]
fn one_delta_far_past_threshold_flushes_whole() {
    let mut chunk = TextChunk::new();
    let mut text = Vec::new();
    for _ in 0..35 {
        text.extend_from_slice(b"x ");
    }
    assert_eq!(chunk.push_delta(&text), Some(text.clone()));
}

#[test]
fn empty_stream_yields_only_terminator() {
    let payloads = chunk_turn(&Vec::new());
    assert_eq!(payloads.len(), 1);
    assert_eq!(payloads[0], Vec::<u8>::new());
}

#[test]
fn concatenation_preserved_without_flush() {
    // A short stream never reaches the threshold: the remainder is
    // flushed at stream end, then the terminator follows.
    let deltas = vec![b"Hi ".to_vec(), b"there".to_vec()];
    let payloads = chunk_turn(&deltas);
    assert_eq!(payloads.len(), 2);
    assert_eq!(payloads[0], b"Hi there".to_vec());
    assert_eq!(payloads[1], Vec::<u8>::new());
}

#[test]
fn concatenation_preserved_across_many_flushes() {
    // 100 words: three threshold flushes plus a remainder, and the
    // payloads concatenate back to the input, terminator last.
    let mut deltas: Vec<Vec<u8>> = Vec::new();
    for i in 0..100 {
        deltas.push(format!("w{} ", i).into_bytes());
    }
    let payloads = chunk_turn(&deltas);
    assert!(payloads.len() >= 2);
    assert_eq!(payloads[payloads.len() - 1], Vec::<u8>::new());
    for p in &payloads[..payloads.len() - 1] {
        assert!(!p.is_empty());
    }
    assert_eq!(concat(&payloads), concat(&deltas));
}

#[test]
fn threshold_is_thirty() {
    assert_eq!(SEPARATOR_THRESHOLD, 30);
}
