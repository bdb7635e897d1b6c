use ndclient::{HttpTTSSer, TTSError};

#[test]
fn empty_text_list() {
    let service = HttpTTSSer::new("".to_owned());
    let tts_file = service.request_texts(&vec!["".to_owned()]);

    assert!(tts_file.is_err());
}

#[test]
fn blank_only_list_is_empty_text() {
    let service = HttpTTSSer::new("http://localhost/tts".to_owned());
    assert!(matches!(service.request_texts(&vec![]), Err(TTSError::EmptyText)));
    assert!(matches!(
        service.request_texts(&vec!["".to_owned(), "".to_owned()]),
        Err(TTSError::EmptyText)
    ));
}

#[test]
fn blank_sentences_are_dropped_in_order() {
    let service = HttpTTSSer::new("http://localhost/tts".to_owned());
    let texts = service
        .request_texts(&vec!["a".to_owned(), "".to_owned(), "b".to_owned(), "".to_owned()])
        .unwrap();
    assert_eq!(texts, vec!["a".to_owned(), "b".to_owned()]);
}

#[test]
fn new_service_defaults() {
    let service = HttpTTSSer::new("http://x/tts".to_owned());
    assert_eq!(service.url, "http://x/tts");
    assert_eq!(service.temp_dir, "./temp");
    let p = service.new_clip_path();
    assert!(p.starts_with("./temp/"));
    assert!(p.ends_with(".wav"));
    assert_eq!(p.len(), "./temp/".len() + 10 + ".wav".len());
}

#[test]
fn clip_from_returned_audio() {
    let bytes = ndclient::encode_wav(
        ndclient::WavFormat { sample_rate: 100, channels: 1, bits_per_sample: 16 },
        &vec![0; 150],
    )
    .unwrap();
    let clip = HttpTTSSer::clip_from_wav("c.wav".to_owned(), &bytes).unwrap();
    assert_eq!(clip.path, "c.wav");
    assert_eq!(clip.text, "");
    assert_eq!(clip.duration_ns, 1_500_000_000);
    let bad = HttpTTSSer::clip_from_wav("c.wav".to_owned(), &vec![1, 2, 3]);
    assert!(matches!(bad, Err(TTSError::HandleFailed(_))));
    assert_eq!(TTSError::EmptyText.message(), "text list is empty");
}
