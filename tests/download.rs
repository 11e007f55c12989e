use dfn_gui::download::{progress_percent, ChunkEvent, DownloadMessage, DownloadSession};

fn progress_of(m: Option<DownloadMessage>) -> u128 {
    match m {
        Some(DownloadMessage::Progress(p)) => p,
        other => panic!("expected progress, got {:?}", other),
    }
}

#[test]
fn known_length_progress_rises_to_exactly_100() {
    let (mut s, first) = DownloadSession::start("/d/deep-filter".to_string(), Some(10));
    assert!(matches!(first, DownloadMessage::Progress(0)));
    let mut seen = Vec::new();
    for n in [3usize, 3, 4] {
        seen.push(progress_of(s.step(ChunkEvent::Data(vec![7u8; n]))));
    }
    assert_eq!(seen, vec![30, 60, 100]);
    match s.step(ChunkEvent::End) {
        Some(DownloadMessage::Finished(Ok(p))) => assert_eq!(p, "/d/deep-filter"),
        other => panic!("unexpected {:?}", other),
    }
    assert!(s.is_finished());
}

#[test]
fn uneven_chunks_never_go_down() {
    let (mut s, _) = DownloadSession::start("f".to_string(), Some(7));
    let mut last = 0;
    let mut values = Vec::new();
    for n in [1usize, 0, 2, 1, 3] {
        let p = progress_of(s.step(ChunkEvent::Data(vec![1u8; n])));
        assert!(p >= last);
        last = p;
        values.push(p);
    }
    assert_eq!(values, vec![14, 14, 42, 57, 100]);
}

#[test]
fn unknown_length_reports_zero_until_finished() {
    let (mut s, first) = DownloadSession::start("/d/deep-filter".to_string(), None);
    assert!(matches!(first, DownloadMessage::Progress(0)));
    for n in [5usize, 1000, 1] {
        assert_eq!(progress_of(s.step(ChunkEvent::Data(vec![0u8; n]))), 0);
    }
    assert!(matches!(s.step(ChunkEvent::End), Some(DownloadMessage::Finished(Ok(_)))));
    assert!(s.step(ChunkEvent::End).is_none());
}

#[test]
fn failure_mid_stream_is_terminal() {
    let (mut s, _) = DownloadSession::start("f".to_string(), Some(100));
    assert_eq!(progress_of(s.step(ChunkEvent::Data(vec![1u8; 40]))), 40);
    match s.step(ChunkEvent::Failed("connection reset".to_string())) {
        Some(DownloadMessage::Finished(Err(e))) => assert_eq!(e, "connection reset"),
        other => panic!("unexpected {:?}", other),
    }
    assert!(s.is_finished());
    assert!(s.step(ChunkEvent::Data(vec![1u8; 60])).is_none());
    assert!(s.step(ChunkEvent::End).is_none());
}

#[test]
fn percent_formula() {
    assert_eq!(progress_percent(0, 0), 0);
    assert_eq!(progress_percent(5, 0), 0);
    assert_eq!(progress_percent(1, 3), 33);
    assert_eq!(progress_percent(2, 3), 66);
    assert_eq!(progress_percent(3, 3), 100);
    assert_eq!(progress_percent(u64::MAX, u64::MAX), 100);
    assert_eq!(progress_percent(u64::MAX, 1), (u64::MAX as u128) * 100);
}

#[test]
fn declared_zero_length_behaves_as_unknown() {
    let (mut s, _) = DownloadSession::start("f".to_string(), Some(0));
    assert_eq!(progress_of(s.step(ChunkEvent::Data(vec![1u8; 3]))), 0);
}
