use assistente_call::capture::{chunk_file_name, samples_per_chunk, AudioRecorder, ChunkWriterState, FrameAction, CHUNK_SECONDS};
use assistente_call::devices::{device_infos, find_device};
use assistente_call::discovery::{is_chunk_path, ChunkEntry, RealtimeSession};
use assistente_call::events::PipelineEvent;
use assistente_call::transcript::{accept_transcript, dispatch_events, transcription_event, GroqWhisperService, TranscriptionResult};

fn entry(path: &str, created: Option<u64>) -> ChunkEntry {
    ChunkEntry { path: path.to_string(), created_ms: created }
}

fn outcome(success: bool, text: Option<&str>) -> Result<TranscriptionResult, String> {
    Ok(TranscriptionResult {
        success,
        full_text: text.map(|t| t.to_string()),
        error: None,
        language: Some("pt".to_string()),
        duration_ms: Some(5000),
    })
}

#[test]
fn chunk_names() {
    assert_eq!(chunk_file_name(1700000000123), "chunk_1700000000123.wav");
    assert_eq!(chunk_file_name(0), "chunk_0.wav");
    assert_eq!(chunk_file_name(u64::MAX), format!("chunk_{}.wav", u64::MAX));
}

#[test]
fn threshold_is_rate_times_channels_times_seconds() {
    assert_eq!(samples_per_chunk(48000, 2, CHUNK_SECONDS), Some(480000));
    assert_eq!(samples_per_chunk(44100, 1, 5), Some(220500));
    assert_eq!(samples_per_chunk(u32::MAX, u16::MAX, u64::MAX), None);
    assert_eq!(samples_per_chunk(0, 2, 5), Some(0));
}

/// Feeds `frames` frames of `len` samples; returns the samples written to each chunk.
fn run_frames(st: &mut ChunkWriterState, frames: usize, len: u64) -> Vec<u64> {
    let mut chunks: Vec<u64> = Vec::new();
    for _ in 0..frames {
        let action = st.plan_frame();
        let opened = matches!(action, FrameAction::Open | FrameAction::Rotate);
        if opened {
            chunks.push(0);
        }
        if st.finish_frame(action, opened, len) {
            *chunks.last_mut().unwrap() += len;
        }
    }
    chunks
}

#[test]
fn twelve_and_a_half_seconds_make_three_chunks() {
    // 100 samples per second, one channel, 5 s chunks; frames of 0.5 s.
    let threshold = samples_per_chunk(100, 1, 5).unwrap();
    let mut st = ChunkWriterState::new(threshold);
    st.start();
    let chunks = run_frames(&mut st, 25, 50);
    assert_eq!(chunks, vec![500, 500, 250]);
    assert!(st.stop());
    assert!(!st.has_sink);
    assert!(!st.recording);
    assert_eq!(st.plan_frame(), FrameAction::Drop);
    assert!(!st.stop());
}

#[test]
fn frames_are_dropped_when_not_recording() {
    let mut st = ChunkWriterState::new(10);
    assert_eq!(st.plan_frame(), FrameAction::Drop);
    assert!(!st.finish_frame(FrameAction::Drop, false, 4));
    assert_eq!(st.samples, 0);
    assert!(!st.has_sink);
}

#[test]
fn failed_open_drops_frame_and_retries() {
    let mut st = ChunkWriterState::new(10);
    st.start();
    assert_eq!(st.plan_frame(), FrameAction::Open);
    assert!(!st.finish_frame(FrameAction::Open, false, 4));
    assert!(!st.has_sink);
    assert_eq!(st.plan_frame(), FrameAction::Open);
    assert!(st.finish_frame(FrameAction::Open, true, 4));
    assert_eq!(st.samples, 4);
    assert_eq!(st.plan_frame(), FrameAction::Write);
    assert!(st.finish_frame(FrameAction::Write, false, 6));
    assert_eq!(st.samples, 10);
    assert_eq!(st.plan_frame(), FrameAction::Rotate);
}

#[test]
fn wav_paths() {
    assert!(is_chunk_path("/tmp/a/chunk_1.wav"));
    assert!(is_chunk_path("x.wav"));
    assert!(!is_chunk_path("/tmp/a/.wav"));
    assert!(!is_chunk_path(".wav"));
    assert!(!is_chunk_path("/tmp/a/chunk_1.mp3"));
    assert!(!is_chunk_path("/tmp/a/chunk_1.wave"));
}

#[test]
fn nothing_before_start_is_discovered() {
    let mut s = RealtimeSession::new(1000);
    let listing = vec![entry("/d/chunk_900.wav", Some(900)), entry("/d/chunk_999.wav", Some(999)), entry("/d/chunk_x.wav", None)];
    assert!(s.poll(&listing).is_empty());
    assert_eq!(s.processed_count(), 0);
}

#[test]
fn discovery_sorts_dedups_and_filters() {
    let mut s = RealtimeSession::new(1000);
    assert!(s.is_active());
    assert_eq!(s.start_ms(), 1000);
    let listing = vec![
        entry("/d/chunk_2000.wav", Some(2000)),
        entry("/d/notes.txt", Some(1500)),
        entry("/d/chunk_1000.wav", Some(1000)),
        entry("/d/chunk_2000.wav", Some(2000)),
        entry("/d/old.wav", Some(10)),
        entry("/d/chunk_1500.wav", Some(1500)),
    ];
    let out = s.poll(&listing);
    let paths: Vec<&str> = out.iter().map(|e| e.path.as_str()).collect();
    assert_eq!(paths, vec!["/d/chunk_1000.wav", "/d/chunk_1500.wav", "/d/chunk_2000.wav"]);
    assert_eq!(s.processed_count(), 3);
    assert!(s.was_processed(&"/d/chunk_1500.wav".to_string()));
    assert!(!s.was_processed(&"/d/old.wav".to_string()));
    assert!(s.poll(&listing).is_empty());
    s.stop();
    assert!(!s.is_active());
}

#[test]
fn each_chunk_observed_once_in_creation_order() {
    let mut s = RealtimeSession::new(0);
    let mut seen: Vec<String> = Vec::new();
    let mut listing: Vec<ChunkEntry> = Vec::new();
    // Chunks finalized one after another, listed newest first on each poll.
    for t in [5000u64, 10000, 12500] {
        listing.insert(0, entry(&format!("/d/chunk_{}.wav", t), Some(t)));
        for _ in 0..3 {
            for e in s.poll(&listing) {
                seen.push(e.path);
            }
        }
    }
    assert_eq!(seen, vec!["/d/chunk_5000.wav", "/d/chunk_10000.wav", "/d/chunk_12500.wav"]);
}

#[test]
fn empty_transcript_is_skipped_and_hello_published() {
    let a = dispatch_events("/d/a.wav".to_string(), &outcome(true, Some("")), 7);
    let b = dispatch_events("/d/b.wav".to_string(), &outcome(true, Some("hello")), 8);
    let transcripts: Vec<String> = a.0.iter().chain(b.0.iter()).filter_map(|e| match e {
        PipelineEvent::TranscriptionReady(t) => Some(t.text.clone()),
        _ => None,
    }).collect();
    assert_eq!(transcripts, vec!["hello".to_string()]);
    assert_eq!(a.0.len(), 1);
    assert!(a.1.is_none());
    assert_eq!(b.1, Some("hello".to_string()));
    match &b.0[0] {
        PipelineEvent::ChunkDiscovered(p) => assert_eq!(p, "/d/b.wav"),
        _ => panic!("chunk event first"),
    }
    match &b.0[1] {
        PipelineEvent::TranscriptionReady(t) => {
            assert_eq!(t.timestamp, 8);
            assert_eq!(t.speaker, "user");
        }
        _ => panic!("transcription second"),
    }
    assert_eq!(b.0[0].name(), "new-chunk");
    assert_eq!(b.0[1].name(), "new-transcription");
}

#[test]
fn accept_policy() {
    assert_eq!(accept_transcript(&outcome(true, Some(" oi "))), Some(" oi ".to_string()));
    assert_eq!(accept_transcript(&outcome(true, Some(" \n\t"))), None);
    assert_eq!(accept_transcript(&outcome(true, None)), None);
    assert_eq!(accept_transcript(&outcome(false, Some("oi"))), None);
    assert_eq!(accept_transcript(&Err("Groq não inicializado".to_string())), None);
}

#[test]
fn transcription_event_fields() {
    let e = transcription_event("hi".to_string(), 42);
    assert_eq!(e.text, "hi");
    assert_eq!(e.timestamp, 42);
    assert_eq!(e.speaker, "user");
}

#[test]
fn devices_marked_and_found() {
    let names = vec!["Mic A".to_string(), "Mic B".to_string(), "Mic B".to_string()];
    let infos = device_infos(names.clone(), &Some("Mic B".to_string()));
    assert_eq!(infos.len(), 3);
    assert_eq!(infos[0].name, "Mic A");
    assert!(!infos[0].is_default);
    assert!(infos[1].is_default && infos[2].is_default);
    assert!(device_infos(names.clone(), &None).iter().all(|d| !d.is_default));
    assert_eq!(find_device(&names, "Mic B"), Some(1));
    assert_eq!(find_device(&names, "Mic C"), None);
}

#[test]
fn services_keep_their_settings() {
    let g = GroqWhisperService::new("SECRET-REDACTED".to_string());
    assert_eq!(g.api_key(), "SECRET-REDACTED");
    let r = AudioRecorder::new("/tmp/assistente-call".to_string());
    assert_eq!(r.get_base_dir(), "/tmp/assistente-call");
}

#[test]
fn chunk_stamps_never_go_back() {
    let mut st = ChunkWriterState::new(10);
    assert_eq!(st.next_stamp(5000), 5000);
    assert_eq!(st.next_stamp(4000), 5000);
    assert_eq!(st.next_stamp(6000), 6000);
    assert_eq!(st.last_stamp_ms, 6000);
}
