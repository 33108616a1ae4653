use vstd::prelude::*;
use crate::events::{PipelineEvent, TranscriptionEvent};
use crate::text::{all_ws, is_blank};

verus! {

/// What the transcription backend reports for one chunk.
pub struct TranscriptionResult {
    pub success: bool,
    pub full_text: Option<String>,
    pub error: Option<String>,
    pub language: Option<String>,
    /// Length of the audio in milliseconds, when reported.
    pub duration_ms: Option<u64>,
}

/// Client settings of the hosted transcription service.
pub struct GroqWhisperService {
    api_key: String,
}

impl GroqWhisperService {
    pub closed spec fn key(&self) -> Seq<char> {
        self.api_key@
    }

    pub fn new(api_key: String) -> (r: Self)
        ensures
            r.key() == api_key@,
    {
        GroqWhisperService { api_key }
    }

    /// The credential that requests are sent with.
    pub fn api_key(&self) -> (r: &str)
        ensures
            r@ == self.key(),
    {
        self.api_key.as_str()
    }
}

/// The text to publish for a transcription attempt: present exactly when the
/// attempt succeeded with a text that is not blank.
pub open spec fn accepted_text(o: Result<TranscriptionResult, String>) -> Option<Seq<char>> {
    match o {
        Ok(t) => if t.success && t.full_text is Some && !all_ws(t.full_text->Some_0@) {
            Some(t.full_text->Some_0@)
        } else {
            None
        },
        Err(_) => None,
    }
}

/// A successful attempt whose text is empty or only white space publishes no
/// transcript: dispatching it yields the chunk event alone.
pub proof fn lemma_blank_transcript_not_published(o: Result<TranscriptionResult, String>)
    requires
        o is Ok,
        o->Ok_0.full_text is Some,
        all_ws(o->Ok_0.full_text->Some_0@),
    ensures
        accepted_text(o) is None,
{
}

/// The accept policy of the dispatcher: a failed attempt, a success without
/// text, and a blank text are all skipped.
pub fn accept_transcript(outcome: &Result<TranscriptionResult, String>) -> (r: Option<String>)
    ensures
        r is Some <==> accepted_text(*outcome) is Some,
        r is Some ==> r->Some_0@ == accepted_text(*outcome)->Some_0,
{
    match outcome {
        Ok(t) => {
            if t.success {
                match &t.full_text {
                    Some(text) => {
                        if is_blank(text.as_str()) {
                            None
                        } else {
                            Some(text.clone())
                        }
                    },
                    None => None,
                }
            } else {
                None
            }
        },
        Err(_) => None,
    }
}

/// The published record of an accepted transcript.
pub fn transcription_event(text: String, timestamp: u64) -> (e: TranscriptionEvent)
    ensures
        e.text@ == text@,
        e.timestamp == timestamp,
        e.speaker@ == "user"@,
{
    TranscriptionEvent { text, timestamp, speaker: String::from_str("user") }
}

/// `ev` announces the chunk at `path`.
pub open spec fn is_chunk_event(ev: PipelineEvent, path: Seq<char>) -> bool {
    match ev {
        PipelineEvent::ChunkDiscovered(p) => p@ == path,
        _ => false,
    }
}

/// `ev` publishes `text`, picked up at `timestamp`, as said by the user.
pub open spec fn is_transcription_of(ev: PipelineEvent, text: Seq<char>, timestamp: u64) -> bool {
    match ev {
        PipelineEvent::TranscriptionReady(e) => {
            &&& e.text@ == text
            &&& e.timestamp == timestamp
            &&& e.speaker@ == "user"@
        },
        _ => false,
    }
}

/// The events that dispatching one chunk publishes, in order: the chunk
/// itself, then its transcript when the attempt is accepted. A blank or
/// failed transcript adds nothing.
pub fn dispatch_events(path: String, outcome: &Result<TranscriptionResult, String>, timestamp: u64) -> (r: (Vec<PipelineEvent>, Option<String>))
    ensures
        r.0@.len() == if accepted_text(*outcome) is Some { 2int } else { 1int },
        is_chunk_event(r.0@[0], path@),
        accepted_text(*outcome) is Some ==> is_transcription_of(
            r.0@[1],
            accepted_text(*outcome)->Some_0,
            timestamp,
        ),
        r.1 is Some <==> accepted_text(*outcome) is Some,
        r.1 is Some ==> r.1->Some_0@ == accepted_text(*outcome)->Some_0,
{
    let mut events: Vec<PipelineEvent> = Vec::new();
    events.push(PipelineEvent::ChunkDiscovered(path));
    let accepted = accept_transcript(outcome);
    match accepted {
        Some(text) => {
            let for_analysis = text.clone();
            events.push(PipelineEvent::TranscriptionReady(transcription_event(text, timestamp)));
            (events, Some(for_analysis))
        },
        None => (events, None),
    }
}

} // verus!
