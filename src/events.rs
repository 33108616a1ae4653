use vstd::prelude::*;

verus! {

/// A transcript accepted for publication.
pub struct TranscriptionEvent {
    pub text: String,
    /// Seconds since the Unix epoch at which the chunk was picked up.
    pub timestamp: u64,
    pub speaker: String,
}

/// The four fields of one semantic analysis, as published.
pub struct AnalysisEvent {
    pub objections: Vec<String>,
    pub important_points: Vec<String>,
    pub sentiment: String,
    pub suggestions: Vec<String>,
}

/// What the analysis backend returns for one transcript.
pub struct AnalysisResult {
    pub objections: Vec<String>,
    pub important_points: Vec<String>,
    pub sentiment: String,
    pub suggestions: Vec<String>,
}

/// One input device as offered to the user.
pub struct AudioDeviceInfo {
    pub name: String,
    pub is_default: bool,
}

/// An event on the stream that the subscriber consumes.
pub enum PipelineEvent {
    /// A finished chunk file was picked up (its path).
    ChunkDiscovered(String),
    TranscriptionReady(TranscriptionEvent),
    AnalysisReady(AnalysisEvent),
}

impl PipelineEvent {
    /// The name under which the event is published.
    pub fn name(&self) -> (r: &'static str)
        ensures
            self is ChunkDiscovered ==> r@ == "new-chunk"@,
            self is TranscriptionReady ==> r@ == "new-transcription"@,
            self is AnalysisReady ==> r@ == "new-analysis"@,
    {
        match self {
            PipelineEvent::ChunkDiscovered(_) => "new-chunk",
            PipelineEvent::TranscriptionReady(_) => "new-transcription",
            PipelineEvent::AnalysisReady(_) => "new-analysis",
        }
    }
}

/// The published form of an analysis: the same four fields.
pub fn analysis_event(r: AnalysisResult) -> (e: AnalysisEvent)
    ensures
        e.objections@ == r.objections@,
        e.important_points@ == r.important_points@,
        e.sentiment@ == r.sentiment@,
        e.suggestions@ == r.suggestions@,
{
    AnalysisEvent {
        objections: r.objections,
        important_points: r.important_points,
        sentiment: r.sentiment,
        suggestions: r.suggestions,
    }
}

} // verus!
