use vstd::prelude::*;
use crate::events::{analysis_event, AnalysisEvent, AnalysisResult, PipelineEvent};
use crate::text::{remove_all, remove_all_text, trim, trim_text};

verus! {

/// The opening fence of a JSON code block.
pub open spec fn json_fence() -> Seq<char> {
    seq!['`', '`', '`', 'j', 's', 'o', 'n']
}

/// A bare code fence.
pub open spec fn fence() -> Seq<char> {
    seq!['`', '`', '`']
}

/// The analysis reply with surrounding white space and every code fence
/// taken out, ready to be decoded as JSON.
pub open spec fn cleaned_content(c: Seq<char>) -> Seq<char> {
    trim(remove_all(remove_all(trim(c), json_fence()), fence()))
}

/// Strips a model reply down to the JSON it carries: trims it, removes every
/// "```json" and then every "```", and trims again.
pub fn clean_analysis_content(content: &str) -> (r: String)
    ensures
        r@ == cleaned_content(content@),
{
    let jf = "```json";
    let f = "```";
    proof {
        reveal_strlit("```json");
        reveal_strlit("```");
        assert(jf@ =~= json_fence());
        assert(f@ =~= fence());
    }
    let a = trim_text(content);
    let b = remove_all_text(a, jf);
    let c = remove_all_text(b.as_str(), f);
    let d = trim_text(c.as_str());
    String::from_str(d)
}

/// `ev` publishes the four fields of `a`.
pub open spec fn is_analysis_of(ev: PipelineEvent, a: AnalysisResult) -> bool {
    match ev {
        PipelineEvent::AnalysisReady(e) => {
            &&& e.objections@ == a.objections@
            &&& e.important_points@ == a.important_points@
            &&& e.sentiment@ == a.sentiment@
            &&& e.suggestions@ == a.suggestions@
        },
        _ => false,
    }
}

/// The instruction sent ahead of a transcript.
pub open spec fn prompt_prefix() -> Seq<char> {
    "Analise esta transcricao e retorne JSON com objections, important_points, sentiment e suggestions. Transcricao: "@
}

/// The request text for analysing `text`.
pub fn analysis_prompt(text: &str) -> (r: String)
    ensures
        r@ == prompt_prefix() + text@,
{
    let mut s = String::from_str(
        "Analise esta transcricao e retorne JSON com objections, important_points, sentiment e suggestions. Transcricao: ",
    );
    s.append(text);
    s
}

/// How a reply of the analysis backend is read: a failed status is an
/// error, a reply without content is an error, and otherwise its content is
/// cleaned for decoding.
pub fn analysis_reply_content(status_ok: bool, content: Option<String>) -> (r: Result<String, String>)
    ensures
        !status_ok ==> r is Err && r->Err_0@ == "Erro na API"@,
        status_ok && content is None ==> r is Err && r->Err_0@ == "Erro"@,
        status_ok && content is Some ==> r is Ok && r->Ok_0@ == cleaned_content(content->Some_0@),
{
    if !status_ok {
        return Err(String::from_str("Erro na API"));
    }
    match content {
        Some(c) => Ok(clean_analysis_content(c.as_str())),
        None => Err(String::from_str("Erro")),
    }
}

/// The event that one finished analysis task publishes: an analysis on
/// success, nothing on failure. The outcome of one task decides its own
/// event alone; a failure touches no state of the pipeline.
pub fn analysis_outcome_event(outcome: Result<AnalysisResult, String>) -> (r: Option<PipelineEvent>)
    ensures
        outcome is Err <==> r is None,
        outcome is Ok ==> r is Some && is_analysis_of(r->Some_0, outcome->Ok_0),
{
    match outcome {
        Ok(a) => Some(PipelineEvent::AnalysisReady(analysis_event(a))),
        Err(_) => None,
    }
}

} // verus!
