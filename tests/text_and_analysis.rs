use assistente_call::analysis::{analysis_outcome_event, analysis_prompt, analysis_reply_content, clean_analysis_content};
use assistente_call::events::{AnalysisResult, PipelineEvent};
use assistente_call::text::{is_blank, is_whitespace_char, remove_all_text, trim_text};

fn sample_analysis(tag: &str) -> AnalysisResult {
    AnalysisResult {
        objections: vec![format!("price {}", tag)],
        important_points: vec!["demo".to_string(), "cfo".to_string()],
        sentiment: "neutral".to_string(),
        suggestions: vec![],
    }
}

#[test]
fn blank_texts_are_recognised() {
    assert!(is_blank(""));
    assert!(is_blank("   \t\n\r"));
    assert!(is_blank("\u{a0}\u{3000}"));
    assert!(!is_blank(" hello "));
    assert!(!is_blank("."));
}

#[test]
fn whitespace_chars_match_std() {
    for c in ['\t', '\n', ' ', '\u{85}', '\u{2028}', 'a', '0', '_', '\u{200b}'] {
        assert_eq!(is_whitespace_char(c), c.is_whitespace());
    }
}

#[test]
fn trim_removes_both_ends() {
    assert_eq!(trim_text("  hi there \n"), "hi there");
    assert_eq!(trim_text("   "), "");
    assert_eq!(trim_text("x"), "x");
}

#[test]
fn remove_all_goes_left_to_right() {
    assert_eq!(remove_all_text("a```b```c", "```"), "abc");
    assert_eq!(remove_all_text("````", "```"), "`");
    assert_eq!(remove_all_text("abc", "```"), "abc");
    assert_eq!(remove_all_text("", "```"), "");
}

#[test]
fn clean_content_strips_fences() {
    let raw = "  ```json\n{\"sentiment\": \"neutral\"}\n```  ";
    assert_eq!(clean_analysis_content(raw), "{\"sentiment\": \"neutral\"}");
    assert_eq!(clean_analysis_content("{\"a\":1}"), "{\"a\":1}");
    assert_eq!(clean_analysis_content("```\n[]\n```"), "[]");
}

#[test]
fn prompt_carries_the_transcript() {
    assert_eq!(
        analysis_prompt("ola"),
        "Analise esta transcricao e retorne JSON com objections, important_points, sentiment e suggestions. Transcricao: ola"
    );
}

#[test]
fn reply_content_errors_and_success() {
    assert_eq!(analysis_reply_content(false, Some("{}".to_string())), Err("Erro na API".to_string()));
    assert_eq!(analysis_reply_content(true, None), Err("Erro".to_string()));
    assert_eq!(analysis_reply_content(true, Some(" ```json {} ``` ".to_string())), Ok("{}".to_string()));
}

#[test]
fn failed_analysis_yields_no_event() {
    assert!(analysis_outcome_event(Err("timeout".to_string())).is_none());
}

#[test]
fn timed_out_analysis_beside_successful_one() {
    let outcomes: Vec<Result<AnalysisResult, String>> =
        vec![Err("timeout".to_string()), Ok(sample_analysis("y"))];
    let events: Vec<PipelineEvent> = outcomes.into_iter().filter_map(analysis_outcome_event).collect();
    assert_eq!(events.len(), 1);
    match &events[0] {
        PipelineEvent::AnalysisReady(e) => {
            assert_eq!(e.objections, vec!["price y".to_string()]);
            assert_eq!(e.important_points, vec!["demo".to_string(), "cfo".to_string()]);
            assert_eq!(e.sentiment, "neutral");
            assert!(e.suggestions.is_empty());
        }
        _ => panic!("expected an analysis event"),
    }
    assert_eq!(events[0].name(), "new-analysis");
}
