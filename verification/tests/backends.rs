use veil::backends::{
    build_fallback_prompt, join_failure_message, reply_content, stop_sequences, system_prompt, user_prompt,
    MistralBackend, StubBackend,
};
use veil::stub::synthesize_reading;
use veil::stub_dashboard::synthesize_dashboard;
use veil::text::{decimal_text, framed};
use veil::types::{Profile, ReadingRequest, SamplingParams};

fn ava(prompt: Option<&str>) -> ReadingRequest {
    ReadingRequest::new(
        Profile {
            name: "Ava".to_string(),
            birthdate: "1990-04-25".to_string(),
            mood: "Calm".to_string(),
            personality: "Dreamer".to_string(),
        },
        "2024-03-01".to_string(),
        prompt.map(|text| text.to_string()),
        None,
    )
}

#[test]
fn fallback_prompt_lists_the_profile() {
    assert_eq!(
        build_fallback_prompt(&ava(None)),
        "You are an offline horoscope assistant. Output JSON only.\nName: Ava\nBirthdate: 1990-04-25\nMood: Calm\nPersonality: Dreamer\nDate: 2024-03-01\nReturn a premium, soothing horoscope dashboard JSON."
    );
}

#[test]
fn user_prompt_prefers_the_requests_own() {
    assert_eq!(user_prompt(&ava(Some("Follow this schema."))), "Follow this schema.");
    assert_eq!(user_prompt(&ava(None)), build_fallback_prompt(&ava(None)));
}

#[test]
fn system_prompt_asks_for_strict_json() {
    let prompt = system_prompt();
    assert!(prompt.starts_with("You are Veil, a warm feminine astrologer with a loving aura."));
    assert!(prompt.contains("output STRICT JSON only"));
    assert!(prompt.ends_with("End output immediately after the final '}' character."));
    assert_eq!(prompt.len(), 293);
}

#[test]
fn default_sampling() {
    let params = SamplingParams::default();
    assert_eq!(
        params,
        SamplingParams {
            temperature_milli: 450,
            top_p_milli: 900,
            top_k: 50,
            repeat_penalty_milli: 1100,
            max_tokens: 3600,
            seed: None,
            stop: Vec::new(),
        }
    );
    assert_eq!(params.clone(), params);
}

#[test]
fn empty_stop_list_asks_for_no_stop() {
    assert_eq!(stop_sequences(&SamplingParams::default()), None);
    let mut params = SamplingParams::default();
    params.stop = vec!["}".to_string(), "\n\n".to_string()];
    assert_eq!(stop_sequences(&params), Some(vec!["}".to_string(), "\n\n".to_string()]));
}

#[test]
fn reply_is_the_content_of_the_first_choice() {
    assert_eq!(reply_content(&vec![Some("{}".to_string()), Some("other".to_string())]), Ok("{}".to_string()));
    assert_eq!(reply_content(&vec![None, Some("other".to_string())]), Err("Model returned empty content.".to_string()));
    assert_eq!(reply_content(&Vec::new()), Err("Model returned empty content.".to_string()));
}

#[test]
fn join_failure_has_its_message() {
    assert_eq!(join_failure_message("task 3 was cancelled"), "Model task join failed: task 3 was cancelled");
}

#[test]
fn mistral_backend_is_not_configured() {
    let backend = MistralBackend::new();
    let request = ava(None);
    assert_eq!(
        backend.generate_json(&request, &request.sampling),
        Err("Mistral backend not configured yet.".to_string())
    );
    assert_eq!(
        backend.generate_dashboard_json(&request, &request.sampling),
        Err("Mistral backend not configured yet.".to_string())
    );
}

#[test]
fn stub_backend_gives_the_offline_content() {
    let backend = StubBackend;
    let request = ava(None);
    let reading = backend.generate_reading(&request, &request.sampling);
    assert_eq!(reading, synthesize_reading(&request, reading.created_at.clone()));
    let document = backend.generate_dashboard(&request, &request.sampling);
    assert_eq!(document, synthesize_dashboard(&request, document.meta.generated_at_iso.clone()));
}

#[test]
fn profiles_and_requests_can_be_copied() {
    let request = ava(Some("p"));
    assert_eq!(request.profile.clone(), request.profile);
    assert_eq!(request.sampling.clone(), request.sampling);
}

#[test]
fn text_helpers() {
    assert_eq!(framed("a ", "b", " c"), "a b c");
    assert_eq!(decimal_text(0), "0");
    assert_eq!(decimal_text(9), "9");
    assert_eq!(decimal_text(10), "10");
    assert_eq!(decimal_text(1234567890), "1234567890");
}
