use veil::commands::{
    complete_dashboard, complete_dashboard_at, complete_reading, complete_reading_at, stream_result,
    tag_reading, DashboardPayload,
};
use veil::model_manager::{LoadOutcome, ModelManager, ReadingSource};
use veil::stub::synthesize_reading;
use veil::stub_dashboard::synthesize_dashboard;
use veil::types::{Profile, Reading, ReadingRequest, SamplingParams, StreamEvent};

fn ava() -> ReadingRequest {
    ReadingRequest::new(
        Profile {
            name: "Ava".to_string(),
            birthdate: "1990-04-25".to_string(),
            mood: "Calm".to_string(),
            personality: "Dreamer".to_string(),
        },
        "2024-03-01".to_string(),
        None,
        None,
    )
}

fn model_reading() -> Reading {
    Reading {
        date: "2024-03-01".to_string(),
        sign: "Taurus".to_string(),
        title: "From the model".to_string(),
        message: "A message that the model wrote.".to_string(),
        themes: ["One".to_string(), "Two".to_string(), "Three".to_string()],
        affirmation: "Yes.".to_string(),
        lucky_color: "Green".to_string(),
        lucky_number: 3,
        created_at: "2024-03-01T00:00:00Z".to_string(),
        source: "whatever the model said".to_string(),
    }
}

fn loaded_manager() -> ModelManager<u32> {
    let mut manager = ModelManager::new();
    manager.request_load();
    manager.finish_load(LoadOutcome::Loaded {
        backend: 1,
        model_path: "/models/veil.gguf".to_string(),
        model_size_bytes: 10,
    });
    manager
}

#[test]
fn fallback_scenario() {
    // A loaded controller routes the call to the model; the model fails;
    // the call still succeeds with the offline reading.
    let manager = loaded_manager();
    let (_, source) = manager.select_backend().expect("a loaded model");
    let request = ava();
    let reading = complete_reading(source, Err("inference failed".to_string()), &request).expect("a reading");
    assert_eq!(reading.source, "stub");
    let expected = synthesize_reading(&request, reading.created_at.clone());
    assert_eq!(reading, expected);
}

#[test]
fn unready_scenario() {
    // An unloaded controller turns the call away; nothing stands in.
    let manager: ModelManager<u32> = ModelManager::new();
    assert_eq!(manager.select_backend(), Err("Model is not initialized.".to_string()));
}

#[test]
fn sampling_defaults_apply_where_none_is_given() {
    let request = ava();
    assert_eq!(request.sampling, SamplingParams::default());
    assert_eq!(request.prompt, None);
}

#[test]
fn delivered_reading_is_tagged_with_its_source() {
    let reading =
        complete_reading(ReadingSource::Model, Ok(model_reading()), &ava()).expect("the model's reading");
    assert_eq!(reading, Reading { source: "model".to_string(), ..model_reading() });
    let stubbed = complete_reading(ReadingSource::Stub, Ok(model_reading()), &ava()).expect("a reading");
    assert_eq!(stubbed.source, "stub");
    assert_eq!(stubbed.title, "From the model");
}

#[test]
fn tag_reading_changes_the_source_only() {
    assert_eq!(
        tag_reading(model_reading(), ReadingSource::Stub),
        Reading { source: "stub".to_string(), ..model_reading() }
    );
}

#[test]
fn failure_outside_the_model_is_handed_on() {
    let result = complete_reading(ReadingSource::Stub, Err("no such thing".to_string()), &ava());
    assert_eq!(result, Err("no such thing".to_string()));
}

#[test]
fn complete_reading_at_stamps_the_offline_reading() {
    let request = ava();
    let reading = complete_reading_at(
        ReadingSource::Model,
        Err("inference failed".to_string()),
        &request,
        "2024-03-01T09:30:00+00:00".to_string(),
    )
    .expect("a reading");
    assert_eq!(reading.created_at, "2024-03-01T09:30:00+00:00");
    assert_eq!(reading, synthesize_reading(&request, "2024-03-01T09:30:00+00:00".to_string()));
}

#[test]
fn dashboard_text_of_the_model_is_passed_on() {
    let result = complete_dashboard(ReadingSource::Model, Ok("{\"meta\":{}}".to_string()), &ava());
    assert_eq!(result, Ok(DashboardPayload::Model { json: "{\"meta\":{}}".to_string() }));
}

#[test]
fn failed_model_dashboard_falls_back() {
    let request = ava();
    let result = complete_dashboard_at(
        ReadingSource::Model,
        Err("inference failed".to_string()),
        &request,
        "now".to_string(),
    );
    assert_eq!(
        result,
        Ok(DashboardPayload::Stub { document: synthesize_dashboard(&request, "now".to_string()) })
    );
    match complete_dashboard(ReadingSource::Model, Err("inference failed".to_string()), &request) {
        Ok(DashboardPayload::Stub { document }) => {
            let stamp = document.meta.generated_at_iso.clone();
            assert!(chrono::DateTime::parse_from_rfc3339(&stamp).is_ok());
            assert_eq!(document, synthesize_dashboard(&request, stamp));
        }
        other => panic!("expected the offline dashboard, got {:?}", other),
    }
}

#[test]
fn failed_dashboard_outside_the_model_is_handed_on() {
    let result = complete_dashboard(ReadingSource::Stub, Err("no such thing".to_string()), &ava());
    assert_eq!(result, Err("no such thing".to_string()));
}

#[test]
fn stream_of_a_reading_is_the_stream_of_its_message() {
    let events = stream_result(&Ok(model_reading()));
    assert_eq!(
        events,
        vec![
            StreamEvent::Start,
            StreamEvent::Chunk { chunk: "A message that the model wro".to_string() },
            StreamEvent::Chunk { chunk: "te.".to_string() },
            StreamEvent::End,
        ]
    );
}

#[test]
fn stream_of_a_failure_is_start_and_end() {
    assert_eq!(stream_result(&Err("failed".to_string())), vec![StreamEvent::Start, StreamEvent::End]);
}
