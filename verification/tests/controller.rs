use veil::model_manager::{LoadOutcome, ModelManager, ReadingSource};
use veil::types::ModelStatus;

fn loaded() -> LoadOutcome<&'static str> {
    LoadOutcome::Loaded {
        backend: "handle",
        model_path: "/models/veil.gguf".to_string(),
        model_size_bytes: 4_200_000_000,
    }
}

#[test]
fn new_controller_is_unloaded() {
    let manager: ModelManager<&str> = ModelManager::new();
    assert_eq!(manager.get_status(), ModelStatus::Unloaded);
}

#[test]
fn request_load_is_idempotent() {
    let mut manager: ModelManager<&str> = ModelManager::new();
    assert!(manager.request_load());
    let first = manager.get_status();
    assert!(!manager.request_load());
    let second = manager.get_status();
    assert_eq!(first, ModelStatus::Loading { progress: 10 });
    assert_eq!(second, first);
}

#[test]
fn request_load_keeps_the_progress_of_a_running_load() {
    let mut manager: ModelManager<&str> = ModelManager::new();
    assert!(manager.request_load());
    manager.tick();
    manager.tick();
    assert!(!manager.request_load());
    assert_eq!(manager.get_status(), ModelStatus::Loading { progress: 40 });
}

#[test]
fn request_load_leaves_a_loaded_model_alone() {
    let mut manager = ModelManager::new();
    manager.request_load();
    manager.finish_load(loaded());
    let before = manager.get_status();
    assert!(!manager.request_load());
    assert_eq!(manager.get_status(), before);
}

#[test]
fn request_load_starts_again_after_an_error() {
    let mut manager: ModelManager<&str> = ModelManager::new();
    manager.request_load();
    manager.finish_load(LoadOutcome::Failed { message: "no file".to_string() });
    assert!(manager.request_load());
    assert_eq!(manager.get_status(), ModelStatus::Loading { progress: 10 });
}

#[test]
fn ticks_move_the_progress_up_to_ninety() {
    let mut manager: ModelManager<&str> = ModelManager::new();
    manager.request_load();
    let mut seen = vec![10u8];
    while let Some(status) = manager.tick() {
        assert_eq!(status, manager.get_status());
        match status {
            ModelStatus::Loading { progress } => seen.push(progress),
            other => panic!("a tick left the controller in {:?}", other),
        }
    }
    assert_eq!(seen, vec![10, 25, 40, 55, 70, 85, 90]);
    assert_eq!(manager.tick(), None);
    assert_eq!(manager.get_status(), ModelStatus::Loading { progress: 90 });
}

#[test]
fn ticks_outside_a_load_change_nothing() {
    let mut manager = ModelManager::new();
    assert_eq!(manager.tick(), None);
    assert_eq!(manager.get_status(), ModelStatus::Unloaded);
    manager.request_load();
    manager.finish_load(loaded());
    let before = manager.get_status();
    assert_eq!(manager.tick(), None);
    assert_eq!(manager.get_status(), before);
}

#[test]
fn finished_load_names_the_file() {
    let mut manager = ModelManager::new();
    manager.request_load();
    let status = manager.finish_load(loaded());
    assert_eq!(
        status,
        ModelStatus::Loaded { model_path: "/models/veil.gguf".to_string(), model_size_bytes: 4_200_000_000 }
    );
    assert_eq!(manager.get_status(), status);
}

#[test]
fn failed_load_shows_the_loaders_error() {
    let mut manager: ModelManager<&str> = ModelManager::new();
    manager.request_load();
    let status = manager.finish_load(LoadOutcome::Failed { message: "Model file x is missing.".to_string() });
    assert_eq!(status, ModelStatus::Error { message: "Model file x is missing.".to_string() });
}

#[test]
fn crashed_load_is_reported_as_a_failed_task() {
    let mut manager: ModelManager<&str> = ModelManager::new();
    manager.request_load();
    let status = manager.finish_load(LoadOutcome::Crashed { description: "task 7 panicked".to_string() });
    assert_eq!(status, ModelStatus::Error { message: "Model load task failed: task 7 panicked".to_string() });
}

#[test]
fn select_backend_before_any_load() {
    let manager: ModelManager<&str> = ModelManager::new();
    assert_eq!(manager.select_backend(), Err("Model is not initialized.".to_string()));
}

#[test]
fn select_backend_while_loading() {
    let mut manager: ModelManager<&str> = ModelManager::new();
    manager.request_load();
    assert_eq!(manager.select_backend(), Err("Model is still loading.".to_string()));
}

#[test]
fn select_backend_after_a_failure_gives_its_message() {
    let mut manager: ModelManager<&str> = ModelManager::new();
    manager.request_load();
    manager.finish_load(LoadOutcome::Failed { message: "disk on fire".to_string() });
    assert_eq!(manager.select_backend(), Err("disk on fire".to_string()));
}

#[test]
fn select_backend_hands_out_the_loaded_backend() {
    let mut manager = ModelManager::new();
    manager.request_load();
    manager.finish_load(loaded());
    assert_eq!(manager.select_backend(), Ok((&"handle", ReadingSource::Model)));
}

#[test]
fn a_later_load_replaces_the_backend() {
    let mut manager = ModelManager::new();
    manager.finish_load(loaded());
    manager.finish_load(LoadOutcome::Loaded {
        backend: "second",
        model_path: "/other.gguf".to_string(),
        model_size_bytes: 1,
    });
    assert_eq!(manager.select_backend(), Ok((&"second", ReadingSource::Model)));
}

#[test]
fn source_tags() {
    assert_eq!(ReadingSource::Model.as_str(), "model");
    assert_eq!(ReadingSource::Stub.as_str(), "stub");
}

#[test]
fn status_for_a_state_that_cannot_be_read() {
    assert_eq!(ModelStatus::unreadable(), ModelStatus::Error { message: "Unable to read model status".to_string() });
}
