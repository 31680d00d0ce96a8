use veil::loader::{
    is_switched_on, keep_identifier, load_failure_message, metadata_failure_message,
    open_failure_message, read_identifier, LoadOptions, LoadPlan, ModelSource, OpenFailure,
};

fn some(text: &str) -> Option<String> {
    Some(text.to_string())
}

#[test]
fn open_failures_have_their_messages() {
    assert_eq!(
        open_failure_message("/m/veil.gguf", OpenFailure::NotFound, "No such file or directory (os error 2)"),
        "Model file /m/veil.gguf is missing."
    );
    assert_eq!(
        open_failure_message("/m/veil.gguf", OpenFailure::PermissionDenied, "Permission denied (os error 13)"),
        "Model file /m/veil.gguf is not readable (permission denied)."
    );
    assert_eq!(
        open_failure_message("/m/veil.gguf", OpenFailure::Other, "Is a directory (os error 21)"),
        "Failed to open model at /m/veil.gguf: Is a directory (os error 21)"
    );
}

#[test]
fn metadata_failure_has_its_message() {
    assert_eq!(
        metadata_failure_message("/m/veil.gguf", "Input/output error"),
        "Failed to read model metadata at /m/veil.gguf: Input/output error"
    );
}

#[test]
fn load_failure_names_both_errors() {
    assert_eq!(
        load_failure_message("bad magic", "not found"),
        "Failed to load GGUF model. Primary error: bad magic. Full-path fallback error: not found"
    );
}

#[test]
fn switches_are_on_for_exactly_one() {
    assert!(is_switched_on(&some("1")));
    assert!(!is_switched_on(&some("0")));
    assert!(!is_switched_on(&some("true")));
    assert!(!is_switched_on(&some(" 1")));
    assert!(!is_switched_on(&some("")));
    assert!(!is_switched_on(&None));
}

#[test]
fn identifiers_of_whitespace_do_not_count() {
    assert_eq!(read_identifier(some("org/tokenizer")), some("org/tokenizer"));
    assert_eq!(read_identifier(some("  padded  ")), some("  padded  "));
    assert_eq!(read_identifier(some("   ")), None);
    assert_eq!(read_identifier(some("\t\n")), None);
    assert_eq!(read_identifier(some("")), None);
    assert_eq!(read_identifier(None), None);
}

#[test]
fn keep_identifier_goes_by_what_is_left() {
    assert_eq!(keep_identifier(" a ".to_string(), "a"), some(" a "));
    assert_eq!(keep_identifier("   ".to_string(), ""), None);
}

#[test]
fn options_from_the_settings() {
    assert_eq!(
        LoadOptions::from_settings(some("1"), None, some("org/tok"), some(" ")),
        LoadOptions { force_cpu: true, enable_logging: false, tok_model_id: some("org/tok"), chat_template: None }
    );
    assert_eq!(
        LoadOptions::from_settings(None, some("1"), None, some("chatml")),
        LoadOptions { force_cpu: false, enable_logging: true, tok_model_id: None, chat_template: some("chatml") }
    );
}

#[test]
fn plan_needs_parent_and_file_name() {
    assert_eq!(
        LoadPlan::from_parts("veil.gguf", None, some("veil.gguf")),
        Err("Model path veil.gguf has no parent directory.".to_string())
    );
    assert_eq!(
        LoadPlan::from_parts("/models/..", some("/models"), None),
        Err("Model path /models/.. has no filename.".to_string())
    );
    assert_eq!(
        LoadPlan::from_parts("/", None, None),
        Err("Model path / has no parent directory.".to_string())
    );
}

#[test]
fn plan_names_the_model_in_two_ways() {
    let plan = LoadPlan::from_parts("/models/veil.gguf", some("/models"), some("veil.gguf")).expect("a plan");
    assert_eq!(
        plan.primary(),
        ModelSource { model_id: "/models".to_string(), files: vec!["veil.gguf".to_string()] }
    );
    assert_eq!(
        plan.fallback(),
        ModelSource { model_id: "local".to_string(), files: vec!["/models/veil.gguf".to_string()] }
    );
}

#[test]
fn plan_for_a_path_asks_the_operating_system() {
    let path = std::path::Path::new("models").join("veil.gguf");
    let text = path.to_string_lossy().to_string();
    let plan = LoadPlan::for_path(&text).expect("a plan");
    assert_eq!(plan.model_path, text);
    assert_eq!(plan.model_dir, "models");
    assert_eq!(plan.model_file, "veil.gguf");
    assert!(LoadPlan::for_path("").is_err());
}
