//! The decisions of loading the embedded model: which settings of the
//! environment count, how the model is named to the inference library, in
//! which order the two ways of naming it are tried, and what each failure
//! is called.
//!
//! Opening the file and building the model are the owner's part. The
//! embedded model is a GGUF file; the library is first given its directory
//! and file name, and on failure the whole path under the name `local`.

use vstd::prelude::*;
use vstd::string::*;

use crate::text::{optional_text, strings_of, trim, trimmed};

verus! {

/// Why the model file could not be opened.
#[derive(Clone, Copy, Debug, PartialEq, Eq)]
pub enum OpenFailure {
    NotFound,
    PermissionDenied,
    Other,
}

/// What to say when the model file cannot be opened. `detail` is the
/// system's own description; it is shown for a failure that is neither a
/// missing file nor a lack of permission.
pub open spec fn open_failure_text(
    model_path: Seq<char>,
    failure: OpenFailure,
    detail: Seq<char>,
) -> Seq<char> {
    match failure {
        OpenFailure::NotFound => "Model file "@ + model_path + " is missing."@,
        OpenFailure::PermissionDenied => "Model file "@ + model_path
            + " is not readable (permission denied)."@,
        OpenFailure::Other => "Failed to open model at "@ + model_path + ": "@ + detail,
    }
}

/// What to say when the size of the model file cannot be read.
pub open spec fn metadata_failure_text(model_path: Seq<char>, detail: Seq<char>) -> Seq<char> {
    "Failed to read model metadata at "@ + model_path + ": "@ + detail
}

/// What to say when both ways of naming the model have failed.
pub open spec fn load_failure_text(primary_error: Seq<char>, second_error: Seq<char>) -> Seq<
    char,
> {
    "Failed to load GGUF model. Primary error: "@ + primary_error
        + ". Full-path fallback error: "@ + second_error
}

/// Writes the message for a model file that cannot be opened.
pub fn open_failure_message(model_path: &str, failure: OpenFailure, detail: &str) -> (message:
    String)
    ensures
        message@ == open_failure_text(model_path@, failure, detail@),
{
    match failure {
        OpenFailure::NotFound => {
            let mut message = String::from_str("Model file ");
            message.append(model_path);
            message.append(" is missing.");
            message
        },
        OpenFailure::PermissionDenied => {
            let mut message = String::from_str("Model file ");
            message.append(model_path);
            message.append(" is not readable (permission denied).");
            message
        },
        OpenFailure::Other => {
            let mut message = String::from_str("Failed to open model at ");
            message.append(model_path);
            message.append(": ");
            message.append(detail);
            message
        },
    }
}

/// Writes the message for a model file whose size cannot be read.
pub fn metadata_failure_message(model_path: &str, detail: &str) -> (message: String)
    ensures
        message@ == metadata_failure_text(model_path@, detail@),
{
    let mut message = String::from_str("Failed to read model metadata at ");
    message.append(model_path);
    message.append(": ");
    message.append(detail);
    message
}

/// Writes the message for a model that neither way of naming it loaded.
pub fn load_failure_message(primary_error: &str, second_error: &str) -> (message: String)
    ensures
        message@ == load_failure_text(primary_error@, second_error@),
{
    let mut message = String::from_str("Failed to load GGUF model. Primary error: ");
    message.append(primary_error);
    message.append(". Full-path fallback error: ");
    message.append(second_error);
    message
}

/// How the inference library is set up for a load.
#[derive(Debug, PartialEq, Eq)]
pub struct LoadOptions {
    pub force_cpu: bool,
    pub enable_logging: bool,
    pub tok_model_id: Option<String>,
    pub chat_template: Option<String>,
}

/// The view of [`LoadOptions`].
pub struct LoadOptionsView {
    pub force_cpu: bool,
    pub enable_logging: bool,
    pub tok_model_id: Option<Seq<char>>,
    pub chat_template: Option<Seq<char>>,
}

impl View for LoadOptions {
    type V = LoadOptionsView;

    open spec fn view(&self) -> LoadOptionsView {
        LoadOptionsView {
            force_cpu: self.force_cpu,
            enable_logging: self.enable_logging,
            tok_model_id: optional_text(self.tok_model_id),
            chat_template: optional_text(self.chat_template),
        }
    }
}

/// True where a setting is present and is exactly `1`.
pub open spec fn switched_on(value: Option<Seq<char>>) -> bool {
    value == Some("1"@)
}

/// An identifier from the environment counts where it is more than
/// whitespace; it is then taken as it stands.
pub open spec fn identifier(value: Option<Seq<char>>) -> Option<Seq<char>> {
    match value {
        Some(text) => if trimmed(text).len() == 0 {
            None
        } else {
            Some(text)
        },
        None => None,
    }
}

/// The options that four settings of the environment ask for.
pub open spec fn options_of(
    force_cpu: Option<Seq<char>>,
    logging: Option<Seq<char>>,
    tok_model_id: Option<Seq<char>>,
    chat_template: Option<Seq<char>>,
) -> LoadOptionsView {
    LoadOptionsView {
        force_cpu: switched_on(force_cpu),
        enable_logging: switched_on(logging),
        tok_model_id: identifier(tok_model_id),
        chat_template: identifier(chat_template),
    }
}

/// True where a setting is present and is exactly `1`.
pub fn is_switched_on(value: &Option<String>) -> (on: bool)
    ensures
        on == switched_on(optional_text(*value)),
{
    match value {
        Some(text) => {
            let one = String::from_str("1");
            *text == one
        },
        None => false,
    }
}

/// Keeps an identifier of which `kept` is left once the whitespace at
/// both ends is taken off: the identifier as it stands, unless nothing is
/// left.
pub fn keep_identifier(value: String, kept: &str) -> (chosen: Option<String>)
    ensures
        optional_text(chosen) == if kept@.len() == 0 {
            None
        } else {
            Some(value@)
        },
{
    if kept.is_empty() {
        None
    } else {
        Some(value)
    }
}

/// Reads an identifier from a setting of the environment.
pub fn read_identifier(value: Option<String>) -> (chosen: Option<String>)
    ensures
        optional_text(chosen) == identifier(optional_text(value)),
{
    match value {
        Some(text) => {
            let blank: bool = trim(text.as_str()).is_empty();
            if blank {
                None
            } else {
                Some(text)
            }
        },
        None => None,
    }
}

impl LoadOptions {
    /// The options that the environment asks for, from the values of the
    /// four settings: force CPU, logging, tokenizer model and chat
    /// template.
    pub fn from_settings(
        force_cpu: Option<String>,
        logging: Option<String>,
        tok_model_id: Option<String>,
        chat_template: Option<String>,
    ) -> (options: Self)
        ensures
            options@ == options_of(
                optional_text(force_cpu),
                optional_text(logging),
                optional_text(tok_model_id),
                optional_text(chat_template),
            ),
    {
        LoadOptions {
            force_cpu: is_switched_on(&force_cpu),
            enable_logging: is_switched_on(&logging),
            tok_model_id: read_identifier(tok_model_id),
            chat_template: read_identifier(chat_template),
        }
    }
}

/// A way of naming the model to the inference library: an identifier and
/// the files to load.
#[derive(Debug, PartialEq, Eq)]
pub struct ModelSource {
    pub model_id: String,
    pub files: Vec<String>,
}

/// The view of [`ModelSource`].
pub struct ModelSourceView {
    pub model_id: Seq<char>,
    pub files: Seq<Seq<char>>,
}

impl View for ModelSource {
    type V = ModelSourceView;

    open spec fn view(&self) -> ModelSourceView {
        ModelSourceView { model_id: self.model_id@, files: strings_of(self.files@) }
    }
}

/// The model file, taken apart for the two ways of naming it.
#[derive(Debug, PartialEq, Eq)]
pub struct LoadPlan {
    pub model_path: String,
    pub model_dir: String,
    pub model_file: String,
}

/// The view of [`LoadPlan`].
pub struct LoadPlanView {
    pub model_path: Seq<char>,
    pub model_dir: Seq<char>,
    pub model_file: Seq<char>,
}

impl View for LoadPlan {
    type V = LoadPlanView;

    open spec fn view(&self) -> LoadPlanView {
        LoadPlanView {
            model_path: self.model_path@,
            model_dir: self.model_dir@,
            model_file: self.model_file@,
        }
    }
}

/// The plan for a model path whose parent directory and file name are
/// known, or the reason why there is none: a path needs both.
pub open spec fn plan_of(
    model_path: Seq<char>,
    parent: Option<Seq<char>>,
    file_name: Option<Seq<char>>,
) -> Result<LoadPlanView, Seq<char>> {
    match parent {
        None => Err("Model path "@ + model_path + " has no parent directory."@),
        Some(model_dir) => match file_name {
            None => Err("Model path "@ + model_path + " has no filename."@),
            Some(model_file) => Ok(LoadPlanView { model_path, model_dir, model_file }),
        },
    }
}

/// A result with the plan or the reason as a view.
pub open spec fn plan_view(plan: Result<LoadPlan, String>) -> Result<LoadPlanView, Seq<char>> {
    match plan {
        Ok(plan) => Ok(plan@),
        Err(reason) => Err(reason@),
    }
}

/// Calls `std::path::Path::parent` on the path and writes the result as
/// text. Nothing is promised of it: what counts as a parent differs from
/// one operating system to the other.
#[verifier::external_body]
pub(crate) fn path_parent(path: &str) -> (parent: Option<String>) {
    match std::path::Path::new(path).parent() {
        Some(dir) => Some(dir.to_string_lossy().to_string()),
        None => None,
    }
}

/// Calls `std::path::Path::file_name` on the path and writes the result
/// as text. Nothing is promised of it: what counts as a file name differs
/// from one operating system to the other.
#[verifier::external_body]
pub(crate) fn path_file_name(path: &str) -> (name: Option<String>) {
    match std::path::Path::new(path).file_name() {
        Some(name) => Some(name.to_string_lossy().to_string()),
        None => None,
    }
}

impl LoadPlan {
    /// The plan for a model path, given its parent directory and its file
    /// name as the operating system sees them.
    pub fn from_parts(model_path: &str, parent: Option<String>, file_name: Option<String>) -> (plan:
        Result<Self, String>)
        ensures
            plan_view(plan) == plan_of(
                model_path@,
                optional_text(parent),
                optional_text(file_name),
            ),
    {
        match parent {
            None => {
                let mut reason = String::from_str("Model path ");
                reason.append(model_path);
                reason.append(" has no parent directory.");
                Err(reason)
            },
            Some(model_dir) => match file_name {
                None => {
                    let mut reason = String::from_str("Model path ");
                    reason.append(model_path);
                    reason.append(" has no filename.");
                    Err(reason)
                },
                Some(model_file) => Ok(
                    LoadPlan { model_path: String::from_str(model_path), model_dir, model_file },
                ),
            },
        }
    }

    /// The plan for a model path. The operating system says what the
    /// parent directory and the file name of the path are; the plan is
    /// what `from_parts` makes of its answer.
    pub fn for_path(model_path: &str) -> (plan: Result<Self, String>)
        ensures
            exists|parent: Option<Seq<char>>, file_name: Option<Seq<char>>|
                plan_view(plan) == #[trigger] plan_of(model_path@, parent, file_name),
    {
        let parent = path_parent(model_path);
        let file_name = path_file_name(model_path);
        let ghost parent_text = optional_text(parent);
        let ghost name_text = optional_text(file_name);
        let plan = LoadPlan::from_parts(model_path, parent, file_name);
        assert(plan_view(plan) == plan_of(model_path@, parent_text, name_text));
        plan
    }

    /// The first way of naming the model: its directory as the
    /// identifier, its file name as the one file.
    pub fn primary(&self) -> (source: ModelSource)
        ensures
            source@ == (ModelSourceView { model_id: self@.model_dir, files: seq![self@.model_file] }),
    {
        let source = ModelSource {
            model_id: self.model_dir.clone(),
            files: vec![self.model_file.clone()],
        };
        proof {
            assert(source@.files =~= seq![self@.model_file]);
        }
        source
    }

    /// The second way, tried where the first failed: the identifier
    /// `local`, and the whole path as the one file.
    pub fn fallback(&self) -> (source: ModelSource)
        ensures
            source@ == (ModelSourceView { model_id: "local"@, files: seq![self@.model_path] }),
    {
        let source = ModelSource {
            model_id: String::from_str("local"),
            files: vec![self.model_path.clone()],
        };
        proof {
            assert(source@.files =~= seq![self@.model_path]);
        }
        source
    }
}

} // verus!
