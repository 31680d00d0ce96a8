//! The model availability controller: one status, one slot for the loaded
//! backend, and the transitions between them.
//!
//! The controller does no loading itself. Its owner tells it that a load
//! was asked for, that a tick of the progress timer passed, and how the
//! load ended; the controller answers with the new status.

use vstd::prelude::*;
use vstd::string::*;

use crate::types::{ModelStatus, ModelStatusView};

verus! {

/// Progress shown as soon as a load starts, in percent.
pub const FIRST_PROGRESS: u8 = 10;

/// What each tick adds to the progress, in percent.
pub const PROGRESS_STEP: u8 = 15;

/// Where the estimate stops until the load ends, in percent.
pub const LAST_PROGRESS: u8 = 90;

/// Which kind of backend served a call.
#[derive(Clone, Copy, Debug, PartialEq, Eq)]
pub enum ReadingSource {
    Model,
    Stub,
}

impl ReadingSource {
    /// The tag that a reading carries for this source.
    pub open spec fn tag(self) -> Seq<char> {
        match self {
            ReadingSource::Model => "model"@,
            ReadingSource::Stub => "stub"@,
        }
    }

    /// The tag that a reading carries for this source.
    pub fn as_str(self) -> (tag: &'static str)
        ensures
            tag@ == self.tag(),
    {
        match self {
            ReadingSource::Model => "model",
            ReadingSource::Stub => "stub",
        }
    }
}

/// How a load ended: with a backend and what is known of its file, with the
/// loader's error, or with the report that the load task itself failed.
pub enum LoadOutcome<H> {
    Loaded { backend: H, model_path: String, model_size_bytes: u64 },
    Failed { message: String },
    Crashed { description: String },
}

/// True while a load runs or a model is loaded: a further request for a
/// load then changes nothing.
pub open spec fn load_settled(status: ModelStatusView) -> bool {
    status is Loading || status is Loaded
}

/// The status after a request for a load.
pub open spec fn after_request(status: ModelStatusView) -> ModelStatusView {
    if load_settled(status) {
        status
    } else {
        ModelStatusView::Loading { progress: FIRST_PROGRESS as int }
    }
}

/// The progress after one more tick.
pub open spec fn next_progress(progress: int) -> int {
    if progress + PROGRESS_STEP < LAST_PROGRESS {
        progress + PROGRESS_STEP
    } else {
        LAST_PROGRESS as int
    }
}

/// True where a tick moves the status: while loading below the last
/// estimate.
pub open spec fn tick_moves(status: ModelStatusView) -> bool {
    status matches ModelStatusView::Loading { progress } && progress < LAST_PROGRESS
}

/// The status after a tick of the progress timer.
pub open spec fn after_tick(status: ModelStatusView) -> ModelStatusView {
    match status {
        ModelStatusView::Loading { progress } if progress < LAST_PROGRESS => {
            ModelStatusView::Loading { progress: next_progress(progress) }
        },
        _ => status,
    }
}

/// The status after a load has ended.
pub open spec fn after_load<H>(outcome: LoadOutcome<H>) -> ModelStatusView {
    match outcome {
        LoadOutcome::Loaded { backend, model_path, model_size_bytes } => ModelStatusView::Loaded {
            model_path: model_path@,
            model_size_bytes: model_size_bytes as int,
        },
        LoadOutcome::Failed { message } => ModelStatusView::Error { message: message@ },
        LoadOutcome::Crashed { description } => ModelStatusView::Error {
            message: "Model load task failed: "@ + description@,
        },
    }
}

/// What a call for content is told of the backend: the model's tag while a
/// model is loaded, else the reason why there is none.
pub open spec fn selection(status: ModelStatusView) -> Result<ReadingSource, Seq<char>> {
    match status {
        ModelStatusView::Loaded { .. } => Ok(ReadingSource::Model),
        ModelStatusView::Loading { .. } => Err("Model is still loading."@),
        ModelStatusView::Unloaded => Err("Model is not initialized."@),
        ModelStatusView::Error { message } => Err(message),
    }
}

/// Idempotence: after one request for a load a second one changes nothing
/// and starts nothing, whatever the status was before the first.
pub proof fn lemma_request_load_idempotent(status: ModelStatusView)
    ensures
        load_settled(after_request(status)),
        after_request(after_request(status)) == after_request(status),
        !load_settled(status) ==> after_request(status) == (ModelStatusView::Loading {
            progress: FIRST_PROGRESS as int,
        }),
{
}

/// Progress never falls: a tick leaves a loading controller loading, with
/// at least the progress it had and at most the last estimate.
pub proof fn lemma_progress_monotonic(progress: int)
    requires
        0 <= progress <= LAST_PROGRESS,
    ensures
        after_tick(ModelStatusView::Loading { progress }) matches ModelStatusView::Loading {
            progress: later,
        } && progress <= later <= LAST_PROGRESS,
{
}

/// The controller. `H` is the handle of a loaded backend; the controller
/// keeps it and hands it out, and never looks inside.
pub struct ModelManager<H> {
    status: ModelStatus,
    backend: Option<H>,
}

impl<H> ModelManager<H> {
    #[verifier::type_invariant]
    spec fn loaded_has_backend(&self) -> bool {
        self.status is Loaded ==> self.backend is Some
    }

    /// The current status.
    pub closed spec fn status(&self) -> ModelStatusView {
        self.status@
    }

    /// The backend in the slot, if one was loaded.
    pub closed spec fn backend(&self) -> Option<H> {
        self.backend
    }

    /// A controller that has no model and was never asked for one.
    pub fn new() -> (manager: Self)
        ensures
            manager.status() == ModelStatusView::Unloaded,
            manager.backend() is None,
    {
        ModelManager { status: ModelStatus::Unloaded, backend: None }
    }

    /// A copy of the current status.
    pub fn get_status(&self) -> (status: ModelStatus)
        ensures
            status@ == self.status(),
    {
        self.status.clone()
    }

    /// Asks for a load. While a load runs or a model is loaded nothing
    /// changes and `false` is returned. Else the controller starts to show
    /// progress and returns `true`: the caller then starts the load and
    /// reports the new status.
    pub fn request_load(&mut self) -> (start: bool)
        ensures
            start == !load_settled(old(self).status()),
            final(self).status() == after_request(old(self).status()),
            final(self).backend() == old(self).backend(),
    {
        match &self.status {
            ModelStatus::Loading { .. } | ModelStatus::Loaded { .. } => false,
            _ => {
                self.status = ModelStatus::Loading { progress: FIRST_PROGRESS };
                true
            },
        }
    }

    /// A tick of the progress timer. While loading below the last estimate
    /// the progress moves one step up and the new status is returned for
    /// the caller to report; else nothing changes.
    pub fn tick(&mut self) -> (moved: Option<ModelStatus>)
        ensures
            final(self).status() == after_tick(old(self).status()),
            final(self).backend() == old(self).backend(),
            match moved {
                Some(status) => tick_moves(old(self).status()) && status@ == final(self).status(),
                None => !tick_moves(old(self).status()),
            },
    {
        let progress: u8 = match &self.status {
            ModelStatus::Loading { progress } => *progress,
            _ => {
                return None;
            },
        };
        if progress >= LAST_PROGRESS {
            return None;
        }
        let next: u8 = if progress < LAST_PROGRESS - PROGRESS_STEP {
            progress + PROGRESS_STEP
        } else {
            LAST_PROGRESS
        };
        self.status = ModelStatus::Loading { progress: next };
        Some(self.status.clone())
    }

    /// The end of a load. A backend that was loaded takes the slot and the
    /// status names its file; a failure becomes the status and leaves the
    /// slot as it was. The new status is returned for the caller to report.
    pub fn finish_load(&mut self, outcome: LoadOutcome<H>) -> (status: ModelStatus)
        ensures
            final(self).status() == after_load(outcome),
            status@ == final(self).status(),
            final(self).backend() == match outcome {
                LoadOutcome::Loaded { backend, .. } => Some(backend),
                _ => old(self).backend(),
            },
    {
        match outcome {
            LoadOutcome::Loaded { backend, model_path, model_size_bytes } => {
                self.backend = Some(backend);
                self.status = ModelStatus::Loaded { model_path, model_size_bytes };
            },
            LoadOutcome::Failed { message } => {
                self.status = ModelStatus::Error { message };
            },
            LoadOutcome::Crashed { description } => {
                let mut message = String::from_str("Model load task failed: ");
                message.append(description.as_str());
                self.status = ModelStatus::Error { message };
            },
        }
        self.status.clone()
    }

    /// The routing decision of every call for content: the loaded backend
    /// and the model's tag, or the reason why no model can serve the call.
    pub fn select_backend(&self) -> (selected: Result<(&H, ReadingSource), String>)
        ensures
            match selected {
                Ok((backend, source)) => selection(self.status()) == Ok::<
                    ReadingSource,
                    Seq<char>,
                >(source) && self.backend() == Some(*backend),
                Err(reason) => selection(self.status()) == Err::<ReadingSource, Seq<char>>(
                    reason@,
                ),
            },
    {
        proof {
            use_type_invariant(self);
        }
        match &self.status {
            ModelStatus::Loaded { .. } => match &self.backend {
                Some(backend) => Ok((backend, ReadingSource::Model)),
                None => unreached(),
            },
            ModelStatus::Loading { .. } => Err(String::from_str("Model is still loading.")),
            ModelStatus::Unloaded => Err(String::from_str("Model is not initialized.")),
            ModelStatus::Error { message } => Err(message.clone()),
        }
    }
}

} // verus!
