//! Finding the model file: where to look, in which order, and what to make
//! of what was found there.
//!
//! The owner of the library looks at the disk; the library says where, and
//! decides on what was seen.

use vstd::prelude::*;
use vstd::string::*;

use crate::text::{decimal, decimal_text, joined_with, optional_text};

verus! {

/// Name of the model file.
pub open spec fn model_file_name() -> Seq<char> {
    "veil.gguf"@
}

/// Name of the model file below a directory of resources.
pub open spec fn model_resource_name() -> Seq<char> {
    "resources/veil.gguf"@
}

/// A place to look for the model file: a path as it stands, or a file
/// below a directory.
#[derive(Debug, PartialEq, Eq)]
pub enum Location {
    Exact { label: String, path: String },
    Within { label: String, directory: String, file: String },
}

/// The view of [`Location`].
pub enum LocationView {
    Exact { label: Seq<char>, path: Seq<char> },
    Within { label: Seq<char>, directory: Seq<char>, file: Seq<char> },
}

impl View for Location {
    type V = LocationView;

    open spec fn view(&self) -> LocationView {
        match self {
            Location::Exact { label, path } => LocationView::Exact { label: label@, path: path@ },
            Location::Within { label, directory, file } => LocationView::Within {
                label: label@,
                directory: directory@,
                file: file@,
            },
        }
    }
}

/// The views of a list of locations.
pub open spec fn location_views(locations: Seq<Location>) -> Seq<LocationView> {
    Seq::new(locations.len(), |i: int| locations[i]@)
}

/// The directories of a development build: that of the package, and the
/// one above it where there is one.
#[derive(Debug, PartialEq, Eq)]
pub struct DevDirs {
    pub package_dir: String,
    pub project_dir: Option<String>,
}

/// The model file named by the environment, if it names one.
pub open spec fn override_locations(override_path: Option<Seq<char>>) -> Seq<LocationView> {
    match override_path {
        Some(path) => seq![LocationView::Exact { label: "VEIL_MODEL_PATH"@, path }],
        None => Seq::empty(),
    }
}

/// The two places below the directory of packaged resources.
pub open spec fn resource_locations(resource_dir: Option<Seq<char>>) -> Seq<LocationView> {
    match resource_dir {
        Some(directory) => seq![
            LocationView::Within { label: "resource_dir"@, directory, file: model_file_name() },
            LocationView::Within {
                label: "resource_dir/resources"@,
                directory,
                file: model_resource_name(),
            },
        ],
        None => Seq::empty(),
    }
}

/// The place below the user's directory of application data.
pub open spec fn app_data_locations(app_data_dir: Option<Seq<char>>) -> Seq<LocationView> {
    match app_data_dir {
        Some(directory) => seq![
            LocationView::Within { label: "app_data_dir"@, directory, file: model_file_name() },
        ],
        None => Seq::empty(),
    }
}

/// The places of a development build: the resources of the project, where
/// the package has a directory above it, then those of the package.
pub open spec fn dev_locations(dev: Option<DevDirs>) -> Seq<LocationView> {
    match dev {
        Some(dirs) => (match dirs.project_dir {
            Some(project_dir) => seq![
                LocationView::Within {
                    label: "project/resources"@,
                    directory: project_dir@,
                    file: model_resource_name(),
                },
            ],
            None => Seq::empty(),
        }) + seq![
            LocationView::Within {
                label: "src-tauri/resources"@,
                directory: dirs.package_dir@,
                file: model_resource_name(),
            },
        ],
        None => Seq::empty(),
    }
}

/// Where the model file is looked for, in the order of the search.
pub open spec fn search_order(
    override_path: Option<Seq<char>>,
    resource_dir: Option<Seq<char>>,
    app_data_dir: Option<Seq<char>>,
    dev: Option<DevDirs>,
) -> Seq<LocationView> {
    override_locations(override_path) + resource_locations(resource_dir) + app_data_locations(
        app_data_dir,
    ) + dev_locations(dev)
}

fn within(label: &str, directory: &str, file: &str) -> (location: Location)
    ensures
        location@ == (LocationView::Within { label: label@, directory: directory@, file: file@ }),
{
    Location::Within {
        label: String::from_str(label),
        directory: String::from_str(directory),
        file: String::from_str(file),
    }
}

/// Lists where to look for the model file: the path that the environment
/// names, the directory of packaged resources, the user's directory of
/// application data, and in a development build the directories of the
/// build. A place whose directory is not known is left out.
pub fn candidate_locations(
    override_path: Option<String>,
    resource_dir: Option<String>,
    app_data_dir: Option<String>,
    dev: Option<DevDirs>,
) -> (locations: Vec<Location>)
    ensures
        location_views(locations@) == search_order(
            optional_text(override_path),
            optional_text(resource_dir),
            optional_text(app_data_dir),
            dev,
        ),
{
    let mut locations: Vec<Location> = Vec::new();
    if let Some(path) = override_path {
        locations.push(Location::Exact { label: String::from_str("VEIL_MODEL_PATH"), path });
    }
    assert(location_views(locations@) =~= override_locations(optional_text(override_path)));
    if let Some(directory) = &resource_dir {
        locations.push(within("resource_dir", directory.as_str(), "veil.gguf"));
        locations.push(within("resource_dir/resources", directory.as_str(), "resources/veil.gguf"));
    }
    assert(location_views(locations@) =~= override_locations(optional_text(override_path))
        + resource_locations(optional_text(resource_dir)));
    if let Some(directory) = &app_data_dir {
        locations.push(within("app_data_dir", directory.as_str(), "veil.gguf"));
    }
    assert(location_views(locations@) =~= override_locations(optional_text(override_path))
        + resource_locations(optional_text(resource_dir)) + app_data_locations(
        optional_text(app_data_dir),
    ));
    if let Some(dirs) = &dev {
        if let Some(project_dir) = &dirs.project_dir {
            locations.push(within("project/resources", project_dir.as_str(), "resources/veil.gguf"));
        }
        locations.push(
            within("src-tauri/resources", dirs.package_dir.as_str(), "resources/veil.gguf"),
        );
    }
    assert(location_views(locations@) =~= search_order(
        optional_text(override_path),
        optional_text(resource_dir),
        optional_text(app_data_dir),
        dev,
    ));
    locations
}

/// What was seen at a path.
#[derive(Clone, Copy, Debug, PartialEq, Eq)]
pub enum PathStatus {
    Missing,
    NotAFile,
    File { size: u64 },
}

/// A place that was looked at: its label, its path, and what was there.
#[derive(Debug, PartialEq, Eq)]
pub struct Candidate {
    pub label: String,
    pub path: String,
    pub status: PathStatus,
}

/// The view of [`Candidate`].
pub struct CandidateView {
    pub label: Seq<char>,
    pub path: Seq<char>,
    pub status: PathStatus,
}

impl View for Candidate {
    type V = CandidateView;

    open spec fn view(&self) -> CandidateView {
        CandidateView { label: self.label@, path: self.path@, status: self.status }
    }
}

/// The views of a list of candidates.
pub open spec fn candidate_views(candidates: Seq<Candidate>) -> Seq<CandidateView> {
    Seq::new(candidates.len(), |i: int| candidates[i]@)
}

/// What was seen at a path, in words.
pub open spec fn status_text(status: PathStatus) -> Seq<char> {
    match status {
        PathStatus::File { size } => "file, "@ + decimal(size as nat) + " bytes"@,
        PathStatus::NotAFile => "exists, not a file"@,
        PathStatus::Missing => "missing"@,
    }
}

/// One entry of the report of a search: label, path, and in brackets what
/// was seen.
pub open spec fn candidate_text(candidate: CandidateView) -> Seq<char> {
    candidate.label + ": "@ + candidate.path + " ("@ + status_text(candidate.status) + ")"@
}

/// The entries of the report of a search.
pub open spec fn candidate_texts(candidates: Seq<CandidateView>) -> Seq<Seq<char>> {
    Seq::new(candidates.len(), |i: int| candidate_text(candidates[i]))
}

/// What to say when the model file is nowhere: every place that was looked
/// at, with what was seen there.
pub open spec fn not_found_text(candidates: Seq<CandidateView>) -> Seq<char> {
    "Model file veil.gguf not found. Looked in: "@ + joined_with(
        candidate_texts(candidates),
        ", "@,
    ) + "."@
}

/// What to say when something other than a file is in the way.
pub open spec fn not_a_file_text(path: Seq<char>) -> Seq<char> {
    "Model path "@ + path + " exists but is not a file."@
}

/// True where `found` is the first place at which something was seen.
pub open spec fn first_present(candidates: Seq<CandidateView>, found: int) -> bool {
    &&& 0 <= found < candidates.len()
    &&& !(candidates[found].status is Missing)
    &&& forall|earlier: int| 0 <= earlier < found ==> candidates[earlier].status is Missing
}

/// True where nothing was seen at any place.
pub open spec fn all_missing(candidates: Seq<CandidateView>) -> bool {
    forall|i: int| 0 <= i < candidates.len() ==> candidates[i].status is Missing
}

/// What the search comes to: the first place at which something was seen
/// decides. A file there is the model; anything else there ends the
/// search with an error; and so does a search that saw nothing anywhere.
pub open spec fn resolves_to(
    candidates: Seq<CandidateView>,
    result: Result<Seq<char>, Seq<char>>,
) -> bool {
    match result {
        Ok(path) => exists|found: int|
            #[trigger] first_present(candidates, found) && candidates[found].status is File
                && path == candidates[found].path,
        Err(reason) => {
            ||| exists|found: int|
                #[trigger] first_present(candidates, found) && candidates[found].status
                    is NotAFile && reason == not_a_file_text(candidates[found].path)
            ||| all_missing(candidates) && reason == not_found_text(candidates)
        },
    }
}

/// A result with the path or the reason as text.
pub open spec fn resolved_view(result: Result<String, String>) -> Result<Seq<char>, Seq<char>> {
    match result {
        Ok(path) => Ok(path@),
        Err(reason) => Err(reason@),
    }
}

/// One entry of the report of a search.
pub fn describe_candidate(candidate: &Candidate) -> (entry: String)
    ensures
        entry@ == candidate_text(candidate@),
{
    let mut entry = candidate.label.clone();
    entry.append(": ");
    entry.append(candidate.path.as_str());
    entry.append(" (");
    match candidate.status {
        PathStatus::File { size } => {
            entry.append("file, ");
            entry.append(decimal_text(size).as_str());
            entry.append(" bytes");
        },
        PathStatus::NotAFile => {
            entry.append("exists, not a file");
        },
        PathStatus::Missing => {
            entry.append("missing");
        },
    }
    entry.append(")");
    entry
}

/// The message for a search that found nothing.
pub fn not_found_message(candidates: &Vec<Candidate>) -> (message: String)
    ensures
        message@ == not_found_text(candidate_views(candidates@)),
{
    let ghost entries = candidate_texts(candidate_views(candidates@));
    let mut report = String::new();
    let mut i: usize = 0;
    while i < candidates.len()
        invariant
            i <= candidates@.len(),
            entries == candidate_texts(candidate_views(candidates@)),
            report@ == joined_with(entries.take(i as int), ", "@),
        decreases candidates@.len() - i,
    {
        if i > 0 {
            report.append(", ");
        }
        report.append(describe_candidate(&candidates[i]).as_str());
        proof {
            assert(entries.take(i + 1).drop_last() =~= entries.take(i as int));
            assert(entries.take(i + 1).last() == candidate_text(candidates@[i as int]@));
            if i == 0 {
                assert(report@ =~= entries.take(1)[0]);
            }
        }
        i += 1;
    }
    proof {
        assert(entries.take(i as int) =~= entries);
    }
    let mut message = String::from_str("Model file veil.gguf not found. Looked in: ");
    message.append(report.as_str());
    message.append(".");
    message
}

/// Decides on a search: the places in the order in which they were looked
/// at, each with what was seen there.
pub fn resolve_model_path(candidates: &Vec<Candidate>) -> (result: Result<String, String>)
    ensures
        resolves_to(candidate_views(candidates@), resolved_view(result)),
{
    let ghost views = candidate_views(candidates@);
    let mut i: usize = 0;
    while i < candidates.len()
        invariant
            i <= candidates@.len(),
            views == candidate_views(candidates@),
            forall|earlier: int| 0 <= earlier < i ==> views[earlier].status is Missing,
        decreases candidates@.len() - i,
    {
        let candidate = &candidates[i];
        match candidate.status {
            PathStatus::File { .. } => {
                assert(first_present(views, i as int));
                return Ok(candidate.path.clone());
            },
            PathStatus::NotAFile => {
                assert(first_present(views, i as int));
                let mut reason = String::from_str("Model path ");
                reason.append(candidate.path.as_str());
                reason.append(" exists but is not a file.");
                return Err(reason);
            },
            PathStatus::Missing => {},
        }
        i += 1;
    }
    Err(not_found_message(candidates))
}

} // verus!
