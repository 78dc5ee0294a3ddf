//! Resolving a model's metadata into the artifact to fetch, and where to put it.

use vstd::prelude::*;
use vstd::string::StrSliceExecFns;
use vstd::string::StringExecFns;
use crate::api::error::OpsmlError;
use crate::api::text::chars_of;
use crate::api::text::opt_text;
use crate::api::types::CardRequest;
use crate::api::types::ModelDownloadRequest;
use crate::api::types::ModelMetadata;
use crate::api::utils::check_args;
use crate::api::utils::is_success;
use crate::api::utils::valid_identification;
use crate::api::utils::OpsmlPaths;

verus! {

/// Where the last path segment of `path` starts: just behind its last `/`,
/// or at 0 if it has none.
pub open spec fn segment_start(path: Seq<char>) -> int
    decreases path.len(),
{
    if path.len() == 0 || path.last() == '/' {
        path.len() as int
    } else {
        segment_start(path.drop_last())
    }
}

/// The last segment starts inside the path, holds no `/`, and stands at the
/// path's start or behind a `/`.
pub proof fn lemma_segment_start(path: Seq<char>)
    ensures
        0 <= segment_start(path) <= path.len(),
        forall|i: int| segment_start(path) <= i < path.len() ==> path[i] != '/',
        segment_start(path) == 0 || path[segment_start(path) - 1] == '/',
        path.len() > 0 && path.last() != '/' ==> segment_start(path) < path.len(),
    decreases path.len(),
{
    if path.len() == 0 || path.last() == '/' {
    } else {
        let head = path.drop_last();
        lemma_segment_start(head);
        assert forall|i: int| segment_start(path) <= i < path.len() implies path[i] != '/' by {
            if i < head.len() {
                assert(head[i] == path[i]);
            }
        }
        if segment_start(path) > 0 {
            assert(head[segment_start(path) - 1] == path[segment_start(path) - 1]);
        }
    }
}

/// The file name that a path ends in: its last segment, where trailing `/`
/// and segments that are a single `.` do not count. A path made of nothing
/// else has no file name, nor has one whose last segment is `..`.
pub open spec fn file_name_of(path: Seq<char>) -> Option<Seq<char>>
    decreases path.len(),
{
    if path.len() == 0 {
        None
    } else if path.last() == '/' {
        file_name_of(path.drop_last())
    } else {
        let start = segment_start(path);
        let segment = path.subrange(start, path.len() as int);
        if 0 <= start < path.len() {
            if segment == seq!['.'] {
                file_name_of(path.subrange(0, start))
            } else if segment == seq!['.', '.'] {
                None
            } else {
                Some(segment)
            }
        } else {
            None
        }
    }
}

/// A file name is never empty, holds no `/`, and is neither `.` nor `..`.
pub proof fn lemma_file_name(path: Seq<char>)
    ensures
        file_name_of(path) matches Some(name) ==> {
            &&& name.len() > 0
            &&& forall|i: int| 0 <= i < name.len() ==> name[i] != '/'
            &&& name != seq!['.']
            &&& name != seq!['.', '.']
        },
    decreases path.len(),
{
    if path.len() == 0 {
    } else if path.last() == '/' {
        lemma_file_name(path.drop_last());
    } else {
        lemma_segment_start(path);
        let start = segment_start(path);
        let segment = path.subrange(start, path.len() as int);
        if segment == seq!['.'] {
            lemma_file_name(path.subrange(0, start));
        }
    }
}

/// The file name that a path ends in, if it has one.
pub fn file_name(path: &str) -> (name: Option<String>)
    ensures
        opt_text(name) == file_name_of(path@),
{
    let chars = chars_of(path);
    let mut end: usize = chars.len();
    assert(chars@.subrange(0, end as int) =~= path@);
    loop
        invariant
            end <= chars.len(),
            chars@ == path@,
            file_name_of(path@) == file_name_of(chars@.subrange(0, end as int)),
        decreases end,
    {
        let ghost head = chars@.subrange(0, end as int);
        if end == 0 {
            return None;
        }
        if chars[end - 1] == '/' {
            assert(head.drop_last() =~= chars@.subrange(0, end - 1));
            end = end - 1;
            continue;
        }
        let mut start: usize = end - 1;
        assert(head.drop_last() =~= chars@.subrange(0, start as int));
        while start > 0 && chars[start - 1] != '/'
            invariant
                start < end <= chars.len(),
                head == chars@.subrange(0, end as int),
                head.last() != '/',
                segment_start(head) == segment_start(chars@.subrange(0, start as int)),
            decreases start,
        {
            assert(chars@.subrange(0, start as int).drop_last() =~= chars@.subrange(
                0,
                start - 1,
            ));
            start = start - 1;
        }
        assert(segment_start(head) == start);
        let ghost segment = head.subrange(start as int, end as int);
        assert(segment =~= path@.subrange(start as int, end as int));
        if end - start == 1 && chars[start] == '.' {
            assert(segment =~= seq!['.']);
            assert(head.subrange(0, start as int) =~= chars@.subrange(0, start as int));
            end = start;
            continue;
        }
        assert(segment != seq!['.']) by {
            if segment == seq!['.'] {
                assert(segment.len() == 1);
                assert(segment[0] == '.');
            }
        }
        if end - start == 2 && chars[start] == '.' && chars[start + 1] == '.' {
            assert(segment =~= seq!['.', '.']);
            return None;
        }
        assert(segment != seq!['.', '.']) by {
            if segment == seq!['.', '.'] {
                assert(segment.len() == 2);
                assert(segment[0] == '.');
                assert(segment[1] == '.');
            }
        }
        return Some(path.substring_char(start, end).to_string());
    }
}

/// Which artifact of a model to fetch.
#[derive(Debug, Clone, Copy, PartialEq, Eq, Structural)]
pub enum ArtifactSelector {
    /// The optimized artifact, as the command line has it by default.
    Default,
    /// The optimized artifact, asked for expressly.
    ForceOptimized,
    /// The artifact as it was trained.
    ForceNative,
}

impl ArtifactSelector {
    /// The selector that the two command-line flags stand for: the native
    /// artifact when both are set, the default in every other case.
    pub open spec fn of_flags(onnx: bool, no_onnx: bool) -> ArtifactSelector {
        if onnx && no_onnx {
            ArtifactSelector::ForceNative
        } else {
            ArtifactSelector::Default
        }
    }

    /// Whether the selector asks for the optimized artifact.
    pub open spec fn optimized(self) -> bool {
        self != ArtifactSelector::ForceNative
    }

    /// The selector that the two command-line flags stand for.
    pub fn from_flags(onnx: bool, no_onnx: bool) -> (selector: ArtifactSelector)
        ensures
            selector == ArtifactSelector::of_flags(onnx, no_onnx),
    {
        if onnx && no_onnx {
            ArtifactSelector::ForceNative
        } else {
            ArtifactSelector::Default
        }
    }

    /// Whether the optimized artifact is asked for.
    pub fn onnx_requested(&self) -> (requested: bool)
        ensures
            requested == self.optimized(),
    {
        match self {
            ArtifactSelector::ForceNative => false,
            _ => true,
        }
    }
}

/// The opt-out flag overrides the opt-in flag only when both are set: the
/// optimized artifact is asked for unless both flags are true.
pub proof fn lemma_flag_precedence(onnx: bool, no_onnx: bool)
    ensures
        ArtifactSelector::of_flags(onnx, no_onnx).optimized() == !(onnx && no_onnx),
{
}

/// What a metadata query ends in: the decoded metadata of a success response,
/// an error for any other status and for a body that did not decode.
pub fn resolve_metadata(status: u16, decoded: Option<ModelMetadata>) -> (resolved: Result<
    ModelMetadata,
    OpsmlError,
>)
    ensures
        resolved == metadata_outcome(status, decoded),
{
    if !is_success(status) {
        return Err(OpsmlError::UnexpectedStatus { status });
    }
    match decoded {
        Some(metadata) => Ok(metadata),
        None => Err(OpsmlError::DecodeError),
    }
}

/// The outcome of a metadata query, by status and decoded body.
pub open spec fn metadata_outcome(status: u16, decoded: Option<ModelMetadata>) -> Result<
    ModelMetadata,
    OpsmlError,
> {
    if !(200 <= status <= 299) {
        Err(OpsmlError::UnexpectedStatus { status })
    } else {
        match decoded {
            Some(metadata) => Ok(metadata),
            None => Err(OpsmlError::DecodeError),
        }
    }
}

/// The URI that a selection reads: the model's `onnx_uri` when the optimized
/// artifact is asked for, its `model_uri` otherwise.
pub open spec fn selected_uri(onnx: bool, metadata: ModelMetadata) -> Option<Seq<char>> {
    if onnx {
        opt_text(metadata.onnx_uri)
    } else {
        Some(metadata.model_uri@)
    }
}

/// The URI that a selection reads, where there is one, ends in a file name.
/// The other URI is not looked at.
pub open spec fn selectable(onnx: bool, metadata: ModelMetadata) -> bool {
    selected_uri(onnx, metadata) matches Some(uri) ==> file_name_of(uri) is Some
}

/// Whether the URI that a selection reads, where there is one, ends in a file
/// name.
pub fn is_selectable(onnx: bool, model_metadata: &ModelMetadata) -> (selectable: bool)
    ensures
        selectable == self::selectable(onnx, *model_metadata),
{
    if onnx {
        match &model_metadata.onnx_uri {
            Some(uri) => file_name(uri.as_str()).is_some(),
            None => true,
        }
    } else {
        file_name(model_metadata.model_uri.as_str()).is_some()
    }
}

/// The artifact that is fetched: file name and remote URI. With the optimized
/// artifact asked for it is the model's `onnx_uri`, and its absence is an
/// error: the trained artifact never stands in for it. Otherwise it is the
/// `model_uri`.
pub open spec fn selection(onnx: bool, metadata: ModelMetadata) -> Result<
    (Seq<char>, Seq<char>),
    OpsmlError,
> {
    if onnx {
        match metadata.onnx_uri {
            Some(uri) => Ok((file_name_of(uri@)->0, uri@)),
            None => Err(OpsmlError::NoOnnxArtifact),
        }
    } else {
        Ok((file_name_of(metadata.model_uri@)->0, metadata.model_uri@))
    }
}

/// A selection by the views of its texts.
pub open spec fn selection_view(selected: Result<(String, String), OpsmlError>) -> Result<
    (Seq<char>, Seq<char>),
    OpsmlError,
> {
    match selected {
        Ok(pair) => Ok((pair.0@, pair.1@)),
        Err(error) => Err(error),
    }
}

/// Sets the model URI (optimized or trained model) depending on `onnx`, and
/// the file name it ends in.
pub fn get_model_uri(onnx: bool, model_metadata: &ModelMetadata) -> (selected: Result<
    (String, String),
    OpsmlError,
>)
    requires
        selectable(onnx, *model_metadata),
    ensures
        selection_view(selected) == selection(onnx, *model_metadata),
{
    let uri = if onnx {
        match &model_metadata.onnx_uri {
            Some(uri) => uri.clone(),
            None => {
                return Err(OpsmlError::NoOnnxArtifact);
            },
        }
    } else {
        model_metadata.model_uri.clone()
    };
    match file_name(uri.as_str()) {
        Some(filename) => Ok((filename, uri)),
        None => unreached(),
    }
}

/// The selection depends on the flag and on the two URIs alone: metadata that
/// agrees on them gives the same selection.
pub proof fn lemma_selection_deterministic(onnx: bool, first: ModelMetadata, second: ModelMetadata)
    requires
        first.model_uri@ == second.model_uri@,
        opt_text(first.onnx_uri) == opt_text(second.onnx_uri),
    ensures
        selection(onnx, first) == selection(onnx, second),
{
}

/// The name of the file that holds a model's metadata.
pub open spec fn metadata_file() -> Seq<char> {
    "metadata.json"@
}

/// `name` below the directory `dir`.
pub open spec fn below(dir: Seq<char>, name: Seq<char>) -> Seq<char> {
    dir + "/"@ + name
}

/// `name` below the directory `dir`.
pub fn join(dir: &str, name: &str) -> (path: String)
    ensures
        path@ == below(dir@, name@),
{
    String::from_str(dir).concat("/").concat(name)
}

/// What fetching a model's metadata takes: the endpoint, the request body,
/// and the file that the metadata is saved to.
#[derive(Debug)]
pub struct MetadataPlan {
    pub url: String,
    pub request: CardRequest,
    pub save_path: String,
}

/// Plans the fetch of a model's metadata. The arguments must name the model in
/// exactly one way; the metadata goes to `metadata.json` below `write_dir`.
pub fn plan_metadata(
    name: Option<String>,
    version: Option<String>,
    uid: Option<String>,
    url: &str,
    write_dir: &str,
) -> (planned: Result<MetadataPlan, OpsmlError>)
    ensures
        !valid_identification(name, version, uid) ==> planned matches Err(
            OpsmlError::InvalidArguments,
        ),
        valid_identification(name, version, uid) ==> {
            &&& planned matches Ok(plan)
            &&& plan.url@ == url@ + OpsmlPaths::MetadataDownload.route()
            &&& plan.request.name == name
            &&& plan.request.version == version
            &&& plan.request.uid == uid
            &&& plan.save_path@ == below(write_dir@, metadata_file())
        },
{
    match check_args(&name, &version, &uid) {
        Err(error) => Err(error),
        Ok(()) => Ok(
            MetadataPlan {
                url: OpsmlPaths::MetadataDownload.as_str(url),
                request: CardRequest { name, version, uid },
                save_path: join(write_dir, "metadata.json"),
            },
        ),
    }
}

/// What fetching a model's artifact takes: the endpoint, the request body,
/// the artifact's file name and the file it is saved to.
#[derive(Debug)]
pub struct DownloadPlan {
    pub url: String,
    pub request: ModelDownloadRequest,
    pub filename: String,
    pub local_save_path: String,
}

/// Plans the fetch of a model's artifact from its metadata. Where the
/// optimized artifact is asked for and the model has none, nothing is
/// planned, and so nothing is requested.
pub fn plan_download(
    selector: ArtifactSelector,
    model_metadata: &ModelMetadata,
    url: &str,
    write_dir: &str,
) -> (planned: Result<DownloadPlan, OpsmlError>)
    requires
        selectable(selector.optimized(), *model_metadata),
    ensures
        match selection(selector.optimized(), *model_metadata) {
            Ok(chosen) => {
                &&& planned matches Ok(plan)
                &&& plan.url@ == url@ + OpsmlPaths::Download.route()
                &&& plan.request.read_path@ == chosen.1
                &&& plan.filename@ == chosen.0
                &&& plan.local_save_path@ == below(write_dir@, chosen.0)
            },
            Err(error) => planned matches Err(reported) && reported == error,
        },
{
    match get_model_uri(selector.onnx_requested(), model_metadata) {
        Err(error) => Err(error),
        Ok((filename, model_uri)) => {
            let local_save_path = join(write_dir, filename.as_str());
            Ok(
                DownloadPlan {
                    url: OpsmlPaths::Download.as_str(url),
                    request: ModelDownloadRequest { read_path: model_uri },
                    filename,
                    local_save_path,
                },
            )
        },
    }
}

} // verus!
