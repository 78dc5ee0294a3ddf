//! The arguments of each command, and the request each set of arguments
//! stands for.

use vstd::prelude::*;
use crate::api::download_file::below;
use crate::api::download_file::metadata_file;
use crate::api::download_file::plan_metadata;
use crate::api::download_file::ArtifactSelector;
use crate::api::download_file::MetadataPlan;
use crate::api::error::OpsmlError;
use crate::api::list_cards::list_request;
use crate::api::list_cards::named_registry;
use crate::api::metrics::compare_metric_request;
use crate::api::metrics::metric_request;
use crate::api::tags::opt_texts;
use crate::api::tags::tag_filter;
use crate::api::text::opt_str;
use crate::api::text::opt_text;
use crate::api::types::CardRequest;
use crate::api::types::CompareMetricRequest;
use crate::api::types::ListTableRequest;
use crate::api::utils::valid_identification;
use crate::api::utils::OpsmlPaths;

verus! {

/// Arguments of the card listing.
#[derive(Debug)]
pub struct ListCards {
    /// Name of the registry (data, model, run, etc)
    pub registry: String,
    /// Name given to a card
    pub name: Option<String>,
    /// Team name
    pub team: Option<String>,
    /// Card version
    pub version: Option<String>,
    /// Card uid
    pub uid: Option<String>,
    /// Card limit
    pub limit: Option<i16>,
    /// Tag name
    pub tag_name: Option<Vec<String>>,
    /// Tag values
    pub tag_value: Option<Vec<String>>,
    /// max date
    pub max_date: Option<String>,
}

/// Arguments of the metadata download.
#[derive(Debug)]
pub struct ModelMetadataArgs {
    /// Name given to card
    pub name: Option<String>,
    /// Card version
    pub version: Option<String>,
    /// Card uid
    pub uid: Option<String>,
    /// Write directory
    pub write_dir: String,
}

/// Arguments of the model download.
#[derive(Debug)]
pub struct DownloadModelArgs {
    /// Name given to card
    pub name: Option<String>,
    /// Card version
    pub version: Option<String>,
    /// Card uid
    pub uid: Option<String>,
    /// Write directory
    pub write_dir: String,
    /// Set to fetch the trained model in place of the optimized one
    pub no_onnx: bool,
    /// Set, as it is by default, to fetch the optimized model
    pub onnx: bool,
}

/// Arguments of the metric listing.
#[derive(Debug)]
pub struct ModelMetricArgs {
    /// Name given to card
    pub name: Option<String>,
    /// Card version
    pub version: Option<String>,
    /// Card uid
    pub uid: Option<String>,
}

/// Arguments of the metric comparison.
#[derive(Debug)]
pub struct CompareMetricArgs {
    /// Metric name
    pub metric_name: Vec<String>,
    /// If lower is better
    pub lower_is_better: Vec<bool>,
    /// Id of new model challenger
    pub challenger_uid: String,
    /// Ids of the champions
    pub champion_uid: Vec<String>,
}

/// An optional string, borrowed.
pub fn borrowed(item: &Option<String>) -> (text: Option<&str>)
    ensures
        opt_str(text) == opt_text(*item),
{
    match item {
        Some(given) => Some(given.as_str()),
        None => None,
    }
}

impl ListCards {
    /// The list query that the arguments stand for.
    pub fn request(&self) -> (request: ListTableRequest)
        requires
            named_registry(self.registry@) is Some,
        ensures
            request.table_name@ == named_registry(self.registry@)->0.table_name(),
            opt_text(request.name) == opt_text(self.name),
            opt_text(request.team) == opt_text(self.team),
            opt_text(request.version) == opt_text(self.version),
            opt_text(request.uid) == opt_text(self.uid),
            request.limit == self.limit,
            request.tags is Some,
            request.tags->0@ == tag_filter(opt_texts(self.tag_name), opt_texts(self.tag_value)),
            opt_text(request.max_date) == opt_text(self.max_date),
    {
        list_request(
            self.registry.as_str(),
            borrowed(&self.name),
            borrowed(&self.team),
            borrowed(&self.version),
            borrowed(&self.uid),
            self.limit,
            &self.tag_name,
            &self.tag_value,
            borrowed(&self.max_date),
        )
    }
}

impl ModelMetadataArgs {
    /// The metadata fetch that the arguments stand for, below the base URL.
    pub fn plan(&self, url: &str) -> (planned: Result<MetadataPlan, OpsmlError>)
        ensures
            !valid_identification(self.name, self.version, self.uid) ==> planned matches Err(
                OpsmlError::InvalidArguments,
            ),
            valid_identification(self.name, self.version, self.uid) ==> {
                &&& planned matches Ok(plan)
                &&& plan.url@ == url@ + OpsmlPaths::MetadataDownload.route()
                &&& plan.request.name == self.name
                &&& plan.request.version == self.version
                &&& plan.request.uid == self.uid
                &&& plan.save_path@ == below(self.write_dir@, metadata_file())
            },
    {
        plan_metadata(
            self.name.clone(),
            self.version.clone(),
            self.uid.clone(),
            url,
            self.write_dir.as_str(),
        )
    }
}

impl DownloadModelArgs {
    /// The artifact that the two flags ask for.
    pub fn selector(&self) -> (selector: ArtifactSelector)
        ensures
            selector == ArtifactSelector::of_flags(self.onnx, self.no_onnx),
    {
        ArtifactSelector::from_flags(self.onnx, self.no_onnx)
    }

    /// The metadata fetch that precedes the download, below the base URL.
    pub fn plan(&self, url: &str) -> (planned: Result<MetadataPlan, OpsmlError>)
        ensures
            !valid_identification(self.name, self.version, self.uid) ==> planned matches Err(
                OpsmlError::InvalidArguments,
            ),
            valid_identification(self.name, self.version, self.uid) ==> {
                &&& planned matches Ok(plan)
                &&& plan.url@ == url@ + OpsmlPaths::MetadataDownload.route()
                &&& plan.request.name == self.name
                &&& plan.request.version == self.version
                &&& plan.request.uid == self.uid
                &&& plan.save_path@ == below(self.write_dir@, metadata_file())
            },
    {
        plan_metadata(
            self.name.clone(),
            self.version.clone(),
            self.uid.clone(),
            url,
            self.write_dir.as_str(),
        )
    }
}

impl ModelMetricArgs {
    /// The metric query that the arguments stand for.
    pub fn request(&self) -> (request: CardRequest)
        ensures
            opt_text(request.name) == opt_text(self.name),
            opt_text(request.version) == opt_text(self.version),
            opt_text(request.uid) == opt_text(self.uid),
    {
        metric_request(borrowed(&self.name), borrowed(&self.version), borrowed(&self.uid))
    }
}

impl CompareMetricArgs {
    /// The comparison query that the arguments stand for.
    pub fn request(&self) -> (request: CompareMetricRequest)
        ensures
            request.metric_name@ == self.metric_name@,
            request.lower_is_better@ == self.lower_is_better@,
            request.challenger_uid@ == self.challenger_uid@,
            request.champion_uid@ == self.champion_uid@,
    {
        compare_metric_request(
            &self.metric_name,
            &self.lower_is_better,
            self.challenger_uid.as_str(),
            &self.champion_uid,
        )
    }
}

} // verus!
