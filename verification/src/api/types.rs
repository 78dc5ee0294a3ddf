//! The values exchanged with the registry.
//!
//! A JSON value that the registry sends and this library only passes on or
//! prints is held as its JSON text. A JSON object with free keys is held as a
//! list of pairs, or as a [`StringMap`] where its values are texts.

use vstd::prelude::*;
use crate::api::tags::StringMap;

verus! {

/// The body of a list query.
#[derive(Debug)]
pub struct ListTableRequest {
    pub table_name: String,
    pub name: Option<String>,
    pub team: Option<String>,
    pub version: Option<String>,
    pub uid: Option<String>,
    pub limit: Option<i16>,
    pub tags: Option<StringMap>,
    pub max_date: Option<String>,
}

/// Names one record, by name and version or by uid.
#[derive(Debug)]
pub struct CardRequest {
    pub name: Option<String>,
    pub version: Option<String>,
    pub uid: Option<String>,
}

/// Asks for the artifact stored at a path.
#[derive(Debug)]
pub struct ModelDownloadRequest {
    pub read_path: String,
}

/// One registry record.
#[derive(Debug)]
pub struct Card {
    pub name: String,
    pub team: String,
    pub date: String,
    pub user_email: String,
    pub version: String,
    pub uid: String,
    pub tags: StringMap,
}

/// The metrics of a model: for each metric name, its recorded values.
#[derive(Debug)]
pub struct ListMetricResponse {
    pub metrics: Vec<(String, Vec<Metric>)>,
}

/// One recorded metric. `value`, `step` and `timestamp` hold JSON text as it
/// was received: a number stays the number that was sent.
#[derive(Debug)]
pub struct Metric {
    pub name: String,
    pub value: String,
    pub step: Option<String>,
    pub timestamp: Option<String>,
}

impl Clone for Metric {
    fn clone(&self) -> (copy: Self)
        ensures
            copy == *self,
    {
        Metric {
            name: self.name.clone(),
            value: self.value.clone(),
            step: self.step.clone(),
            timestamp: self.timestamp.clone(),
        }
    }
}

/// One row of the metric table.
#[derive(Debug)]
pub struct MetricTable {
    pub metric: String,
    pub value: String,
    pub step: String,
    pub timestamp: String,
}

/// One row of the comparison table.
#[derive(Debug)]
pub struct CompareMetricTable {
    pub champion_name: String,
    pub champion_version: String,
    pub metric: String,
    pub champion_value: String,
    pub challenger_value: String,
    pub challenger_win: bool,
}

/// The answer to a list query.
#[derive(Debug)]
pub struct ListCardResponse {
    pub cards: Vec<Card>,
}

/// One row of the card table.
#[derive(Debug)]
pub struct CardTable {
    pub name: String,
    pub team: String,
    pub date: String,
    pub user_email: String,
    pub version: String,
    pub uid: String,
}

/// The features a model takes and gives, each with its description as JSON text.
#[derive(Debug)]
pub struct ModelDataSchema {
    pub data_type: String,
    pub input_features: StringMap,
    pub output_features: StringMap,
}

/// The schema of a model's data.
#[derive(Debug)]
pub struct DataSchema {
    pub model_data_schema: ModelDataSchema,
    pub input_data_schema: Option<StringMap>,
}

/// What the registry knows of a model. `model_uri` is always there;
/// `onnx_uri` only where an optimized export exists. `sample_data` maps a
/// feature name to its value as JSON text.
#[derive(Debug)]
pub struct ModelMetadata {
    pub model_name: String,
    pub model_type: String,
    pub onnx_uri: Option<String>,
    pub onnx_version: Option<String>,
    pub model_uri: String,
    pub model_version: String,
    pub model_team: String,
    pub sample_data: StringMap,
    pub data_schema: DataSchema,
}

/// Asks how a challenger fares against champions on some metrics.
/// `lower_is_better` runs parallel to `metric_name`.
#[derive(Debug)]
pub struct CompareMetricRequest {
    pub metric_name: Vec<String>,
    pub lower_is_better: Vec<bool>,
    pub challenger_uid: String,
    pub champion_uid: Vec<String>,
}

/// One comparison of a champion with the challenger on one metric. The
/// registry decides `challenger_win`; nothing here recomputes it.
#[derive(Debug)]
pub struct BattleReport {
    pub champion_name: String,
    pub champion_version: String,
    pub champion_metric: Option<Metric>,
    pub challenger_metric: Option<Metric>,
    pub challenger_win: bool,
}

/// The answer to a comparison: for each champion, its reports.
#[derive(Debug)]
pub struct CompareMetricResponse {
    pub challenger_name: String,
    pub challenger_version: String,
    pub report: Vec<(String, Vec<BattleReport>)>,
}

} // verus!
