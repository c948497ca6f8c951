//! Insight values produced by the pipeline and the caller-supplied
//! configuration for insight generation.

use vstd::prelude::*;

verus! {

/// One generated insight; immutable once produced, and broadcast to zero or
/// many subscribers.
#[derive(Clone, Debug)]
pub struct Insight {
    pub title: String,
    pub description: String,
    /// A numeric value quoted from the insight text, if one was found.
    pub value: Option<String>,
    pub visualization: Option<Visualization>,
    pub tags: Vec<String>,
}

/// A visualization suggestion attached to an insight.
#[derive(Clone, Debug)]
pub struct Visualization {
    /// Kind of visualization, such as `bar`, `line` or `pie`.
    pub kind: String,
    /// Data series to draw.
    pub series: Vec<Series>,
    /// Further options, serialized by the transport layer.
    pub options: Option<String>,
}

/// One data series of a visualization; the points are integer measures.
#[derive(Clone, Debug)]
pub struct Series {
    pub name: String,
    pub data: Vec<i64>,
    pub color: Option<String>,
}

/// Caller-supplied configuration for one insights request.
#[derive(Clone, Debug)]
pub struct AgentConfig {
    /// Which agent to use.
    pub agent_type: String,
    /// Optional visualization preferences.
    pub visualization: Option<VisualizationConfig>,
    /// Optional filtering criteria.
    pub filters: Option<Vec<Filter>>,
}

/// Visualization preferences of one insights request.
#[derive(Clone, Debug)]
pub struct VisualizationConfig {
    pub preferred_types: Option<Vec<String>>,
    pub aggregation: Option<Aggregation>,
    pub colors: Option<Vec<String>>,
}

/// Aggregation settings of a visualization preference.
#[derive(Clone, Debug)]
pub struct Aggregation {
    pub time_period: Option<String>,
    pub function: Option<String>,
    pub group_by: Option<Vec<String>>,
}

/// One filtering criterion of an insights request.
#[derive(Clone, Debug)]
pub struct Filter {
    pub field: String,
    pub operator: String,
    pub value: String,
}

} // verus!
