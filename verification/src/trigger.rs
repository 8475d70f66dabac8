use vstd::prelude::*;

use crate::error::DatabaseError;
use crate::time::Duration;

verus! {

/// A named threshold value of a trigger.
#[derive(Clone, Debug)]
pub struct Threshold {
    pub name: String,
    pub data_type: String,
    pub value: String,
}

pub struct ThresholdView {
    pub name: Seq<char>,
    pub data_type: Seq<char>,
    pub value: Seq<char>,
}

impl View for Threshold {
    type V = ThresholdView;

    open spec fn view(&self) -> ThresholdView {
        ThresholdView { name: self.name@, data_type: self.data_type@, value: self.value@ }
    }
}

/// The views of a list of thresholds.
pub open spec fn thresholds_view(v: Seq<Threshold>) -> Seq<ThresholdView> {
    v.map_values(|t: Threshold| t@)
}

/// A column of the KPI data that a trigger computes.
#[derive(Clone, Debug)]
pub struct KPIDataColumn {
    pub name: String,
    pub data_type: String,
}

pub struct KPIDataColumnView {
    pub name: Seq<char>,
    pub data_type: Seq<char>,
}

impl View for KPIDataColumn {
    type V = KPIDataColumnView;

    open spec fn view(&self) -> KPIDataColumnView {
        KPIDataColumnView { name: self.name@, data_type: self.data_type@ }
    }
}

/// The views of a list of KPI data columns.
pub open spec fn kpi_columns_view(v: Seq<KPIDataColumn>) -> Seq<KPIDataColumnView> {
    v.map_values(|c: KPIDataColumn| c@)
}

/// A trend store part that a trigger reads, with the function mapping its entities.
#[derive(Clone, Debug)]
pub struct TrendStoreLink {
    pub part_name: String,
    pub mapping_function: String,
}

/// A trigger definition as stored in the database.
pub struct Trigger {
    pub name: String,
    pub kpi_data: Vec<KPIDataColumn>,
    pub kpi_function: String,
    pub thresholds: Vec<Threshold>,
    pub condition: String,
    pub weight: String,
    pub notification: String,
    pub tags: Vec<String>,
    pub fingerprint: String,
    pub notification_store: String,
    pub data: String,
    pub trend_store_links: Vec<TrendStoreLink>,
    pub mapping_functions: Vec<String>,
    pub description: String,
    pub granularity: Duration,
    pub enabled: bool,
}

/// Errors in handling triggers.
pub enum TriggerError {
    DatabaseError(DatabaseError),
    Other(String),
}

} // verus!
