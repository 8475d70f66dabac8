pub mod attribute_history;
pub mod attribute_materialization;
pub mod attribute_store;
pub mod attribute_store_sql;
pub mod audit_log;
pub mod change;
pub mod cluster;
pub mod compact;
pub mod curr_ptr;
pub mod dependency;
pub mod entity;
pub mod entity_set;
pub mod entity_type;
pub mod error;
pub mod graph;
pub mod humantime_text;
pub mod instance;
pub mod interval;
pub mod json;
pub mod kpi;
pub mod materialization_plan;
pub mod materialization_record;
pub mod materialize;
pub mod pattern;
pub mod relation;
pub mod schema;
pub mod sql;
pub mod time;
pub mod text;
pub mod trend_materialization;
pub mod trend_store_change;
pub mod trigger;
pub mod trigger_template;
pub mod trigger_definition;
pub mod virtual_entity;
