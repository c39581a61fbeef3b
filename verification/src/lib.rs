//! A manifest-driven task orchestrator's execution engine: a taskset is a
//! directed acyclic graph of tasks stratified into layers; each task fans
//! out over items and table rows on the workers its name patterns match,
//! with templated variables, retries, and break exceptions threading
//! results through tasklines. All outside work — template rendering,
//! sub-processes, files, other manifests — is requested from a driver
//! through an explicit feed of recorded answers, so every decision the
//! engine takes is a function of its inputs.

pub mod cmd;
pub mod value;
pub mod strings;
pub mod error;
pub mod tsort;
pub mod re;
pub mod matches;
pub mod quote;
pub mod json;
pub mod context;
pub mod fs_store;
pub mod vars;
pub mod filters;
pub mod parse;
pub mod exts;
pub mod task_result;
pub mod effects;
pub mod items;
pub mod taskline;
pub mod table;
pub mod task;
pub mod task_type;
pub mod engine;
pub mod module;
pub mod worker;
pub mod runner;
pub mod provision;
