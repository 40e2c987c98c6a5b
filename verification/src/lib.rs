//! Monthly sensor summary reports for facility assets.
//!
//! A report run reads the asset inventory of an instance, resolves a custom
//! property and a numeric sensor for each asset, fetches the daily summaries
//! of the sensors for one month, and joins them onto the assets. This
//! library holds what a run decides and computes; sending the requests and
//! writing the report file is left to the program that uses it.
//!
//! - [`api_functions`] reads the responses of the asset API and lays out
//!   the summary requests; [`api_laws`] states what holds of it.
//! - [`pipeline`] takes a run from request to request; [`pipeline_laws`]
//!   and [`pipeline_result`] state what holds of every run.
//! - [`json`], [`text`] and [`calendar`] hold what is taken on trust from
//!   `serde_json`, the standard library and `chrono`.

pub mod api_constants;
pub mod api_data;
pub mod api_functions;
pub mod api_laws;
pub mod auth;
pub mod calendar;
pub mod cli;
pub mod json;
pub mod pipeline;
pub mod pipeline_laws;
pub mod pipeline_result;
pub mod ssr_errors;
pub mod text;
