//! Julia-set rendering and a two-request joke fetcher, with their rules
//! stated as contracts.

pub mod canvas;
pub mod config;
pub mod encode;
pub mod escape;
pub mod fetch;
pub mod julia;
pub mod render;
