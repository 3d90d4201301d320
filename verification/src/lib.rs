//! Sampling and chart planning for a panel that shows live system metrics.
//!
//! The crate keeps a bounded history of samples per metric, resolves colour
//! tokens against a palette, orders and places bars, and turns the description
//! of a chart into the layers or bars that a drawing surface is handed. All of
//! it is integer arithmetic, and every function states what it returns in a
//! contract that Verus proves.
//!
//! - [`history`]: the bounded history of samples.
//! - [`color`]: colour tokens, the palette, and literals in hexadecimal.
//! - [`measure`]: lengths and ratios in thousandths.
//! - [`config`]: the components of the panel and their views.
//! - [`run_chart`] and [`bar_chart`]: the two kinds of chart.
//! - [`plan`]: from a view and its samples to a chart, its size and its drawing.
//! - [`layout`]: the order of the charts in the panel and the gaps between them.
//! - [`monitor`]: the samples of every component, ticks, and changes of configuration.

pub mod bar_chart;
pub mod color;
pub mod config;
pub mod equal;
pub mod history;
pub mod layout;
pub mod measure;
pub mod monitor;
pub mod plan;
pub mod run_chart;
