//! Chart layouts and text tables worked out from plain values.
//!
//! A [`PlotPar`] holds the few style knobs of a line or scatter chart;
//! [`line_plot`] turns it, with one X and one Y series per line, into a
//! [`Figure`]: every trace, font, axis, border line and image file of the
//! chart, written out as plain data for a drawing backend to follow.
//! [`plain_line_plot`] does the same for a chart of one fixed style.
//! [`format_table`] lays columns of unequal length out as the rows of a
//! rectangular text table; [`split_fields`] and [`rows_to_columns`] read
//! such a table back.
//!
//! Fractions are held as whole thousandths: a scale of `1000` is the factor
//! one, a legend at `x = 990` sits at 0.99 of the paper's width.

pub mod config;
pub mod datafile;
pub mod figure;
pub mod layout;
pub mod plain;
pub mod plot;
pub mod style;
pub mod table;
pub mod views;

pub use config::{LegendAl, LineOrPoints, PlotPar};
pub use datafile::{rows_to_columns, split_fields, DataError};
pub use figure::{Figure, Trace};
pub use layout::{legend_position, scale_size};
pub use plain::plain_line_plot;
pub use plot::{check_series, line_plot, PlotError};
pub use style::{color_at, dash_at, dash_types, default_colors, DashType, Rgb};
pub use table::{align_columns, format_row, format_table, TableError, TableGrid};
