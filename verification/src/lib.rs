//! Rendering of schematic pages into ordered drawing primitives and canvas
//! operations.
//!
//! All lengths are fixed-point integers: one drawing unit is [`units::ONE`]
//! counts. Angles are whole degrees.

pub mod border;
pub mod bounds;
pub mod cairo_plotter;
pub mod capture;
pub mod color;
pub mod document;
pub mod draw;
pub mod drawable;
pub mod elements;
pub mod error;
pub mod items;
pub mod markup;
pub mod order;
pub mod parts;
pub mod pins;
pub mod render;
pub mod rows;
pub mod schema;
pub mod store;
pub mod symbol;
pub mod theme;
pub mod transform;
pub mod units;

pub use self::cairo_plotter::{CairoPlotter, ImageType, Plotter};
pub use self::error::Error;
pub use self::items::{Arc, Circle, Line, LineCap, PlotItem, Polyline, Rectangle, Text};
pub use self::schema::SchemaPlot;
pub use self::store::{get_plots, reset_plots, store_plot, PlotStore};
pub use self::theme::{Theme, Themer};
