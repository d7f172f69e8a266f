//! Viewport windowing for a virtualized list of items whose heights are
//! estimated until they are measured.
//!
//! The library holds the decisions: which items to materialize for a given
//! scroll position, the spacer heights around them, the table of item
//! heights, the rate limiting of scroll notifications, the bookkeeping of
//! resize subscriptions and the lifecycle of a list.

pub mod binding;
pub mod controller;
pub mod sampler;
pub mod size_table;
pub mod window;

pub use binding::{BindStep, Binding, ResizeObserver};
pub use controller::{ListController, Phase};
pub use sampler::{SampleStep, ScrollSampler};
pub use size_table::{ItemSize, SizeTable};
pub use window::{compute_window, Window, EXTRA_BUFFER};
