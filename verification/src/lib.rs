//! Core of a status-bar shell: the bar lifecycle driven by display outputs,
//! the controller/widget update bridge, and the small primitives both rely on.
//!
//! Nothing in here touches a toolkit, a display server or a thread. The
//! program around the library owns those: it hands the library what they
//! report, as plain values, and carries out what the library decides.

pub mod bar;
pub mod bridge_laws;
pub mod config;
pub mod error;
pub mod geometry;
pub mod ids;
pub mod lifecycle;
pub mod lifecycle_laws;
pub mod modules;
pub mod output;
pub mod paths;
pub mod style;

pub use bar::Bar;
pub use config::Config;
pub use geometry::WidgetGeometry;
pub use lifecycle::Ironbar;
pub use modules::label::LabelModule;
pub use modules::WidgetContext;
