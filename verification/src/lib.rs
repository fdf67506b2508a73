//! Skeleton of an audio-effect plugin: a store of normalized control
//! parameters shared between the host's UI path and the realtime audio path,
//! a per-sample gain transform over audio buffers, and the lifecycle of an
//! optional editor window with a stub renderer.
//!
//! Control values and audio samples are carried as the 32-bit patterns of the
//! host's normalized floats; the core treats them as opaque words, so storing
//! and fetching are exact, and the floating-point steps themselves (the sample
//! transform and the display formatting) are supplied by the caller and
//! described through their own contracts.

pub mod editor;
pub mod params;
pub mod plugin;

pub use editor::EditorEvent;
pub use editor::MyPluginEditor;
pub use editor::MyRenderer;
pub use params::RustVstTemplateParameters;
pub use params::HALF_BITS;
pub use plugin::PluginCategory;
pub use plugin::PluginInfo;
pub use plugin::RustVstTemplate;
