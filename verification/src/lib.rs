//! Decision and data-shaping logic of a Windows desktop companion: desktop icon
//! toggling, taskbar transparency and auto-hide, idle privacy actions, hotkeys,
//! performance sampling, the media panel and the AI assistant proxy.
//!
//! Two modules stand on their own: `perf_widget` (layout of a read-out drawn
//! on the taskbar) and `translate` (selection translation). The application
//! shell does not use them; they are kept as verified libraries.
pub mod text;
pub mod ai;
pub mod hotkey;
pub mod geom;
pub mod icons;
pub mod hooks;
pub mod audio;
pub mod fullscreen;
pub mod privacy;
pub mod perf_widget;
pub mod taskbar;
pub mod taskbar_engine;
pub mod app_state;
pub mod translate;
pub mod background;
pub mod perf;
pub mod window_style;
pub mod hw;
