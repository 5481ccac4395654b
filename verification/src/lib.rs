//! A verified lifecycle and bookkeeping layer for a non-reentrant,
//! process-global native HTML rendering engine.
//!
//! The native engine may be initialized at most once per process, every
//! operation must run on the thread that initialized it, and only one
//! conversion job may be in flight at a time.  It signals completion and
//! errors exclusively through callbacks with no user-data slot, so the
//! wrapper must correlate callbacks to jobs out of band.  This crate
//! holds the rules: the engine lifecycle state machine, the callback
//! registry that bridges asynchronous signaling to one synchronous
//! result, and the ownership-transfer protocol for the settings and
//! converter handles that flow into the engine.  The native calls
//! themselves are made by an unverified shell around this library;
//! their outcomes enter the verified functions as plain arguments.

pub mod engine;
pub mod error;
pub mod image;
pub mod pdf;
pub mod registry;
pub mod settings;
pub mod text;

pub use crate::engine::current_thread_id;
pub use crate::engine::EngineCore;
pub use crate::engine::EngineState;
pub use crate::engine::EngineView;
pub use crate::error::Error;
pub use crate::image::image_init;
pub use crate::image::ImageApplication;
pub use crate::image::ImageBuilder;
pub use crate::image::ImageConverter;
pub use crate::image::ImageFormat;
pub use crate::image::ImageGlobalSettings;
pub use crate::image::ImageGuard;
pub use crate::image::ImageOutput;
pub use crate::pdf::pdf_init;
pub use crate::pdf::PageSource;
pub use crate::pdf::PdfConverter;
pub use crate::pdf::PdfGlobalSettings;
pub use crate::pdf::PdfGuard;
pub use crate::pdf::PdfObjectSettings;
pub use crate::pdf::PdfOutput;
pub use crate::registry::CallbackRegistry;
pub use crate::settings::SettingsMap;
