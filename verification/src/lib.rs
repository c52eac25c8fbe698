//! Typed clipboard change events: classification of clipboard content into a
//! single [`Body`], MIME resolution for images, the observer and driver state
//! machines, and the subscriber registry that fans results out.

pub mod body;
pub mod classifier;
pub mod config;
pub mod driver;
pub mod error;
pub mod image;
pub mod mime_type;
pub mod observer;
pub mod priority;
pub mod registry;
pub mod snapshot;
pub mod text;

pub use body::{Body, ClipboardImage, FilePath};
pub use config::ClipboardConfig;
pub use error::{ClipboardError, ClipboardResult};
pub use mime_type::{ImageMimeType, ParseImageMimeTypeError};
