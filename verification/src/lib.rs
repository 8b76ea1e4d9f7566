//! Verified core of a Shadertoy client: request planning, the in-memory
//! metadata cache and the on-disk media store, all free of I/O.
//!
//! Every function here computes on plain values. The caller performs the
//! network and filesystem work that the returned requests and actions name,
//! and hands the outcome back.

pub mod api;
pub mod cache;
pub mod commands;
pub mod decimal;
pub mod error;
pub mod media;
pub mod paging;
pub mod query;
pub mod records;
pub mod redact;
pub mod sort;
pub mod url;

pub use api::{ShaderInfo, ShadertoyAPI};
pub use cache::MetadataCache;
pub use commands::{get_shader, get_shaders, map_error};
pub use error::{FetchError, MediaError};
pub use media::{assemble_body, get_media_path, media_file_name, MediaAction, MediaEvent};
pub use query::QueryParams;
pub use redact::scrub;
pub use records::{Info, Input, Output, RenderPass, Sampler, Shader, ShaderContainer, Shaders};
pub use sort::SortBy;
