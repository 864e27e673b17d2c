//! Native-side gateway of a music-playlist application: a typed request
//! pipeline towards a remote backend, the per-area request builders on top of
//! it, and the router that turns deep links and push notifications into
//! ordered service calls and outbound events.
pub mod error;
pub mod models;
pub mod text;
pub mod json;
pub mod decode;
pub mod dto;
pub mod validators;
pub mod services;
pub mod deep_link;
pub mod router;
pub mod notifications;
pub mod external;
pub mod response;
pub mod commands;
pub mod transport;
pub mod pipeline_laws;
