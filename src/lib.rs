//! Serves an interactive API-documentation viewer under a URL prefix chosen by
//! the host server: a redirect at the mount root, the viewer's configuration
//! document, the specification document itself and the viewer's bundled assets.

pub mod paths;
pub mod routes;
pub mod bundle;
pub mod content_type;
pub mod serve;
