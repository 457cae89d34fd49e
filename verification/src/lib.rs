//! A message-driven gallery component: on request it walks a two-stage fetch
//! cycle (a directory listing, then the content of one selected entry) and
//! projects its state onto a minimal document tree with one inline image.
//!
//! The library holds the component's whole decision logic: the reducer over
//! messages, the shaping of each completion into a message, and the view
//! projection. The environment around it performs the HTTP requests the
//! reducer asks for and hands their completions back as messages.

pub mod laws;
pub mod model;
pub mod msg;
pub mod view;
