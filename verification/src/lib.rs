//! Hosting layer for embedding a managed-code runtime in a native process.
//!
//! The library locates the runtime's shared library by a fixed path
//! convention, assembles the configuration property bag the runtime's
//! initialize entry point expects, translates the 32-bit status code every
//! hosting call returns, and drives the initialize -> use -> shutdown state
//! machine. The actual foreign calls (loading the library, resolving the
//! four entry points, invoking them) are performed by the embedding process:
//! this crate prepares each call as a plain-data request and interprets its
//! reply, so that every decision along the way is verified.

pub mod assemblies;
pub mod clr;
pub mod properties;
pub mod result;
