//! Comparison of version strings under the dewey ordering scheme.
//!
//! A version string is tokenized left to right into typed components:
//! numeric runs, dot/dash separators, the modifier keywords `alpha`, `beta`,
//! `pre`, `rc` and `pl`, single fallback characters, and an end-of-input
//! sentinel. Two strings are compared component by component under a partial
//! order: most pairs are ranked, a few are declared equal (a trailing `.0`,
//! `pl0`, `.` or `-` adds nothing), and some pairs of structurally different
//! components are incomparable, in which case the whole comparison is.

pub mod component;
pub mod laws;
pub mod version;

pub use component::Component;
pub use version::Version;
pub use version::VersionCmp;
