//! Builds pre-filled "new issue" URLs for Git hosting providers out of a
//! crash description and build metadata: a formatted diagnostic report body
//! is percent-encoded into the query string of the provider's issue form.

pub mod encoding;
pub mod provider;
pub mod report;
