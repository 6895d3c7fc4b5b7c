//! A verified core for a local publishing pipeline: image ingestion,
//! frontmatter rendering, and the git publish/sync orchestration machines.

pub mod bytes;
pub mod draft;
pub mod gitops;
pub mod ingest;
pub mod media;
pub mod pipeline;
pub mod publish_flow;
pub mod scan;
pub mod settings;
pub mod sync_flow;

