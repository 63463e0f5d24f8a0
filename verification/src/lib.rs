//! Canonical bilingual-alignment domain objects, deterministic import
//! primitives, and the policy rules of the local application host, the
//! agent bridge and the embedded agent runtime.
//!
//! - Domain: `ids`, `segment`, `order`, `alignment`, `project`, `revision`.
//! - Import: `import` (encodings, strict decoding, cleanup, segmentation).
//! - Host: `host` (session bindings, retry cache, dispatch checks),
//!   `registry` (bounded insertion-ordered maps), `proposal` (replace and
//!   pipeline proposal lifecycles), `commands` (native command kinds),
//!   `search`, `research` (result pages and summaries), `research_host`
//!   (the research boundary and judgement checks), `runs` and `graph`
//!   (run lifecycles, graph methods and snapshot views), `occurrences`
//!   (how matches become occurrences), `views` (view leases and index
//!   pages), `pipeline` (the pipeline gateway), `feature`, `resources`,
//!   `methods`, `application`.
//! - Agent: `runtime` (configuration, secrets, tool aliases), `agent_loop`
//!   (the run loop's decisions), `provider` (the chat wire as plain values),
//!   `transport` (the local bridge).

pub mod agent_loop;
pub mod alignment;
pub mod application;
pub mod commands;
pub mod error;
pub mod feature;
pub mod graph;
pub mod host;
pub mod ids;
pub mod import;
pub mod methods;
pub mod occurrences;
pub mod order;
pub mod pipeline;
pub mod project;
pub mod provider;
pub mod proposal;
pub mod registry;
pub mod research;
pub mod research_host;
pub mod resources;
pub mod revision;
pub mod runs;
pub mod runtime;
pub mod search;
pub mod segment;
pub mod strings;
pub mod text;
pub mod transport;
pub mod views;

pub use alignment::{
    build_provisional_layout, provisional_alignment_layout, validate_alignment, Alignment,
    AlignmentProducer, Cardinality, InitialLayout,
};
pub use application::{
    is_research_method, lock_error, retryable_method, safe_relative, scoped_method, AppError,
    ContextSnapshot, ResourceFile, TextRange,
};
pub use error::CoreError;
pub use ids::{
    AlignmentId, AnnotationId, AssetId, BookmarkId, CommandId, DocumentId, OperationId, ProjectId,
    RevisionId, SegmentId, SegmentOrderId,
};
pub use import::decode::{decode_bytes, detect_encoding, DecodedText};
pub use import::encoding::Encoding;
pub use import::segmentation::segment_text;
pub use import::{
    EncodingDetection, ImportCleanup, ImportProfile, SegmentBoundary, SegmentPreview,
    SegmentationMode, SegmentationPreview,
};
pub use methods::{research_method, research_methods, MethodDescriptor};
pub use order::{validate_segment_order, OrderedSegmentRef, PositionKey, SegmentOrder};
pub use project::{validate_project, Document, LanguageId, Project, Timestamp};
pub use revision::{ChangeSetSummary, Revision, RevisionState};
pub use segment::{ContentRef, Segment, SegmentKind};
pub use transport::{authorize, is_native_only, requires_binding, AuthToken, TransportError, TransportState};
