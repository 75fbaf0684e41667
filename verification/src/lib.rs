//! A small documentation explorer: binds to a root directory, searches file
//! titles and decoded contents for a pattern over a snapshot of the tree, and
//! hands matched documents to an external viewer, editor or runner.

pub mod doc;
pub mod docset;
pub mod error;
pub mod laws;
pub mod repo;
pub mod search;
pub mod text;
pub mod tree;

pub use doc::ContentKind;
pub use doc::Doc;
pub use doc::HandlerAction;
pub use doc::HandlerRequest;
pub use docset::DocSet;
pub use error::ExplorerError;
pub use repo::DocsRepo;
pub use repo::RootProbe;
pub use search::SearchMode;
pub use search::SearchQuery;
pub use tree::Entry;
pub use text::contains_pattern;
pub use text::is_substring_of;
