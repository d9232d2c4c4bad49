//! Pick files of a remote repository and fetch their contents: the decisions
//! of the tree listing, of the interactive picker's result and of the
//! bounded fetch pipeline, each with its contract.
pub mod error;
pub mod fetch;
pub mod listing;
pub mod repo;
pub mod select;
pub mod text;

pub use error::{Error, ErrorKind};
pub use fetch::{fetch_action, fetch_targets, raw_url, FetchAction, FetchEvent, FetchQueue, FETCH_LIMIT};
pub use listing::{check_status, check_tree_response, dentries_from_tree, keep_blobs, media_type, tree_url, GitHubDirEntry};
pub use repo::split_repo;
pub use select::{selection_from_exit, split_text, trim_end_text};
