//! Planning and bookkeeping for a backward, chunk-by-chunk crawl of a post
//! catalog: chunk boundaries, directory and file names, the catalog filter,
//! the normalized post record and the per-chunk metadata.

pub mod text;
pub mod stamp;
pub mod post;
pub mod chunk;
pub mod fetch;
