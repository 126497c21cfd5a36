//! Core logic of a chat assistant that augments a hosted completion API with
//! platform-native tools: reply-chain history reconstruction, multi-modal
//! content assembly, a bounded completion/tool loop, and response planning.

pub mod auto_response;
pub mod context;
pub mod conversation;
pub mod editdist;
pub mod error;
pub mod fuzzy_search;
pub mod joke;
pub mod jsonval;
pub mod media;
pub mod openrouter;
pub mod s3_index;
pub mod strutil;
pub mod response;
pub mod textnorm;
pub mod tool_loop;
pub mod tools;
pub mod types;
