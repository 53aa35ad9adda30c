pub mod buffer_ring;
pub mod compiler;
pub mod feature_gate;
pub mod features;
pub mod http;
pub mod http_paths;
pub mod http_responses;
pub mod maybe_deallocate_chunk;
pub mod maybe_heap_chunk;
pub mod parsing;
pub mod proxy_getter;
pub mod proxy_shortcuts;
pub mod return_id;
pub mod shortcuts;
