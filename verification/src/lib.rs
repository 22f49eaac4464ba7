pub mod anthropic;
pub mod email;
pub mod envelope;
pub mod ids;
pub mod index;
pub mod lifecycle;
pub mod model;
pub mod rerank;
pub mod search_events;
pub mod text;
pub mod work_item;
