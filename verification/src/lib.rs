//! Strongly-typed chat-platform API records with a verified tagged-variant
//! codec: each union value is carried on the wire as a JSON object whose
//! `@type` field names the active variant, and the codec maps such objects
//! to and from the in-memory types.

pub mod call_server_type;
pub mod chat_member_status;
pub mod errors;
pub mod formatted_text;
pub mod input_file;
pub mod input_sticker;
pub mod json;
pub mod mask_position;
pub mod message_copy_options;
pub mod page_block;
pub mod poll_type;
pub mod robject;
pub mod supergroup;
pub mod web_page_instant_view;
pub mod wire;
