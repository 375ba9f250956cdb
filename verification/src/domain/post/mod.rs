pub mod content;
pub mod slug;
pub mod title;
