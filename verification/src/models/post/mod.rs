pub mod slug;
