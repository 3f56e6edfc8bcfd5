pub mod common;
pub mod contact;
pub mod display_picture;
pub mod message;
pub mod user;
