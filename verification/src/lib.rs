//! Core logic of an MSN Messenger (MSNP11) desktop client: presence
//! statuses, the contact list, conversations, the sign-in form and the
//! settings, each as a verified state machine that the user interface drives.

pub mod status;
pub mod text;
pub mod models;
pub mod contact_table;
pub mod contact_repository;

pub mod enums;
pub mod screens;
pub mod release;
pub mod links;
pub mod settings;
pub mod main_window;
pub mod sign_in_flow;
pub mod keyboard;
