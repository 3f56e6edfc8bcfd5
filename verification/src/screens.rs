pub mod add_contact;
pub mod contacts;
pub mod conversation;
pub mod dialog;
pub mod invite;
pub mod personal_settings;
pub mod sign_in;
