pub mod contact_list_status;
pub mod sign_in_status;
