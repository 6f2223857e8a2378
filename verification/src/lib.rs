//! Verified core of the March 7th desktop companion: reminder and focus
//! state machines, presentation policies, and data-set validation rules.
pub mod data_directory;
pub mod desktop;
pub mod focus;
pub mod import_session;
pub mod characters;
pub mod text;
pub mod build_info;
pub mod build_identity;
pub mod local_backup;
pub mod reminders;
