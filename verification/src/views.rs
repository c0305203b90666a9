//! The panels of the screen: their state and what they show.

pub mod settings_view;
pub mod connection_modal;
pub mod value_view;
pub mod keys_list_view;
pub mod key_info_view;
pub mod status_view;
