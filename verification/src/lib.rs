//! Verified core of the Done task manager: the preference panel, the
//! sidebar's smart lists, the stored task lists and the task details pane.
pub mod preferences;
pub mod dates;
pub mod task_details;
pub mod icon_names;
pub mod sidebar_list;
pub mod lists;
pub mod text;
