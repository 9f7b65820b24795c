//! Naming and planning of meeting recording folders, and the prompts and
//! output handling of the live rolling meeting summary.

pub mod text;
pub mod meeting_folder;
pub mod unique_name;
pub mod rename;
pub mod live_summary;
pub mod summary;
pub mod clock;
pub mod summary_status;
