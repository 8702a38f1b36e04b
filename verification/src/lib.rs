//! The model behind a source control side panel and its side-by-side diff views.

pub mod alignment;
pub mod alignment_laws;
pub mod context_server_store;
pub mod entries;
pub mod entry_laws;
pub mod model;
pub mod panel_laws;
pub mod panel_view;
pub mod repositories;
pub mod row_laws;
pub mod scroll_sync;
pub mod settings_pages;
pub mod text;
pub mod view_laws;
pub mod vs_commit_diff_view;
pub mod vs_diff_toolbar;
pub mod vs_file_diff_view;
pub mod vs_git_panel;
pub mod vs_git_panel_settings;
