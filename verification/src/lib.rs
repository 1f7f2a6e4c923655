//! The logic of the Oxfeed web front end: alerts, colors derived from
//! names, the sidebar links, item selection, the pager, the tag
//! autocompletion and the requests sent to the Oxfeed API.
pub mod action;
pub mod api;
pub mod alert;
pub mod autocomplete;
pub mod color;
pub mod form;
pub mod items;
pub mod json;
pub mod pager;
pub mod route;
pub mod search;
pub mod sidebar;
pub mod text;
