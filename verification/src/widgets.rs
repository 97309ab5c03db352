//! The state behind the views: what is selected, and what each view shows.

pub mod charts;
pub mod footer;
pub mod packet_table;
pub mod popup;
