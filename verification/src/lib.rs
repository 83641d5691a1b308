//! Request handling core of an ics calendar proxy: every decision that the
//! web handlers make, from query parameters and stored links to the page
//! that is answered, stated and proved here.

pub mod text;
pub mod submission;
pub mod ids;
pub mod destination;
pub mod clock;
pub mod link;
pub mod pages;
pub mod handlers;
pub mod laws;
