//! A verified core for an object-storage directory gateway: it decides
//! whether a request path names an object, a virtual directory, or nothing;
//! merges paginated listings into one view; and renders the download,
//! index-page, redirect and error responses. The storage calls themselves
//! are the host's: the library hands it probe plans and page cursors, takes
//! the plain results back, and proves every decision between them.

pub mod classify;
pub mod handler;
pub mod listing;
pub mod model;
pub mod render;
pub mod text;
