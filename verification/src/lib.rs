//! Building blocks for a server-rendered single-page application: the HTML
//! shell that carries a page's state to the client, and the decisions of the
//! database connection layer.

pub mod base;
pub mod json;
pub mod page;
pub mod text;
