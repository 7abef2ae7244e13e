//! A static page component and a static HTTP responder, with their decisions
//! stated and proved: the component always renders the same paragraph, and the
//! responder serves one fixed body on one route from one fixed address.
pub mod page;
pub mod server;
