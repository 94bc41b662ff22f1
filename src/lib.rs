//! An asset server's core: routing of `/static/` requests, path safety,
//! content types, and the decisions of the local handler, the package
//! read-through cache and the landing-page slot.
pub mod text;
pub mod path_safety;
pub mod content_type;
pub mod route;
pub mod response;
pub mod proxy;
pub mod local;
pub mod index_page;
pub use path_safety::is_safe_path;
