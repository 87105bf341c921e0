//! Common imports for consumers of the core library.
pub use std::borrow::Cow::{Borrowed, Owned};
pub use std::path::{Path, PathBuf};
pub use std::rc::Rc;
pub use std::sync::Arc;
