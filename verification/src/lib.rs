//! A small, fully specified filesystem-entry introspection core: it decodes
//! POSIX mode words into permission triads and file-type tags, resolves
//! numeric identities to display names with a decimal fallback, models one
//! directory entry's metadata, and renders listing output.

pub mod filemeta;
pub mod filetype;
pub mod identity;
pub mod listing;
pub mod permissions;
pub mod text;
