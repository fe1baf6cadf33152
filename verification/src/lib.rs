//! Navigation core of a tabbed browsing shell: URL normalization, a
//! history log with back/forward traversal, a tab set with an active-tab
//! selector, and the controller that ties them together.

pub mod engine;
pub mod history;
pub mod tabs;
pub mod url;
