//! A sidebar plugin for a binary-analysis host application, with its logic
//! verified.
//!
//! The plugin itself is glue around a host GUI: it registers one sidebar
//! type with the host at load time, and the host later calls back into the
//! registered type to create and tear down sidebar widgets. What the plugin
//! decides on its own is modelled and verified here:
//!
//! - [`locator`]: how the build finds the host application's installation
//!   directory (an environment override, a "last run" marker file, or a
//!   per-platform default).
//! - [`sidebar`]: the plugin's registration and widget lifecycle — exactly
//!   one sidebar type is ever registered, and every widget the host asks
//!   for is a fresh, non-null handle.

pub mod locator;
pub mod sidebar;
