//! Detection of locally installed web browsers and their automation drivers.
//!
//! The library decides, from what the environment reports (executables found
//! on `PATH`, files present at the usual install locations, the operating
//! system), which browsers are available and where their drivers are. The
//! environment probes themselves stand behind small wrappers; the decisions
//! are verified for every probe outcome.

pub mod browser;
pub mod catalog;
pub mod locate;
pub mod project_dir;

pub use browser::{Browser, BrowserView};
pub use catalog::{
    assemble_catalog, candidate_names, find_browser_for, find_in_catalog, get_available_browsers,
    record_for_hit, Probe, ProbeView, CHROME_APP, FIREFOX_APP,
};
pub use locate::{can_find_driver, find_executable, path_if_found, path_or_empty};
pub use project_dir::{
    finish_project_dir, locate_project_dir, plan_project_dir, DirStep, DirectoryError, APPLICATION,
    ORGANIZATION, QUALIFIER,
};
