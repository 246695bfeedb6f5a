//! The search of an application launcher.
//!
//! A [`SearchWindow`] holds the names of the installed applications and a
//! list of result rows. Each search empties and hides the list and then, if
//! the text is not empty and some name contains it, fills the list with the
//! names that contain the text, in the order of the registry, and shows it.
//! Names are compared character by character and case matters.

pub mod matching;
pub mod registry;
pub mod results;
pub mod search_window;

pub use registry::{ApplicationDescriptor, ApplicationRegistry};
pub use results::ResultsContainer;
pub use search_window::SearchWindow;
