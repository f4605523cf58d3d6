//! The shared configuration values: credential and selected page.
//!
//! Reading and writing the values on disk is the surrounding program's
//! business; the library holds the values and the rules for changing them.

use vstd::prelude::*;

verus! {

/// What the application remembers between runs.
#[derive(Debug)]
pub struct AppConfig {
    /// The API credential, empty when none is set.
    pub notion_api_token: String,
    /// The page notes are appended to, empty when none is chosen.
    pub selected_page_id: String,
    /// That page's title, for display.
    pub selected_page_title: String,
}

impl Default for AppConfig {
    /// A configuration with nothing set.
    fn default() -> (c: AppConfig)
        ensures
            c.notion_api_token@ == Seq::<char>::empty(),
            c.selected_page_id@ == Seq::<char>::empty(),
            c.selected_page_title@ == Seq::<char>::empty(),
    {
        AppConfig {
            notion_api_token: String::new(),
            selected_page_id: String::new(),
            selected_page_title: String::new(),
        }
    }
}

impl AppConfig {
    /// Whether both the credential and a page are set, so that the note
    /// input can be offered at all.
    pub fn is_configured(&self) -> (r: bool)
        ensures
            r == (self.notion_api_token@.len() > 0 && self.selected_page_id@.len() > 0),
    {
        !self.notion_api_token.as_str().is_empty() && !self.selected_page_id.as_str().is_empty()
    }

    /// Remember the chosen page. The credential is untouched.
    pub fn set_selected_page(&mut self, page_id: String, page_title: String)
        ensures
            final(self).selected_page_id == page_id,
            final(self).selected_page_title == page_title,
            final(self).notion_api_token == old(self).notion_api_token,
    {
        self.selected_page_id = page_id;
        self.selected_page_title = page_title;
    }
}

/// The application state the operations share.
pub struct AppState {
    /// The configuration values; the surrounding program guards the state
    /// with one lock and never holds it across network calls.
    pub config: AppConfig,
}

/// Wrap a loaded configuration as the shared application state.
pub fn init_app_state(config: AppConfig) -> (s: AppState)
    ensures
        s.config == config,
{
    AppState { config }
}

} // verus!
