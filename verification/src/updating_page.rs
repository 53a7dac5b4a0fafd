//! The page that is shown while data is renewed.

use crate::state::{ActivePage, StateData};
use vstd::prelude::*;

verus! {

/// The page that is shown while data is renewed. It keeps nothing of its own.
#[derive(Debug, Default)]
pub struct UpdatingPage {}

impl UpdatingPage {
    /// Decides what the page shows: the message of the notice while one is on
    /// screen, and otherwise nothing, in which case the home page comes on
    /// screen instead.
    pub fn page(&mut self, state: &mut StateData) -> (message: Option<String>)
        ensures
            final(state).api_key == old(state).api_key,
            final(state).ids == old(state).ids,
            match old(state).page {
                ActivePage::Updating(text) => message == Some(text) && final(state).page == old(
                    state,
                ).page,
                _ => message.is_none() && final(state).page is Home,
            },
    {
        let message = match &state.page {
            ActivePage::Updating(text) => Some(text.clone()),
            _ => None,
        };
        if message.is_none() {
            state.page = ActivePage::Home;
        }
        message
    }
}

} // verus!
