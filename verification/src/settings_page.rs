//! The settings page.

use crate::layouts::top::{leads_to, top_bar, top_button_enabled_spec, TopButton};
use crate::state::StateData;
use vstd::prelude::*;

verus! {

/// The settings page. It shows the top bar and a heading, and keeps nothing
/// of its own.
#[derive(Debug, Default)]
pub struct SettingsPage {}

impl SettingsPage {
    /// Takes a press on the top bar, which is never disabled here.
    pub fn page(&mut self, state: &mut StateData, pressed: TopButton)
        ensures
            final(state).api_key == old(state).api_key,
            final(state).ids == old(state).ids,
            top_button_enabled_spec(old(state).page, pressed, false) ==> leads_to(
                pressed,
                final(state).page,
            ),
            !top_button_enabled_spec(old(state).page, pressed, false) ==> final(state).page == old(
                state,
            ).page,
    {
        top_bar(state, false, pressed)
    }
}

} // verus!
