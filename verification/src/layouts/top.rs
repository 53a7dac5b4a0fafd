//! The bar of buttons at the top of a page.

use crate::state::{ActivePage, StateData};
use vstd::prelude::*;

verus! {

/// A button of the top bar.
#[derive(Clone, Copy, Debug, PartialEq, Eq, Structural)]
pub enum TopButton {
    /// Leads to the list of watched areas.
    Home,
    /// Leads to the search for an area.
    AddRegion,
    /// Leads to the settings.
    Settings,
}

/// `page` is the page that `button` leads to.
pub open spec fn leads_to(button: TopButton, page: ActivePage) -> bool {
    match button {
        TopButton::Home => page is Home,
        TopButton::AddRegion => page is FindArea,
        TopButton::Settings => page is Settings,
    }
}

/// A button can be pressed unless it leads to the page that is on screen
/// already or the whole bar is disabled.
pub open spec fn top_button_enabled_spec(page: ActivePage, button: TopButton, disable_all: bool) -> bool {
    !leads_to(button, page) && !disable_all
}

/// Says whether `button` is to be drawn enabled.
pub fn top_button_enabled(state: &StateData, button: TopButton, disable_all: bool) -> (enabled: bool)
    ensures
        enabled == top_button_enabled_spec(state.page, button, disable_all),
{
    let here = match button {
        TopButton::Home => match &state.page {
            ActivePage::Home => true,
            _ => false,
        },
        TopButton::AddRegion => match &state.page {
            ActivePage::FindArea => true,
            _ => false,
        },
        TopButton::Settings => match &state.page {
            ActivePage::Settings => true,
            _ => false,
        },
    };
    !here && !disable_all
}

/// Takes a press of `button`: where the button is enabled the page it leads
/// to comes on screen, and nothing happens where it is not.
pub fn top_bar(state: &mut StateData, disable_all: bool, button: TopButton)
    ensures
        final(state).api_key == old(state).api_key,
        final(state).ids == old(state).ids,
        top_button_enabled_spec(old(state).page, button, disable_all) ==> leads_to(
            button,
            final(state).page,
        ),
        !top_button_enabled_spec(old(state).page, button, disable_all) ==> final(state).page == old(
            state,
        ).page,
{
    if top_button_enabled(state, button, disable_all) {
        state.page = match button {
            TopButton::Home => ActivePage::Home,
            TopButton::AddRegion => ActivePage::FindArea,
            TopButton::Settings => ActivePage::Settings,
        };
    }
}

} // verus!
