//! The home page: the watched areas, and the way to add one.

use crate::layouts::top::{leads_to, top_bar, top_button_enabled_spec, TopButton};
use crate::state::{ActivePage, StateData};
use vstd::prelude::*;

verus! {

/// The home page. It keeps nothing of its own.
#[derive(Debug, Default)]
pub struct HomePage {}

/// What the user can do on the home page.
#[derive(Clone, Copy, Debug)]
pub enum HomeEvent {
    /// A button of the top bar was pressed.
    TopBar(TopButton),
    /// The area at this position of the list was pressed.
    AreaClicked(usize),
    /// "Add Region" was pressed.
    AddRegionClicked,
}

impl HomePage {
    /// Takes one event of the home page. A press on a listed area opens its
    /// details, "Add Region" opens the search, and the top bar, which is never
    /// disabled here, leads where its buttons say. The watched areas and the
    /// key stay as they are.
    pub fn page(&mut self, state: &mut StateData, event: HomeEvent)
        ensures
            final(state).api_key == old(state).api_key,
            final(state).ids == old(state).ids,
            match event {
                HomeEvent::TopBar(button) => if top_button_enabled_spec(
                    old(state).page,
                    button,
                    false,
                ) {
                    leads_to(button, final(state).page)
                } else {
                    final(state).page == old(state).page
                },
                HomeEvent::AreaClicked(index) => if index < old(state).ids.len() {
                    final(state).page == ActivePage::AreaDetails(old(state).ids[index as int].id)
                } else {
                    final(state).page == old(state).page
                },
                HomeEvent::AddRegionClicked => final(state).page is FindArea,
            },
    {
        match event {
            HomeEvent::TopBar(button) => top_bar(state, false, button),
            HomeEvent::AreaClicked(index) => {
                if index < state.ids.len() {
                    state.page = ActivePage::AreaDetails(state.ids[index].id.clone());
                }
            },
            HomeEvent::AddRegionClicked => {
                state.page = ActivePage::FindArea;
            },
        }
    }
}

} // verus!
