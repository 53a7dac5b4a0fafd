//! The page with the details of one watched area.

use crate::state::{first_with_id, ActivePage, SelectedAreaInfo, StateData};
use vstd::prelude::*;

verus! {

/// The details page. It keeps a copy of the area it shows, taken when the
/// page is first drawn for that area.
#[derive(Debug)]
pub struct AreaDetailsPage {
    pub details: Option<SelectedAreaInfo>,
}

impl Default for AreaDetailsPage {
    /// A page that shows nothing yet.
    fn default() -> (page: AreaDetailsPage)
        ensures
            page.details.is_none(),
    {
        AreaDetailsPage { details: None }
    }
}

impl AreaDetailsPage {
    /// Decides what the page shows, and says whether there is anything to
    /// draw.
    ///
    /// While the details of an area are on screen the page holds a copy of
    /// the first watched area with that identifier; a copy it holds already
    /// is kept. An area that is asked for has to be among the watched ones.
    /// On any other page the copy is dropped and the home page comes on
    /// screen.
    pub fn page(&mut self, state: &mut StateData) -> (shown: bool)
        requires
            old(state).page matches ActivePage::AreaDetails(id) ==> old(self).details.is_some()
                || old(state).watches(id@),
        ensures
            final(state).api_key == old(state).api_key,
            final(state).ids == old(state).ids,
            shown == (old(state).page is AreaDetails),
            match old(state).page {
                ActivePage::AreaDetails(id) => {
                    &&& final(state).page == old(state).page
                    &&& final(self).details.is_some()
                    &&& old(self).details.is_some() ==> final(self).details == old(self).details
                    &&& old(self).details.is_none() ==> final(self).details.unwrap().same_as(
                        old(state).ids[first_with_id(old(state).ids@, id@)],
                    )
                },
                _ => final(state).page is Home && final(self).details.is_none(),
            },
    {
        let wanted: Option<usize> = match &state.page {
            ActivePage::AreaDetails(id) => {
                if self.details.is_none() {
                    state.position_of(id)
                } else {
                    None
                }
            },
            _ => None,
        };
        let on_screen = match &state.page {
            ActivePage::AreaDetails(_) => true,
            _ => false,
        };
        if on_screen {
            match wanted {
                Some(k) => {
                    self.details = Some(state.ids[k].clone());
                },
                None => {},
            }
            true
        } else {
            state.page = ActivePage::Home;
            self.details = None;
            false
        }
    }
}

} // verus!
