//! The page on which an area is searched for and added to the watched ones.

use crate::fetch::{FetchError, FetchFailure};
use crate::helpers::{describe_failure, map_error, shown_failure_spec, user_message_spec};
use crate::layouts::top::{leads_to, top_bar, top_button_enabled_spec, TopButton};
use crate::state::{SelectedAreaInfo, StateData};
use crate::text::{byte_length, trim, trimmed};
use vstd::prelude::*;

verus! {

/// One area that a search came back with.
#[derive(Debug)]
pub struct AreaHit {
    /// Identifier of the area.
    pub id: String,
    /// Display name of the area.
    pub name: String,
    /// The region that the area belongs to.
    pub region: String,
}

/// What the page keeps between frames. The worker that searches and the
/// channels on which the details of added areas arrive are kept by whoever
/// draws the page.
#[derive(Debug)]
pub struct FindAreaPage {
    /// What the user typed into the search field.
    pub search_term: String,
    /// A search is under way.
    pub testing: bool,
    /// Why the last search failed.
    pub error: Option<String>,
    /// What the last search found.
    pub area_search: Option<Vec<AreaHit>>,
    /// Why areas could not be added.
    pub error_adding: Vec<String>,
    /// How many added areas still wait for their details.
    pub count: usize,
}

/// What the user can do on the page.
#[derive(Clone, Copy, Debug)]
pub enum FindAreaEvent {
    /// A button of the top bar was pressed.
    TopBar(TopButton),
    /// "Search" was pressed.
    SearchClicked,
    /// "Add region" was pressed on the hit at this position.
    AddRegionClicked(usize),
    /// "Done" was pressed.
    DoneClicked,
}

/// What is to be done for the page after an event.
#[derive(Debug)]
pub enum FindAreaAction {
    /// Nothing.
    Nothing,
    /// Start a worker that searches for this term.
    Search(String),
    /// Start a worker that fetches the details of the area with this
    /// identifier.
    FetchArea(String),
}

/// A term can be searched for if it is more than white space and longer than
/// three bytes.
pub open spec fn searchable(term: Seq<char>) -> bool {
    trimmed(term).len() > 0 && byte_length(term) > 3
}

impl FindAreaPage {
    /// An empty page: no term, no search, no hits, no errors, nothing
    /// awaited.
    pub fn new() -> (page: FindAreaPage)
        ensures
            page.search_term@.len() == 0,
            !page.testing,
            page.error.is_none(),
            page.area_search.is_none(),
            page.error_adding@.len() == 0,
            page.count == 0,
    {
        FindAreaPage {
            search_term: String::new(),
            testing: false,
            error: None,
            area_search: None,
            error_adding: Vec::new(),
            count: 0,
        }
    }

    /// The hit at `index` can be added: there is such a hit and no watched
    /// area has its identifier.
    pub open spec fn addable(&self, state: StateData, index: int) -> bool {
        &&& self.area_search matches Some(hits)
        &&& 0 <= index < hits@.len()
        &&& !state.watches(hits@[index].id@)
    }

    /// Whether "Search" is to be drawn enabled.
    pub fn search_enabled(&self) -> (enabled: bool)
        ensures
            enabled == searchable(self.search_term@),
    {
        let term = self.search_term.as_str();
        !trim(term).is_empty() && term.len() > 3
    }

    /// Whether "Add region" is to be offered for the hit at `index`.
    pub fn can_add(&self, state: &StateData, index: usize) -> (offered: bool)
        ensures
            offered == self.addable(*state, index as int),
    {
        match &self.area_search {
            Some(hits) => index < hits.len() && state.position_of(&hits[index].id).is_none(),
            None => false,
        }
    }

    /// Whether "Done" is to be drawn enabled: nothing is awaited.
    pub fn done_enabled(&self) -> (enabled: bool)
        ensures
            enabled == (self.count == 0),
    {
        self.count == 0
    }

    /// Takes one event of the page and says what is to be started for it.
    ///
    /// The top bar is disabled while details are awaited. "Search" starts a
    /// search for the term if the term can be searched for and no search is
    /// under way, and clears the last error. "Add region" on a hit that can
    /// be added starts the fetch of its details and counts it as awaited.
    /// "Done" leads home once nothing is awaited. An event that cannot be
    /// taken changes nothing.
    pub fn page(&mut self, state: &mut StateData, event: FindAreaEvent) -> (action: FindAreaAction)
        requires
            event is AddRegionClicked ==> old(self).count < usize::MAX,
        ensures
            final(state).api_key == old(state).api_key,
            final(state).ids == old(state).ids,
            final(self).search_term == old(self).search_term,
            final(self).area_search == old(self).area_search,
            final(self).error_adding == old(self).error_adding,
            match event {
                FindAreaEvent::TopBar(button) => {
                    &&& action is Nothing
                    &&& *final(self) == *old(self)
                    &&& if top_button_enabled_spec(old(state).page, button, old(self).count != 0) {
                        leads_to(button, final(state).page)
                    } else {
                        final(state).page == old(state).page
                    }
                },
                FindAreaEvent::SearchClicked => {
                    &&& final(state).page == old(state).page
                    &&& final(self).count == old(self).count
                    &&& if searchable(old(self).search_term@) && !old(self).testing {
                        &&& action == FindAreaAction::Search(old(self).search_term)
                        &&& final(self).testing
                        &&& final(self).error.is_none()
                    } else {
                        action is Nothing && *final(self) == *old(self)
                    }
                },
                FindAreaEvent::AddRegionClicked(index) => {
                    &&& final(state).page == old(state).page
                    &&& final(self).testing == old(self).testing
                    &&& final(self).error == old(self).error
                    &&& if old(self).addable(*old(state), index as int) {
                        &&& action == FindAreaAction::FetchArea(
                            old(self).area_search.unwrap()@[index as int].id,
                        )
                        &&& final(self).count == old(self).count + 1
                    } else {
                        action is Nothing && final(self).count == old(self).count
                    }
                },
                FindAreaEvent::DoneClicked => {
                    &&& action is Nothing
                    &&& *final(self) == *old(self)
                    &&& if old(self).count == 0 {
                        final(state).page is Home
                    } else {
                        final(state).page == old(state).page
                    }
                },
            },
    {
        match event {
            FindAreaEvent::TopBar(button) => {
                top_bar(state, self.count != 0, button);
                FindAreaAction::Nothing
            },
            FindAreaEvent::SearchClicked => {
                if self.search_enabled() && !self.testing {
                    self.error = None;
                    self.testing = true;
                    FindAreaAction::Search(self.search_term.clone())
                } else {
                    FindAreaAction::Nothing
                }
            },
            FindAreaEvent::AddRegionClicked(index) => {
                if self.can_add(state, index) {
                    self.count += 1;
                    match &self.area_search {
                        Some(hits) => FindAreaAction::FetchArea(hits[index].id.clone()),
                        None => FindAreaAction::Nothing,
                    }
                } else {
                    FindAreaAction::Nothing
                }
            },
            FindAreaEvent::DoneClicked => {
                if self.count == 0 {
                    state.page = crate::state::ActivePage::Home;
                }
                FindAreaAction::Nothing
            },
        }
    }

    /// Takes in what the worker that searched left behind, if it has ended:
    /// hits replace the last ones, a failure is worded for the user. Either
    /// way the search is no longer under way.
    pub fn check_thread(&mut self, finished: Option<Result<Vec<AreaHit>, FetchFailure>>)
        ensures
            final(self).search_term == old(self).search_term,
            final(self).error_adding == old(self).error_adding,
            final(self).count == old(self).count,
            match finished {
                Some(Ok(hits)) => {
                    &&& !final(self).testing
                    &&& final(self).area_search == Some(hits)
                    &&& final(self).error == old(self).error
                },
                Some(Err(failure)) => {
                    &&& !final(self).testing
                    &&& final(self).area_search == old(self).area_search
                    &&& final(self).error matches Some(text) && text@ == shown_failure_spec(failure)
                },
                None => *final(self) == *old(self),
            },
    {
        match finished {
            Some(Ok(hits)) => {
                self.testing = false;
                self.area_search = Some(hits);
            },
            Some(Err(failure)) => {
                self.testing = false;
                self.error = describe_failure(failure);
            },
            None => {},
        }
    }

    /// Takes in what arrived for the areas that were added: details make the
    /// area a watched one, a failure is noted, and each of them is one thing
    /// less to wait for.
    pub fn check_recievers(
        &mut self,
        state: &mut StateData,
        area: Option<SelectedAreaInfo>,
        err: Option<FetchError>,
    )
        requires
            (if area.is_some() { 1int } else { 0int }) + (if err.is_some() { 1int } else { 0int })
                <= old(self).count,
        ensures
            final(state).api_key == old(state).api_key,
            final(state).page == old(state).page,
            final(self).search_term == old(self).search_term,
            final(self).testing == old(self).testing,
            final(self).error == old(self).error,
            final(self).area_search == old(self).area_search,
            final(self).count == old(self).count - (if area.is_some() { 1int } else { 0int }) - (
            if err.is_some() { 1int } else { 0int }),
            match area {
                Some(info) => final(state).ids@ == old(state).ids@.push(info),
                None => final(state).ids == old(state).ids,
            },
            match err {
                Some(error) => {
                    &&& final(self).error_adding@.len() == old(self).error_adding@.len() + 1
                    &&& final(self).error_adding@.drop_last() == old(self).error_adding@
                    &&& final(self).error_adding@.last()@ == user_message_spec(error)
                },
                None => final(self).error_adding == old(self).error_adding,
            },
    {
        match area {
            Some(info) => {
                state.ids.push(info);
                self.count -= 1;
            },
            None => {},
        }
        match err {
            Some(error) => {
                match map_error(error) {
                    Some(text) => {
                        self.error_adding.push(text);
                        assert(self.error_adding@.drop_last() == old(self).error_adding@);
                    },
                    None => {},
                }
                self.count -= 1;
            },
            None => {},
        }
    }
}

} // verus!
