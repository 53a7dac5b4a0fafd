//! The first page: the key of the status service is asked for and tested.

use crate::fetch::FetchFailure;
use crate::helpers::{describe_failure, shown_failure_spec};
use crate::state::{ActivePage, StateData};
use vstd::prelude::*;

verus! {

/// What the page keeps between frames. The worker that tests the key is kept
/// by whoever draws the page.
#[derive(Debug)]
pub struct Setup {
    /// A test of the key is under way.
    pub testing: bool,
    /// What the user typed into the key field.
    pub api_key: String,
    /// Why the last test failed.
    pub error: Option<String>,
}

impl Setup {
    /// Whether the key field can be typed into: not while a test is under
    /// way.
    pub fn input_enabled(&self) -> (enabled: bool)
        ensures
            enabled == !self.testing,
    {
        !self.testing
    }

    /// Whether "Test" is to be drawn enabled: there is a key to test.
    pub fn test_enabled(&self) -> (enabled: bool)
        ensures
            enabled == (self.api_key@.len() > 0),
    {
        !self.api_key.as_str().is_empty()
    }

    /// Takes a press on "Test": if there is a key and no test is under way,
    /// the last error is cleared, a test is under way from now on, and the
    /// key to test is handed out. Otherwise nothing changes.
    pub fn page(&mut self) -> (key: Option<String>)
        ensures
            final(self).api_key == old(self).api_key,
            if old(self).api_key@.len() > 0 && !old(self).testing {
                &&& key == Some(old(self).api_key)
                &&& final(self).testing
                &&& final(self).error.is_none()
            } else {
                key.is_none() && *final(self) == *old(self)
            },
    {
        if self.test_enabled() && !self.testing {
            self.error = None;
            self.testing = true;
            Some(self.api_key.clone())
        } else {
            None
        }
    }

    /// Takes in what the worker that tested the key left behind, if it has
    /// ended, and says whether the state is to be saved.
    ///
    /// A key that passed becomes the key of the application, the home page
    /// comes on screen, the field is emptied and the state is to be saved. A
    /// failure is worded for the user and ends the test.
    pub fn check_thread(&mut self, state: &mut StateData, finished: Option<Result<(), FetchFailure>>) -> (save:
        bool)
        ensures
            final(state).ids == old(state).ids,
            save == (finished matches Some(Ok(_))),
            match finished {
                Some(Ok(_)) => {
                    &&& final(state).page is Home
                    &&& final(state).api_key == old(self).api_key
                    &&& final(self).api_key@.len() == 0
                    &&& final(self).testing == old(self).testing
                    &&& final(self).error == old(self).error
                },
                Some(Err(failure)) => {
                    &&& *final(state) == *old(state)
                    &&& !final(self).testing
                    &&& final(self).api_key == old(self).api_key
                    &&& final(self).error matches Some(text) && text@ == shown_failure_spec(failure)
                },
                None => *final(state) == *old(state) && *final(self) == *old(self),
            },
    {
        match finished {
            Some(Ok(_)) => {
                state.page = ActivePage::Home;
                state.api_key = self.api_key.clone();
                self.api_key = String::new();
                true
            },
            Some(Err(failure)) => {
                self.testing = false;
                self.error = describe_failure(failure);
                false
            },
            None => false,
        }
    }
}

} // verus!
