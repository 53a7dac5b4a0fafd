//! What the pages of the desktop application share.

use vstd::prelude::*;

verus! {

/// The page that is on screen.
#[derive(Clone, Debug)]
pub enum ActivePage {
    /// The list of the areas that are watched.
    Home,
    /// The search for an area to add.
    FindArea,
    /// The settings.
    Settings,
    /// The details of the area with this identifier.
    AreaDetails(String),
    /// A notice, with its message, that data is being renewed.
    Updating(String),
}

/// One announced interruption of an area.
#[derive(Debug)]
pub struct AreaEvent {
    /// When it starts, as the service writes it.
    pub start: String,
    /// When it ends, as the service writes it.
    pub end: String,
    /// The note that the service attaches, such as the stage.
    pub note: String,
}

/// An area that the user has chosen to watch, with what the service told of
/// it.
#[derive(Debug)]
pub struct SelectedAreaInfo {
    /// Identifier of the area.
    pub id: String,
    /// Display name of the area.
    pub name: String,
    /// The region that the area belongs to.
    pub region: String,
    /// The interruptions announced for the area.
    pub events: Vec<AreaEvent>,
}

/// The state that every page reads and changes.
#[derive(Debug)]
pub struct StateData {
    /// The page that is on screen.
    pub page: ActivePage,
    /// The key of the status service.
    pub api_key: String,
    /// The areas that are watched.
    pub ids: Vec<SelectedAreaInfo>,
}

impl Clone for AreaEvent {
    fn clone(&self) -> (copy: AreaEvent)
        ensures
            copy == *self,
    {
        AreaEvent { start: self.start.clone(), end: self.end.clone(), note: self.note.clone() }
    }
}

impl SelectedAreaInfo {
    /// `other` holds what `self` holds: the same identifier, name and region
    /// and the same events in the same order.
    pub open spec fn same_as(&self, other: SelectedAreaInfo) -> bool {
        &&& self.id == other.id
        &&& self.name == other.name
        &&& self.region == other.region
        &&& self.events@ == other.events@
    }
}

impl Clone for SelectedAreaInfo {
    fn clone(&self) -> (copy: SelectedAreaInfo)
        ensures
            copy.same_as(*self),
    {
        let mut events: Vec<AreaEvent> = Vec::new();
        let mut i: usize = 0;
        while i < self.events.len()
            invariant
                i <= self.events.len(),
                events@ == self.events@.subrange(0, i as int),
            decreases self.events.len() - i,
        {
            events.push(self.events[i].clone());
            i += 1;
        }
        assert(events@ == self.events@) by {
            assert(self.events@.subrange(0, i as int) =~= self.events@);
        }
        SelectedAreaInfo {
            id: self.id.clone(),
            name: self.name.clone(),
            region: self.region.clone(),
            events,
        }
    }
}

/// Position of the first area with the identifier `id`, or the number of
/// areas where none has it.
pub open spec fn first_with_id(ids: Seq<SelectedAreaInfo>, id: Seq<char>) -> int
    decreases ids.len(),
{
    if ids.len() == 0 {
        0
    } else if ids[0].id@ == id {
        0
    } else {
        1 + first_with_id(ids.drop_first(), id)
    }
}

/// `first_with_id` is the least position that holds the identifier.
pub proof fn lemma_first_with_id(ids: Seq<SelectedAreaInfo>, id: Seq<char>)
    ensures
        0 <= first_with_id(ids, id) <= ids.len(),
        first_with_id(ids, id) < ids.len() ==> ids[first_with_id(ids, id)].id@ == id,
        forall|j: int| 0 <= j < first_with_id(ids, id) ==> (#[trigger] ids[j]).id@ != id,
    decreases ids.len(),
{
    if ids.len() > 0 && ids[0].id@ != id {
        let rest = ids.drop_first();
        lemma_first_with_id(rest, id);
        assert forall|j: int| 0 <= j < first_with_id(ids, id) implies (#[trigger] ids[j]).id@
            != id by {
            if j > 0 {
                assert(ids[j] == rest[j - 1]);
            }
        }
    }
}

impl StateData {
    /// Whether an area with the identifier `id` is watched.
    pub open spec fn watches(&self, id: Seq<char>) -> bool {
        first_with_id(self.ids@, id) < self.ids@.len()
    }

    /// Finds the first watched area with the identifier `id`.
    pub fn position_of(&self, id: &String) -> (found: Option<usize>)
        ensures
            found.is_some() == self.watches(id@),
            found matches Some(k) ==> k == first_with_id(self.ids@, id@),
    {
        let mut i: usize = 0;
        while i < self.ids.len()
            invariant
                i <= self.ids.len(),
                forall|j: int| 0 <= j < i ==> (#[trigger] self.ids@[j]).id@ != id@,
            decreases self.ids.len() - i,
        {
            if self.ids[i].id == *id {
                proof {
                    lemma_first_with_id(self.ids@, id@);
                }
                return Some(i);
            }
            i += 1;
        }
        proof {
            lemma_first_with_id(self.ids@, id@);
        }
        None
    }
}

} // verus!
