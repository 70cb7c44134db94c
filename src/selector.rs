use vstd::prelude::*;
use vstd::string::*;
use crate::error::ProfileError;
use crate::profile::{Profile, ProfileModel, model_of};

verus! {

/// The label under which a profile is offered: `name -> backend`.
pub open spec fn display_text(p: ProfileModel) -> Seq<char> {
    p.name + " -> "@ + p.backend
}

/// `i` is the position of the first entry of `ps` offered under `label`.
pub open spec fn is_first_label(ps: Seq<ProfileModel>, label: Seq<char>, i: int) -> bool {
    &&& 0 <= i < ps.len()
    &&& display_text(ps[i]) == label
    &&& forall|j: int| 0 <= j < i ==> display_text(#[trigger] ps[j]) != label
}

/// Some entry of `ps` is offered under `label`.
pub open spec fn has_label(ps: Seq<ProfileModel>, label: Seq<char>) -> bool {
    exists|i: int| 0 <= i < ps.len() && display_text(#[trigger] ps[i]) == label
}

/// The label under which `profile` is offered.
pub fn format_profile_display(profile: &Profile) -> (r: String)
    ensures
        r@ == display_text(profile@),
{
    let mut r = profile.name.clone();
    r.append(" -> ");
    r.append(profile.backend.as_str());
    r
}

/// What the interactive picker reported.
#[derive(Debug, Clone)]
pub enum Selection {
    /// The user chose the option with this label.
    Picked(String),
    /// The user dismissed the picker.
    Canceled,
    /// The user interrupted the picker.
    Interrupted,
    /// The picker failed; the text says why.
    Failed(String),
}

/// The choice among a fixed list of profiles, offered by their labels.
pub struct ProfileSelector {
    profiles: Vec<Profile>,
}

impl View for ProfileSelector {
    type V = Seq<ProfileModel>;

    closed spec fn view(&self) -> Seq<ProfileModel> {
        model_of(self.profiles@)
    }
}

impl ProfileSelector {
    pub fn new(profiles: Vec<Profile>) -> (r: ProfileSelector)
        ensures
            r@ == model_of(profiles@),
    {
        ProfileSelector { profiles }
    }

    /// Whether there is nothing to choose from.
    pub fn is_empty(&self) -> (r: bool)
        ensures
            r == (self@.len() == 0),
    {
        self.profiles.len() == 0
    }

    /// The labels to offer, one per profile, in stored order.
    pub fn options(&self) -> (r: Vec<String>)
        ensures
            r@.len() == self@.len(),
            forall|i: int| 0 <= i < r@.len() ==> #[trigger] r@[i]@ == display_text(self@[i]),
    {
        let mut r: Vec<String> = Vec::new();
        let mut i: usize = 0;
        while i < self.profiles.len()
            invariant
                0 <= i <= self.profiles.len(),
                r@.len() == i,
                forall|k: int| 0 <= k < i ==> #[trigger] r@[k]@ == display_text(self@[k]),
            decreases self.profiles.len() - i,
        {
            let label = format_profile_display(&self.profiles[i]);
            r.push(label);
            i = i + 1;
        }
        r
    }

    /// The position of the first profile offered under `label`.
    fn find_label(&self, label: &str) -> (r: Option<usize>)
        ensures
            r is None <==> !has_label(self@, label@),
            r matches Some(i) ==> is_first_label(self@, label@, i as int),
    {
        let key = label.to_owned();
        let mut i: usize = 0;
        while i < self.profiles.len()
            invariant
                0 <= i <= self.profiles.len(),
                key@ == label@,
                forall|k: int| 0 <= k < i ==> display_text(#[trigger] self@[k]) != label@,
            decreases self.profiles.len() - i,
        {
            let shown = format_profile_display(&self.profiles[i]);
            if shown == key {
                assert(is_first_label(self@, label@, i as int));
                return Some(i);
            }
            i = i + 1;
        }
        None
    }

    /// The name of the profile that the picker's report designates: the first
    /// one offered under the chosen label. Cancelling or interrupting chooses
    /// nothing; a failure of the picker is an error.
    pub fn resolve(&self, outcome: Selection) -> (r: Result<Option<String>, ProfileError>)
        ensures
            match outcome {
                Selection::Picked(label) => match r {
                    Ok(Some(n)) => exists|i: int|
                        is_first_label(self@, label@, i) && n@ == self@[i].name,
                    Ok(None) => !has_label(self@, label@),
                    Err(_) => false,
                },
                Selection::Canceled => r matches Ok(None),
                Selection::Interrupted => r matches Ok(None),
                Selection::Failed(msg) => r matches Err(ProfileError::Selection(m)) && m@ == msg@,
            },
    {
        match outcome {
            Selection::Picked(label) => match self.find_label(label.as_str()) {
                Some(i) => {
                    let name = self.profiles[i].name.clone();
                    assert(name@ == self@[i as int].name);
                    Ok(Some(name))
                },
                None => Ok(None),
            },
            Selection::Canceled => Ok(None),
            Selection::Interrupted => Ok(None),
            Selection::Failed(msg) => Err(ProfileError::Selection(msg)),
        }
    }
}

} // verus!
