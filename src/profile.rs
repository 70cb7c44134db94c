use vstd::prelude::*;

verus! {

/// A named deployment backend: a unique name and an opaque backend URL.
#[derive(Debug, Clone)]
pub struct Profile {
    pub name: String,
    pub backend: String,
}

/// A profile as mathematical values.
pub ghost struct ProfileModel {
    pub name: Seq<char>,
    pub backend: Seq<char>,
}

impl View for Profile {
    type V = ProfileModel;

    open spec fn view(&self) -> ProfileModel {
        ProfileModel { name: self.name@, backend: self.backend@ }
    }
}

/// The model of a whole profile list, entry by entry.
pub open spec fn model_of(ps: Seq<Profile>) -> Seq<ProfileModel> {
    ps.map_values(|p: Profile| p@)
}

impl Profile {
    pub fn new(name: String, backend: String) -> (r: Profile)
        ensures
            r.name@ == name@,
            r.backend@ == backend@,
    {
        Profile { name, backend }
    }
}

} // verus!
