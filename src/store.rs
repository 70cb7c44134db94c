use vstd::prelude::*;
use crate::error::ProfileError;
use crate::profile::{Profile, ProfileModel, model_of};

verus! {

/// Some entry of `ps` is named `name`.
pub open spec fn has_name(ps: Seq<ProfileModel>, name: Seq<char>) -> bool {
    exists|i: int| 0 <= i < ps.len() && #[trigger] ps[i].name == name
}

/// `i` is the position of the first entry of `ps` named `name`.
pub open spec fn is_first_match(ps: Seq<ProfileModel>, name: Seq<char>, i: int) -> bool {
    &&& 0 <= i < ps.len()
    &&& ps[i].name == name
    &&& forall|j: int| 0 <= j < i ==> #[trigger] ps[j].name != name
}

/// The entries that are not named `name`.
pub open spec fn other_than(name: Seq<char>) -> spec_fn(ProfileModel) -> bool {
    |p: ProfileModel| p.name != name
}

/// `ps` without its entries named `name`, the others in their order.
pub open spec fn without(ps: Seq<ProfileModel>, name: Seq<char>) -> Seq<ProfileModel> {
    ps.filter(other_than(name))
}

/// No two entries of `ps` share a name.
pub open spec fn names_unique(ps: Seq<ProfileModel>) -> bool {
    forall|i: int, j: int|
        0 <= i < ps.len() && 0 <= j < ps.len() && i != j ==> #[trigger] ps[i].name
            != #[trigger] ps[j].name
}

/// The number of entries of `ps` named `name`.
pub open spec fn count_named(ps: Seq<ProfileModel>, name: Seq<char>) -> nat
    decreases ps.len(),
{
    if ps.len() == 0 {
        0
    } else {
        count_named(ps.drop_last(), name) + if ps.last().name == name {
            1nat
        } else {
            0nat
        }
    }
}

/// The position of the first stored profile named `name`, if any.
pub fn find_profile(profiles: &Vec<Profile>, name: &str) -> (r: Option<usize>)
    ensures
        r is None <==> !has_name(model_of(profiles@), name@),
        r matches Some(i) ==> is_first_match(model_of(profiles@), name@, i as int),
{
    let key = name.to_owned();
    let mut i: usize = 0;
    while i < profiles.len()
        invariant
            0 <= i <= profiles.len(),
            key@ == name@,
            forall|j: int| 0 <= j < i ==> #[trigger] profiles@[j].name@ != name@,
        decreases profiles.len() - i,
    {
        if profiles[i].name == key {
            assert(model_of(profiles@)[i as int].name == name@);
            return Some(i);
        }
        i = i + 1;
    }
    proof {
        assert forall|k: int| 0 <= k < model_of(profiles@).len() implies #[trigger] model_of(
            profiles@,
        )[k].name != name@ by {
            assert(profiles@[k].name@ != name@);
        }
    }
    None
}

/// Appends a profile named `name` with `backend`, unless that name is taken.
pub fn add_profile(profiles: &mut Vec<Profile>, name: String, backend: String) -> (r: Result<
    (),
    ProfileError,
>)
    ensures
        r is Ok <==> !has_name(model_of(old(profiles)@), name@),
        r is Ok ==> model_of(final(profiles)@) == model_of(old(profiles)@).push(
            ProfileModel { name: name@, backend: backend@ },
        ),
        r is Err ==> final(profiles)@ == old(profiles)@ && r == Err::<(), ProfileError>(
            ProfileError::Duplicate(name),
        ),
{
    if find_profile(profiles, name.as_str()).is_some() {
        return Err(ProfileError::Duplicate(name));
    }
    let ghost before = model_of(profiles@);
    profiles.push(Profile::new(name, backend));
    assert(model_of(profiles@) =~= before.push(ProfileModel { name: name@, backend: backend@ }));
    Ok(())
}

/// Replaces the backend of the first profile named `name`.
pub fn edit_profile(profiles: &mut Vec<Profile>, name: &str, new_backend: String) -> (r: Result<
    (),
    ProfileError,
>)
    ensures
        r is Ok <==> has_name(model_of(old(profiles)@), name@),
        r is Ok ==> exists|i: int|
            is_first_match(model_of(old(profiles)@), name@, i) && model_of(final(profiles)@)
                == model_of(old(profiles)@).update(
                i,
                ProfileModel { name: name@, backend: new_backend@ },
            ),
        r is Err ==> final(profiles)@ == old(profiles)@ && (r matches Err(
            ProfileError::NotFound(n),
        ) && n@ == name@),
{
    match find_profile(profiles, name) {
        Some(i) => {
            let ghost before = model_of(profiles@);
            let kept = profiles[i].name.clone();
            profiles.set(i, Profile::new(kept, new_backend));
            assert(model_of(profiles@) =~= before.update(
                i as int,
                ProfileModel { name: name@, backend: new_backend@ },
            ));
            Ok(())
        },
        None => Err(ProfileError::NotFound(name.to_owned())),
    }
}

/// Removes every profile named `name`; there must be at least one.
pub fn delete_profile(profiles: &mut Vec<Profile>, name: &str) -> (r: Result<(), ProfileError>)
    ensures
        r is Ok <==> has_name(model_of(old(profiles)@), name@),
        r is Ok ==> model_of(final(profiles)@) == without(model_of(old(profiles)@), name@),
        r is Err ==> final(profiles)@ == old(profiles)@ && (r matches Err(
            ProfileError::NotFound(n),
        ) && n@ == name@),
{
    if find_profile(profiles, name).is_none() {
        return Err(ProfileError::NotFound(name.to_owned()));
    }
    let ghost all = model_of(profiles@);
    let key = name.to_owned();
    let mut kept: Vec<Profile> = Vec::new();
    let mut i: usize = 0;
    while i < profiles.len()
        invariant
            0 <= i <= profiles.len(),
            key@ == name@,
            all == model_of(profiles@),
            model_of(kept@) == without(all.subrange(0, i as int), name@),
        decreases profiles.len() - i,
    {
        proof {
            assert(all.subrange(0, i + 1) =~= all.subrange(0, i as int).push(all[i as int]));
            all.subrange(0, i as int).lemma_filter_push(all[i as int], other_than(name@));
        }
        if profiles[i].name != key {
            let ghost prev = model_of(kept@);
            kept.push(Profile::new(profiles[i].name.clone(), profiles[i].backend.clone()));
            assert(model_of(kept@) =~= prev.push(all[i as int]));
        }
        i = i + 1;
    }
    assert(all.subrange(0, profiles.len() as int) =~= all);
    *profiles = kept;
    Ok(())
}

} // verus!
