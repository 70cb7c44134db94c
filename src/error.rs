use vstd::prelude::*;
use vstd::string::*;

verus! {

/// Why an operation on the profiles or the active profile did not happen.
#[derive(Debug, Clone)]
pub enum ProfileError {
    /// A file could not be read, written or created; the text says which.
    Io(String),
    /// The profile file is not a JSON array of profiles; the text says why.
    Format(String),
    /// A profile with this name is already stored.
    Duplicate(String),
    /// No profile with this name is stored.
    NotFound(String),
    /// The user's home directory could not be determined.
    NoHomeDirectory,
    /// The interactive picker failed; the text says why.
    Selection(String),
}


impl ProfileError {
    /// The human-readable text reported for this error.
    pub open spec fn spec_message(&self) -> Seq<char> {
        match self {
            ProfileError::Io(s) => s@,
            ProfileError::Format(s) => s@,
            ProfileError::Duplicate(n) => "Profile '"@ + n@ + "' already exists"@,
            ProfileError::NotFound(n) => "Profile '"@ + n@ + "' not found"@,
            ProfileError::NoHomeDirectory => "Unable to determine home directory"@,
            ProfileError::Selection(s) => "Selection failed: "@ + s@,
        }
    }

    /// The human-readable text reported for this error.
    pub fn message(&self) -> (r: String)
        ensures
            r@ == self.spec_message(),
    {
        match self {
            ProfileError::Io(s) => s.clone(),
            ProfileError::Format(s) => s.clone(),
            ProfileError::Duplicate(n) => {
                let mut r = String::from_str("Profile '");
                r.append(n.as_str());
                r.append("' already exists");
                r
            },
            ProfileError::NotFound(n) => {
                let mut r = String::from_str("Profile '");
                r.append(n.as_str());
                r.append("' not found");
                r
            },
            ProfileError::NoHomeDirectory => String::from_str("Unable to determine home directory"),
            ProfileError::Selection(s) => {
                let mut r = String::from_str("Selection failed: ");
                r.append(s.as_str());
                r
            },
        }
    }
}

} // verus!
