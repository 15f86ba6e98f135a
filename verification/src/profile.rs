use vstd::prelude::*;

verus! {

/// A profile record: two byte strings bounded by the configured maximum
/// length, and an unconstrained 8-bit age.
#[derive(Clone, Debug, PartialEq, Eq)]
pub struct Profile {
    pub name: Vec<u8>,
    pub age: u8,
    pub title: Vec<u8>,
}

/// The mathematical value of a [`Profile`].
#[verifier::ext_equal]
pub struct ProfileView {
    pub name: Seq<u8>,
    pub age: u8,
    pub title: Seq<u8>,
}

impl View for Profile {
    type V = ProfileView;

    open spec fn view(&self) -> ProfileView {
        ProfileView { name: self.name@, age: self.age, title: self.title@ }
    }
}

/// Whether a profile's byte strings respect the configured bound.
pub open spec fn valid_lengths(name: Seq<u8>, title: Seq<u8>, max_length: u32) -> bool {
    name.len() <= max_length && title.len() <= max_length
}

/// What the registry stores for one identity: a profile and the amount held
/// in reserve on the identity's behalf while the entry exists.
#[derive(Clone, Debug, PartialEq, Eq)]
pub struct Entry {
    pub profile: Profile,
    pub deposit: u64,
}

/// The mathematical value of an [`Entry`].
#[verifier::ext_equal]
pub struct EntryView {
    pub profile: ProfileView,
    pub deposit: u64,
}

impl View for Entry {
    type V = EntryView;

    open spec fn view(&self) -> EntryView {
        EntryView { profile: self.profile@, deposit: self.deposit }
    }
}

} // verus!
