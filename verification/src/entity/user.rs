//! A registered user.

use vstd::prelude::*;

verus! {

/// One row of the `user` table.
#[derive(Clone, Debug, PartialEq, Eq)]
pub struct Model {
    /// Identifier, the 128 bits of a UUID.
    pub id: u128,
    /// Unique e-mail address.
    pub email: String,
    /// Unique display name.
    pub username: String,
    /// Free text about the user.
    pub bio: Option<String>,
    /// Link to an avatar.
    pub image: Option<String>,
    /// Password hash in PHC string format.
    pub password: String,
}

/// The value of a row that contracts speak of: texts as sequences of characters.
pub ghost struct ModelView {
    pub id: u128,
    pub email: Seq<char>,
    pub username: Seq<char>,
    pub bio: Option<Seq<char>>,
    pub image: Option<Seq<char>>,
    pub password: Seq<char>,
}

impl DeepView for Model {
    type V = ModelView;

    open spec fn deep_view(&self) -> ModelView {
        ModelView {
            id: self.id,
            email: self.email.deep_view(),
            username: self.username.deep_view(),
            bio: self.bio.deep_view(),
            image: self.image.deep_view(),
            password: self.password.deep_view(),
        }
    }
}

} // verus!
