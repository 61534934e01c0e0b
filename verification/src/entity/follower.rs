//! The relation that records who follows whom.

use vstd::prelude::*;

verus! {

/// One row of the `follower` table.
#[derive(Clone, Debug, PartialEq, Eq)]
pub struct Model {
    /// The user who is followed.
    pub user_id: u128,
    /// The user who follows.
    pub follower_id: u128,
}

/// The value of a [`Model`] that contracts speak of.
pub ghost struct ModelView {
    pub user_id: u128,
    pub follower_id: u128,
}

impl DeepView for Model {
    type V = ModelView;

    open spec fn deep_view(&self) -> ModelView {
        ModelView {
            user_id: self.user_id,
            follower_id: self.follower_id,
        }
    }
}

} // verus!
