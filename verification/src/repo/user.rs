//! Users as the API shows them.

use crate::entity::user;
use crate::middleware::auth::{create_token, expiry, signed_claims};
use crate::repo::check::{Check, CheckView};
use vstd::prelude::*;

verus! {

/// The current user, with a fresh token.
#[derive(Clone, Debug, PartialEq, Eq)]
pub struct UserWithToken {
    /// Bearer token with which the user authenticates.
    pub token: String,
    pub email: String,
    pub username: String,
    pub bio: Option<String>,
    pub image: Option<String>,
}

/// The value of [`UserWithToken`] that contracts speak of.
pub ghost struct UserWithTokenView {
    pub token: Seq<char>,
    pub email: Seq<char>,
    pub username: Seq<char>,
    pub bio: Option<Seq<char>>,
    pub image: Option<Seq<char>>,
}

impl DeepView for UserWithToken {
    type V = UserWithTokenView;

    open spec fn deep_view(&self) -> UserWithTokenView {
        UserWithTokenView {
            token: self.token.deep_view(),
            email: self.email.deep_view(),
            username: self.username.deep_view(),
            bio: self.bio.deep_view(),
            image: self.image.deep_view(),
        }
    }
}

/// The public side of a user: the author of an article or a comment.
#[derive(Clone, Debug, Default, PartialEq, Eq)]
pub struct Profile {
    pub username: String,
    pub bio: Option<String>,
    pub image: Option<String>,
    /// Whether the user who asks follows this one.
    pub following: bool,
}

/// The value of [`Profile`] that contracts speak of.
pub ghost struct ProfileView {
    pub username: Seq<char>,
    pub bio: Option<Seq<char>>,
    pub image: Option<Seq<char>>,
    pub following: bool,
}

impl DeepView for Profile {
    type V = ProfileView;

    open spec fn deep_view(&self) -> ProfileView {
        ProfileView {
            username: self.username.deep_view(),
            bio: self.bio.deep_view(),
            image: self.image.deep_view(),
            following: self.following.deep_view(),
        }
    }
}

/// Whether a user, or an author, is followed by the user who asks. Nobody
/// is followed where it is not known who asks.
pub open spec fn followed_by(user_id: Option<u128>) -> CheckView {
    match user_id {
        Some(id) => CheckView::FollowedBy(id),
        None => CheckView::Never,
    }
}

/// The condition that tells whether the user who asks follows the user,
/// or the author, of a row.
pub fn author_followed_by_current_user(user_id: Option<u128>) -> (check: Check)
    ensures
        check.deep_view() == followed_by(user_id),
{
    match user_id {
        Some(id) => Check::FollowedBy(id),
        None => Check::Never,
    }
}

impl UserWithToken {
    /// What the API shows of `model` together with `token`: everything
    /// but the identifier and the password.
    pub open spec fn shown(model: user::ModelView, token: Seq<char>) -> UserWithTokenView {
        UserWithTokenView {
            token,
            email: model.email,
            username: model.username,
            bio: model.bio,
            image: model.image,
        }
    }

    /// What the API shows of `model` with a token issued at `now` and
    /// signed with `secret`; nothing where no token can be signed.
    pub open spec fn shown_at(model: user::ModelView, now: i64, secret: Seq<char>) -> Option<
        UserWithTokenView,
    > {
        match signed_claims(expiry(now), model.id, secret) {
            Some(token) => Some(Self::shown(model, token)),
            None => None,
        }
    }

    /// The user `model` as the API shows it, with the given token.
    pub fn from_model(model: user::Model, token: String) -> (res: Self)
        ensures
            res.deep_view() == Self::shown(model.deep_view(), token@),
    {
        UserWithToken {
            token,
            email: model.email,
            username: model.username,
            bio: model.bio,
            image: model.image,
        }
    }

    /// The user `model` as the API shows it, with a token issued now and
    /// signed with `secret`. Returns nothing where no token can be signed.
    pub fn with_token(model: user::Model, secret: &str) -> (res: Option<Self>)
        ensures
            exists|now: i64|
                res.deep_view() == #[trigger] Self::shown_at(model.deep_view(), now, secret@),
    {
        let token = create_token(model.id, secret);
        let ghost now = choose|now: i64|
            token.deep_view() == signed_claims(expiry(now), model.id, secret@);
        let res = match token {
            Some(token) => Some(UserWithToken::from_model(model, token)),
            None => None,
        };
        assert(res.deep_view() == Self::shown_at(model.deep_view(), now, secret@));
        res
    }
}

} // verus!
