//! Profiles: showing a user, following and unfollowing.

use crate::api::error::{fails_with, ApiErr, ApiErrView};
use crate::entity::{follower, user};
use crate::middleware::auth::Token;
use crate::repo::user::{Profile, ProfileView};
use vstd::prelude::*;

verus! {

/// The profile of one user.
#[derive(Clone, Debug, PartialEq, Eq)]
pub struct ProfileDto {
    pub profile: Profile,
}

/// The value of [`ProfileDto`] that contracts speak of.
pub ghost struct ProfileDtoView {
    pub profile: ProfileView,
}

impl DeepView for ProfileDto {
    type V = ProfileDtoView;

    open spec fn deep_view(&self) -> ProfileDtoView {
        ProfileDtoView {
            profile: self.profile.deep_view(),
        }
    }
}

/// The relation between the user found under a name and the user who
/// follows, or the failure where there is no user of that name.
pub open spec fn following(
    found: Option<user::ModelView>,
    user: u128,
    res: Result<follower::Model, ApiErr>,
) -> bool {
    match found {
        None => fails_with(res, ApiErrView::UserNotExist),
        Some(row) => res matches Ok(rel) && rel.deep_view() == (follower::ModelView {
            user_id: row.id,
            follower_id: user,
        }),
    }
}

/// The answer to a request for a profile: a failure where there is no
/// user of that name.
pub fn get_profile(found: Option<Profile>) -> (res: Result<ProfileDto, ApiErr>)
    ensures
        found is Some ==> res == Ok::<ProfileDto, ApiErr>(ProfileDto { profile: found.unwrap() }),
        found is None ==> fails_with(res, ApiErrView::UserNotExist),
{
    match found {
        Some(profile) => Ok(ProfileDto { profile }),
        None => Err(ApiErr::UserNotExist),
    }
}

fn follow_relation(found: Option<&user::Model>, token: Token) -> (res: Result<
    follower::Model,
    ApiErr,
>)
    ensures
        following(found.deep_view(), token.id, res),
{
    match found {
        Some(row) => Ok(follower::Model { user_id: row.id, follower_id: token.id }),
        None => Err(ApiErr::UserNotExist),
    }
}

/// The relation to store when the user who holds `token` follows the user
/// found under the name of the request.
pub fn follow_user(found: Option<&user::Model>, token: Token) -> (res: Result<
    follower::Model,
    ApiErr,
>)
    ensures
        following(found.deep_view(), token.id, res),
{
    follow_relation(found, token)
}

/// The relation to delete when the user who holds `token` stops following
/// the user found under the name of the request.
pub fn unfollow_user(found: Option<&user::Model>, token: Token) -> (res: Result<
    follower::Model,
    ApiErr,
>)
    ensures
        following(found.deep_view(), token.id, res),
{
    follow_relation(found, token)
}

} // verus!
