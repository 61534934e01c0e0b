//! Users: registering, logging in, and changing one's own data.

use crate::api::error::{fails_with, ApiErr, ApiErrView};
use crate::entity::user;
use crate::ident::{fresh_id, is_random_id};
use crate::middleware::auth::{check_passwords, hash_password, password_verifies, PasswordErr};
use crate::repo::user::{UserWithToken, UserWithTokenView};
use vstd::prelude::*;

verus! {

/// The current user.
#[derive(Clone, Debug, PartialEq, Eq)]
pub struct UserDto {
    pub user: UserWithToken,
}

/// The value of [`UserDto`] that contracts speak of.
pub ghost struct UserDtoView {
    pub user: UserWithTokenView,
}

impl DeepView for UserDto {
    type V = UserDtoView;

    open spec fn deep_view(&self) -> UserDtoView {
        UserDtoView {
            user: self.user.deep_view(),
        }
    }
}

/// What a request to log in carries.
#[derive(Clone, Debug, PartialEq, Eq)]
pub struct LoginUser {
    pub email: String,
    pub password: String,
}

/// The value of [`LoginUser`] that contracts speak of.
pub ghost struct LoginUserView {
    pub email: Seq<char>,
    pub password: Seq<char>,
}

impl DeepView for LoginUser {
    type V = LoginUserView;

    open spec fn deep_view(&self) -> LoginUserView {
        LoginUserView {
            email: self.email.deep_view(),
            password: self.password.deep_view(),
        }
    }
}

/// The body of a request to log in.
#[derive(Clone, Debug, PartialEq, Eq)]
pub struct LoginUserDto {
    pub user: LoginUser,
}

/// The value of [`LoginUserDto`] that contracts speak of.
pub ghost struct LoginUserDtoView {
    pub user: LoginUserView,
}

impl DeepView for LoginUserDto {
    type V = LoginUserDtoView;

    open spec fn deep_view(&self) -> LoginUserDtoView {
        LoginUserDtoView {
            user: self.user.deep_view(),
        }
    }
}

/// What a request to register carries.
#[derive(Clone, Debug, PartialEq, Eq)]
pub struct RegisterUser {
    pub username: String,
    pub email: String,
    pub password: String,
}

/// The value of [`RegisterUser`] that contracts speak of.
pub ghost struct RegisterUserView {
    pub username: Seq<char>,
    pub email: Seq<char>,
    pub password: Seq<char>,
}

impl DeepView for RegisterUser {
    type V = RegisterUserView;

    open spec fn deep_view(&self) -> RegisterUserView {
        RegisterUserView {
            username: self.username.deep_view(),
            email: self.email.deep_view(),
            password: self.password.deep_view(),
        }
    }
}

/// The body of a request to register.
#[derive(Clone, Debug, PartialEq, Eq)]
pub struct RegisterUserDto {
    pub user: RegisterUser,
}

/// The value of [`RegisterUserDto`] that contracts speak of.
pub ghost struct RegisterUserDtoView {
    pub user: RegisterUserView,
}

impl DeepView for RegisterUserDto {
    type V = RegisterUserDtoView;

    open spec fn deep_view(&self) -> RegisterUserDtoView {
        RegisterUserDtoView {
            user: self.user.deep_view(),
        }
    }
}

/// What a request to change the current user carries; what is absent stays as it is.
#[derive(Clone, Default, Debug, PartialEq, Eq)]
pub struct UpdateUser {
    pub email: Option<String>,
    pub username: Option<String>,
    pub bio: Option<String>,
    pub password: Option<String>,
    pub image: Option<String>,
}

/// The value of [`UpdateUser`] that contracts speak of.
pub ghost struct UpdateUserView {
    pub email: Option<Seq<char>>,
    pub username: Option<Seq<char>>,
    pub bio: Option<Seq<char>>,
    pub password: Option<Seq<char>>,
    pub image: Option<Seq<char>>,
}

impl DeepView for UpdateUser {
    type V = UpdateUserView;

    open spec fn deep_view(&self) -> UpdateUserView {
        UpdateUserView {
            email: self.email.deep_view(),
            username: self.username.deep_view(),
            bio: self.bio.deep_view(),
            password: self.password.deep_view(),
            image: self.image.deep_view(),
        }
    }
}

/// The body of a request to change the current user.
#[derive(Clone, Debug, PartialEq, Eq)]
pub struct UpdateUserDto {
    pub user: UpdateUser,
}

/// The value of [`UpdateUserDto`] that contracts speak of.
pub ghost struct UpdateUserDtoView {
    pub user: UpdateUserView,
}

impl DeepView for UpdateUserDto {
    type V = UpdateUserDtoView;

    open spec fn deep_view(&self) -> UpdateUserDtoView {
        UpdateUserDtoView {
            user: self.user.deep_view(),
        }
    }
}

/// A user to store, without biography and image.
#[derive(Clone, Debug, PartialEq, Eq)]
pub struct NewUser {
    pub id: u128,
    pub email: String,
    pub username: String,
    /// Hash of the password.
    pub password: String,
}

/// The value of [`NewUser`] that contracts speak of.
pub ghost struct NewUserView {
    pub id: u128,
    pub email: Seq<char>,
    pub username: Seq<char>,
    pub password: Seq<char>,
}

impl DeepView for NewUser {
    type V = NewUserView;

    open spec fn deep_view(&self) -> NewUserView {
        NewUserView {
            id: self.id.deep_view(),
            email: self.email.deep_view(),
            username: self.username.deep_view(),
            password: self.password.deep_view(),
        }
    }
}

/// What a request to log in yields: a failure where no user has the
/// address, another where the password does not match the stored hash,
/// else the user.
pub open spec fn logged_in(
    found: Option<user::Model>,
    password: Seq<char>,
    res: Result<user::Model, ApiErr>,
) -> bool {
    match found {
        None => fails_with(res, ApiErrView::UserNotExist),
        Some(row) => if password_verifies(password, row.password@) {
            res == Ok::<user::Model, ApiErr>(row)
        } else {
            fails_with(res, ApiErrView::WrongPass)
        },
    }
}

/// What a request to register becomes, given the identifier drawn for the
/// user and the outcome of hashing the password: the user with that hash,
/// or the failure where there is no hash.
pub open spec fn registered(
    input: RegisterUserView,
    id: u128,
    hashed: Result<String, PasswordErr>,
    res: Result<NewUser, ApiErr>,
) -> bool {
    match hashed {
        Err(_) => fails_with(res, ApiErrView::WrongPass),
        Ok(hash) => res matches Ok(row) && row.deep_view() == (NewUserView {
            id,
            email: input.email,
            username: input.username,
            password: hash@,
        }),
    }
}

/// A user after a change: each value that the request carries replaces the
/// old one. A biography or an image, once set, can be replaced but not
/// taken away.
pub open spec fn changed(row: user::ModelView, input: UpdateUserView) -> user::ModelView {
    user::ModelView {
        id: row.id,
        email: match input.email {
            Some(email) => email,
            None => row.email,
        },
        username: match input.username {
            Some(username) => username,
            None => row.username,
        },
        bio: match input.bio {
            Some(bio) => Some(bio),
            None => row.bio,
        },
        image: match input.image {
            Some(image) => Some(image),
            None => row.image,
        },
        password: match input.password {
            Some(password) => password,
            None => row.password,
        },
    }
}

/// What a request to change the current user yields: a failure where
/// there is no such user, else the user as changed.
pub open spec fn change(
    found: Option<user::ModelView>,
    input: UpdateUserView,
    res: Result<user::Model, ApiErr>,
) -> bool {
    match found {
        None => fails_with(res, ApiErrView::UserNotExist),
        Some(row) => res matches Ok(after) && after.deep_view() == changed(row, input),
    }
}

/// Checks a request to log in against the user found under its address.
pub fn login_user(found: Option<user::Model>, payload: LoginUserDto) -> (res: Result<
    user::Model,
    ApiErr,
>)
    ensures
        logged_in(found, payload.user.password@, res),
{
    match found {
        None => Err(ApiErr::UserNotExist),
        Some(row) => match check_passwords(payload.user.password.as_str(), row.password.as_str()) {
            Ok(()) => Ok(row),
            Err(_) => Err(ApiErr::WrongPass),
        },
    }
}

/// The user to store for a request to register, given the identifier
/// drawn for the user and the outcome of hashing the password.
pub fn new_user(input: RegisterUser, id: u128, hashed: Result<String, PasswordErr>) -> (res: Result<
    NewUser,
    ApiErr,
>)
    ensures
        registered(input.deep_view(), id, hashed, res),
{
    match hashed {
        Ok(hash) => Ok(NewUser { id, email: input.email, username: input.username, password: hash }),
        Err(_) => Err(ApiErr::WrongPass),
    }
}

/// Prepares the user of a request to register: a fresh identifier, and the
/// password as a hash against which it verifies. Fails where the password
/// cannot be hashed.
pub fn register_user(payload: RegisterUserDto) -> (res: Result<NewUser, ApiErr>)
    ensures
        res matches Ok(row) ==> {
            &&& is_random_id(row.id)
            &&& row.email@ == payload.user.email@
            &&& row.username@ == payload.user.username@
            &&& password_verifies(payload.user.password@, row.password@)
        },
        res is Err ==> fails_with(res, ApiErrView::WrongPass),
{
    let hashed = hash_password(payload.user.password.as_str());
    new_user(payload.user, fresh_id(), hashed)
}

/// The answer to a request for the current user: a failure where the user
/// is not there.
pub fn get_current_user(found: Option<UserWithToken>) -> (res: Result<UserDto, ApiErr>)
    ensures
        found is Some ==> res == Ok::<UserDto, ApiErr>(UserDto { user: found.unwrap() }),
        found is None ==> fails_with(res, ApiErrView::UserNotExist),
{
    match found {
        Some(user) => Ok(UserDto { user }),
        None => Err(ApiErr::UserNotExist),
    }
}

/// Applies a request to change the current user to the user found.
pub fn update_user(found: Option<user::Model>, payload: UpdateUserDto) -> (res: Result<
    user::Model,
    ApiErr,
>)
    ensures
        change(found.deep_view(), payload.user.deep_view(), res),
{
    let row = match found {
        Some(row) => row,
        None => {
            return Err(ApiErr::UserNotExist);
        },
    };
    let input = payload.user;
    Ok(
        user::Model {
            id: row.id,
            email: match input.email {
                Some(email) => email,
                None => row.email,
            },
            username: match input.username {
                Some(username) => username,
                None => row.username,
            },
            bio: match input.bio {
                Some(bio) => Some(bio),
                None => row.bio,
            },
            image: match input.image {
                Some(image) => Some(image),
                None => row.image,
            },
            password: match input.password {
                Some(password) => password,
                None => row.password,
            },
        },
    )
}

/// A request that carries nothing leaves the user as it is.
pub proof fn lemma_empty_change(row: user::ModelView)
    ensures
        changed(
            row,
            UpdateUserView { email: None, username: None, bio: None, password: None, image: None },
        ) == row,
{
}

/// Applying the same request twice gives what applying it once gives.
pub proof fn lemma_change_twice(row: user::ModelView, input: UpdateUserView)
    ensures
        changed(changed(row, input), input) == changed(row, input),
{
}

} // verus!
