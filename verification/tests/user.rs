use conduit::api::error::ApiErr;
use conduit::api::user::{
    get_current_user, login_user, new_user, register_user, update_user, LoginUser, LoginUserDto,
    NewUser, RegisterUser, RegisterUserDto, UpdateUser, UpdateUserDto, UserDto,
};
use conduit::entity::user;
use conduit::middleware::auth::{check_passwords, create_token, hash_password, PasswordErr};
use conduit::repo::user::{Profile, UserWithToken};

const SECRET: &str = "secret";

fn some_user(password: &str) -> user::Model {
    user::Model {
        id: 5,
        email: "email".to_owned(),
        username: "username".to_owned(),
        bio: Some("bio".to_owned()),
        image: Some("image".to_owned()),
        password: password.to_owned(),
    }
}

#[test]
fn convert_from() {
    let id = uuid::Uuid::new_v4().as_u128();
    let token = create_token(id, SECRET).unwrap();

    let user_with_token: UserWithToken = UserWithToken::with_token(
        user::Model {
            id,
            email: "email".to_owned(),
            username: "username".to_owned(),
            bio: Some("bio".to_owned()),
            image: Some("image".to_owned()),
            password: "password".to_owned(),
        },
        SECRET,
    )
    .unwrap();

    let expected = UserWithToken {
        token,
        email: "email".to_owned(),
        username: "username".to_owned(),
        bio: Some("bio".to_owned()),
        image: Some("image".to_owned()),
    };

    assert_eq!(user_with_token, expected);
}

#[test]
fn convert_from_with_none() {
    let id = uuid::Uuid::new_v4().as_u128();
    let token = create_token(id, SECRET).unwrap();

    let user_with_token: UserWithToken = UserWithToken::with_token(
        user::Model {
            id,
            email: "email".to_owned(),
            username: "username".to_owned(),
            bio: None,
            image: None,
            password: "password".to_owned(),
        },
        SECRET,
    )
    .unwrap();

    let expected = UserWithToken {
        token,
        email: "email".to_owned(),
        username: "username".to_owned(),
        bio: None,
        image: None,
    };

    assert_eq!(user_with_token, expected);
}

#[test]
fn from_model_shows_everything_but_id_and_password() {
    assert_eq!(
        UserWithToken::from_model(some_user("hash"), "tkn".to_owned()),
        UserWithToken {
            token: "tkn".to_owned(),
            email: "email".to_owned(),
            username: "username".to_owned(),
            bio: Some("bio".to_owned()),
            image: Some("image".to_owned()),
        }
    );
}

#[test]
fn default_profile_is_empty() {
    assert_eq!(
        Profile::default(),
        Profile { username: String::new(), bio: None, image: None, following: false }
    );
}

#[test]
fn login_needs_a_user() {
    let payload = LoginUserDto {
        user: LoginUser { email: "email".to_owned(), password: "password".to_owned() },
    };
    assert_eq!(login_user(None, payload), Err(ApiErr::UserNotExist));
}

#[test]
fn login_with_the_right_password_gives_the_user() {
    let row = some_user(&hash_password("password").unwrap());
    let payload = LoginUserDto {
        user: LoginUser { email: "email".to_owned(), password: "password".to_owned() },
    };
    assert_eq!(login_user(Some(row.clone()), payload), Ok(row));
}

#[test]
fn login_with_a_wrong_password_fails() {
    let row = some_user(&hash_password("password").unwrap());
    let payload = LoginUserDto {
        user: LoginUser { email: "email".to_owned(), password: "drowssap".to_owned() },
    };
    assert_eq!(login_user(Some(row), payload), Err(ApiErr::WrongPass));
}

#[test]
fn login_against_a_password_that_is_no_hash_fails() {
    let payload = LoginUserDto {
        user: LoginUser { email: "email".to_owned(), password: "password".to_owned() },
    };
    assert_eq!(login_user(Some(some_user("password")), payload), Err(ApiErr::WrongPass));
}

#[test]
fn new_user_takes_the_hash() {
    let input = RegisterUser {
        username: "username".to_owned(),
        email: "email".to_owned(),
        password: "password".to_owned(),
    };
    assert_eq!(
        new_user(input.clone(), 8, Ok("hash".to_owned())),
        Ok(NewUser {
            id: 8,
            email: "email".to_owned(),
            username: "username".to_owned(),
            password: "hash".to_owned(),
        })
    );
    assert_eq!(new_user(input, 8, Err(PasswordErr)), Err(ApiErr::WrongPass));
}

#[test]
fn register_hashes_the_password() {
    let payload = RegisterUserDto {
        user: RegisterUser {
            username: "username".to_owned(),
            email: "email".to_owned(),
            password: "password".to_owned(),
        },
    };
    let row = register_user(payload).unwrap();
    assert_eq!(row.email, "email");
    assert_eq!(row.username, "username");
    assert_ne!(row.password, "password");
    assert_eq!(check_passwords("password", &row.password), Ok(()));
    assert_eq!(uuid::Uuid::from_u128(row.id).get_version_num(), 4);
    assert_eq!(uuid::Uuid::from_u128(row.id).get_variant(), uuid::Variant::RFC4122);
}

#[test]
fn current_user_must_be_there() {
    let user = UserWithToken::from_model(some_user("hash"), "tkn".to_owned());
    assert_eq!(get_current_user(Some(user.clone())), Ok(UserDto { user }));
    assert_eq!(get_current_user(None), Err(ApiErr::UserNotExist));
}

#[test]
fn update_needs_a_user() {
    let payload = UpdateUserDto { user: UpdateUser::default() };
    assert_eq!(update_user(None, payload), Err(ApiErr::UserNotExist));
}

#[test]
fn update_without_values_changes_nothing() {
    let payload = UpdateUserDto { user: UpdateUser::default() };
    assert_eq!(update_user(Some(some_user("hash")), payload), Ok(some_user("hash")));
}

#[test]
fn update_replaces_what_is_given() {
    let payload = UpdateUserDto {
        user: UpdateUser {
            email: Some("new email".to_owned()),
            username: Some("new username".to_owned()),
            bio: Some("new bio".to_owned()),
            password: Some("new password".to_owned()),
            image: Some("new image".to_owned()),
        },
    };
    assert_eq!(
        update_user(Some(some_user("hash")), payload),
        Ok(user::Model {
            id: 5,
            email: "new email".to_owned(),
            username: "new username".to_owned(),
            bio: Some("new bio".to_owned()),
            image: Some("new image".to_owned()),
            password: "new password".to_owned(),
        })
    );
}

#[test]
fn update_replaces_only_what_is_given() {
    let payload = UpdateUserDto {
        user: UpdateUser { bio: Some("new bio".to_owned()), ..Default::default() },
    };
    let mut expected = some_user("hash");
    expected.bio = Some("new bio".to_owned());
    assert_eq!(update_user(Some(some_user("hash")), payload), Ok(expected));
}
