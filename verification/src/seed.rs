//! Preparing the rows of a fixture file for storing.

use crate::entity::{article, comment, tag, user};
use crate::ident::{fresh_id, is_random_id};
use crate::middleware::auth::{hash_password, password_verifies, PasswordErr};
use vstd::prelude::*;

verus! {

/// A user of a fixture file as it is stored: under a fresh identifier, and
/// with a hash in place of the password, against which the password
/// verifies.
pub open spec fn seeded_user(model: user::ModelView, row: user::ModelView) -> bool {
    &&& is_random_id(row.id)
    &&& password_verifies(model.password, row.password)
    &&& row == (user::ModelView { id: row.id, password: row.password, ..model })
}

/// What preparing a user yields, given the identifier drawn and the
/// outcome of hashing the password: the user under that identifier with
/// the hash, or the failure to hash.
pub open spec fn stored_user(
    model: user::ModelView,
    id: u128,
    hashed: Result<String, PasswordErr>,
    res: Result<user::Model, PasswordErr>,
) -> bool {
    match hashed {
        Ok(hash) => res matches Ok(row) && row.deep_view() == (user::ModelView {
            id,
            password: hash@,
            ..model
        }),
        Err(err) => res == Err::<user::Model, PasswordErr>(err),
    }
}

/// The user to store for a user of a fixture file, given the identifier
/// drawn and the outcome of hashing the password.
pub fn user_to_store(model: user::Model, id: u128, hashed: Result<String, PasswordErr>) -> (res:
    Result<user::Model, PasswordErr>)
    ensures
        stored_user(model.deep_view(), id, hashed, res),
{
    match hashed {
        Ok(hash) => Ok(
            user::Model {
                id,
                email: model.email,
                username: model.username,
                bio: model.bio,
                image: model.image,
                password: hash,
            },
        ),
        Err(err) => Err(err),
    }
}

/// Prepares a user of a fixture file for storing. Fails where the password
/// cannot be hashed.
pub fn seed_user(model: user::Model) -> (res: Result<user::Model, PasswordErr>)
    ensures
        res matches Ok(row) ==> seeded_user(model.deep_view(), row.deep_view()),
{
    let hashed = hash_password(model.password.as_str());
    user_to_store(model, fresh_id(), hashed)
}

/// Prepares an article of a fixture file for storing: the same article
/// under a fresh identifier.
pub fn seed_article(model: article::Model) -> (row: article::Model)
    ensures
        is_random_id(row.id),
        row.deep_view() == (article::ModelView { id: row.id, ..model.deep_view() }),
{
    article::Model {
        id: fresh_id(),
        slug: model.slug,
        title: model.title,
        description: model.description,
        body: model.body,
        author_id: model.author_id,
        created_at: model.created_at,
        updated_at: model.updated_at,
    }
}

/// Prepares a comment of a fixture file for storing: the same comment
/// under a fresh identifier.
pub fn seed_comment(model: comment::Model) -> (row: comment::Model)
    ensures
        is_random_id(row.id),
        row.deep_view() == (comment::ModelView { id: row.id, ..model.deep_view() }),
{
    comment::Model {
        id: fresh_id(),
        body: model.body,
        author_id: model.author_id,
        article_id: model.article_id,
        created_at: model.created_at,
        updated_at: model.updated_at,
    }
}

/// Prepares a tag of a fixture file for storing: the same tag under a
/// fresh identifier.
pub fn seed_tag(model: tag::Model) -> (row: tag::Model)
    ensures
        is_random_id(row.id),
        row.deep_view() == (tag::ModelView { id: row.id, ..model.deep_view() }),
{
    tag::Model { id: fresh_id(), tag_name: model.tag_name }
}

} // verus!
