//! The rows that the fixture builder generates.

use crate::clock::{later, later_by, local_millis};
use crate::entity::{article, article_tag, comment, favorited_article, follower, tag, user};
use crate::ident::{fresh_id, is_random_id};
use crate::testing::relation::{all_within, firsts_within, seconds_within};
use crate::text::{decimal, decimal_string};
use vstd::prelude::*;

verus! {

/// The user number `n`, counted from one, under the identifier `id`.
pub open spec fn user_made(n: nat, id: u128) -> user::ModelView {
    user::ModelView {
        id,
        email: "email"@ + decimal(n),
        username: "username"@ + decimal(n),
        bio: Some("bio"@),
        image: Some("image"@),
        password: "password"@,
    }
}

/// The `n`-th generated user, counted from one: the user of that number
/// under a randomly drawn identifier.
pub open spec fn user_row(row: user::ModelView, n: nat) -> bool {
    is_random_id(row.id) && row == user_made(n, row.id)
}

/// Generated users number one to `qty`, in order.
pub open spec fn user_rows(rows: Seq<user::ModelView>, qty: usize) -> bool {
    &&& rows.len() == qty
    &&& forall|i: int| 0 <= i < rows.len() ==> user_row(#[trigger] rows[i], (i + 1) as nat)
}

/// The tag number `n`, counted from one, under the identifier `id`.
pub open spec fn tag_made(n: nat, id: u128) -> tag::ModelView {
    tag::ModelView { id, tag_name: "tag_name"@ + decimal(n) }
}

/// The `n`-th generated tag, counted from one: the tag of that number
/// under a randomly drawn identifier.
pub open spec fn tag_row(row: tag::ModelView, n: nat) -> bool {
    is_random_id(row.id) && row == tag_made(n, row.id)
}

/// Generated tags number one to `qty`, in order.
pub open spec fn tag_rows(rows: Seq<tag::ModelView>, qty: usize) -> bool {
    &&& rows.len() == qty
    &&& forall|i: int| 0 <= i < rows.len() ==> tag_row(#[trigger] rows[i], (i + 1) as nat)
}

/// A literal followed by the decimal numeral of `n`.
fn numbered(prefix: &str, n: usize) -> (out: String)
    ensures
        out@ == prefix@ + decimal(n as nat),
{
    let number = decimal_string(n as u64);
    String::from_str(prefix).concat(number.as_str())
}

/// Makes the user number `n` under the identifier `id`.
pub fn user_at(n: usize, id: u128) -> (row: user::Model)
    ensures
        row.deep_view() == user_made(n as nat, id),
{
    user::Model {
        id,
        email: numbered("email", n),
        username: numbered("username", n),
        bio: Some(String::from_str("bio")),
        image: Some(String::from_str("image")),
        password: String::from_str("password"),
    }
}

/// Makes the tag number `n` under the identifier `id`.
pub fn tag_at(n: usize, id: u128) -> (row: tag::Model)
    ensures
        row.deep_view() == tag_made(n as nat, id),
{
    tag::Model { id, tag_name: numbered("tag_name", n) }
}

/// Makes the article number `n` of `author` under the identifier `id`,
/// when the clock shows `now`.
pub fn article_at(n: usize, author: u128, id: u128, now: i64) -> (row: article::Model)
    ensures
        row.deep_view() == article_made(n as nat, author, id, now),
{
    let at = later_by(now, n as u64);
    article::Model {
        id,
        slug: numbered("title", n),
        title: numbered("title", n),
        description: String::from_str("description"),
        body: String::from_str("body"),
        author_id: author,
        created_at: Some(at),
        updated_at: Some(at),
    }
}

/// Makes the comment number `n` of `author` on `article` under the
/// identifier `id`, when the clock shows `now`.
pub fn comment_at(n: usize, author: u128, article: u128, id: u128, now: i64) -> (row: comment::Model)
    ensures
        row.deep_view() == comment_made(n as nat, author, article, id, now),
{
    let at = later_by(now, n as u64);
    comment::Model {
        id,
        body: numbered("comment", n),
        author_id: author,
        article_id: article,
        created_at: Some(at),
        updated_at: Some(at),
    }
}

/// Generates the users number one to `qty`, each under a fresh identifier.
pub fn gen_users(qty: usize) -> (rows: Vec<user::Model>)
    ensures
        user_rows(rows.deep_view(), qty),
{
    let mut rows: Vec<user::Model> = Vec::new();
    let mut x: usize = 0;
    while x < qty
        invariant
            x <= qty,
            user_rows(rows.deep_view(), x),
        decreases qty - x,
    {
        let row = user_at(x + 1, fresh_id());
        let ghost before = rows.deep_view();
        rows.push(row);
        assert forall|i: int| 0 <= i < rows.deep_view().len() implies user_row(
            #[trigger] rows.deep_view()[i],
            (i + 1) as nat,
        ) by {
            if i < x {
                assert(rows.deep_view()[i] == before[i]);
            }
        }
        x += 1;
    }
    rows
}

/// Generates the tags number one to `qty`, each under a fresh identifier.
pub fn gen_tags(qty: usize) -> (rows: Vec<tag::Model>)
    ensures
        tag_rows(rows.deep_view(), qty),
{
    let mut rows: Vec<tag::Model> = Vec::new();
    let mut x: usize = 0;
    while x < qty
        invariant
            x <= qty,
            tag_rows(rows.deep_view(), x),
        decreases qty - x,
    {
        let row = tag_at(x + 1, fresh_id());
        let ghost before = rows.deep_view();
        rows.push(row);
        assert forall|i: int| 0 <= i < rows.deep_view().len() implies tag_row(
            #[trigger] rows.deep_view()[i],
            (i + 1) as nat,
        ) by {
            if i < x {
                assert(rows.deep_view()[i] == before[i]);
            }
        }
        x += 1;
    }
    rows
}

/// The article number `n`, counted from one, written by `author` under
/// the identifier `id`, when the clock shows `now`: created and last
/// changed `n` seconds later, so that later articles are more recent.
pub open spec fn article_made(n: nat, author: u128, id: u128, now: i64) -> article::ModelView {
    article::ModelView {
        id,
        slug: "title"@ + decimal(n),
        title: "title"@ + decimal(n),
        description: "description"@,
        body: "body"@,
        author_id: author,
        created_at: Some(later(now, n)),
        updated_at: Some(later(now, n)),
    }
}

/// The `n`-th generated article, counted from one, written by `author`:
/// the article of that number under a randomly drawn identifier, at
/// whatever time the clock showed.
pub open spec fn article_row(row: article::ModelView, n: nat, author: u128) -> bool {
    is_random_id(row.id) && exists|now: i64| row == #[trigger] article_made(n, author, row.id, now)
}

/// One generated article for each number of `rels`, in order, each written
/// by the user that its number names.
pub open spec fn article_rows(
    rows: Seq<article::ModelView>,
    rels: Seq<usize>,
    users: Seq<user::ModelView>,
) -> bool {
    &&& rows.len() == rels.len()
    &&& all_within(rels, users.len())
    &&& forall|i: int|
        0 <= i < rows.len() ==> article_row(#[trigger] rows[i], (i + 1) as nat, users[rels[i] - 1].id)
}

/// The comment number `n`, counted from one, by `author` on `article`
/// under the identifier `id`, when the clock shows `now`: created and last
/// changed `n` seconds later.
pub open spec fn comment_made(n: nat, author: u128, article: u128, id: u128, now: i64) -> comment::ModelView {
    comment::ModelView {
        id,
        body: "comment"@ + decimal(n),
        author_id: author,
        article_id: article,
        created_at: Some(later(now, n)),
        updated_at: Some(later(now, n)),
    }
}

/// The `n`-th generated comment, counted from one, by `author` on
/// `article`: the comment of that number under a randomly drawn
/// identifier, at whatever time the clock showed.
pub open spec fn comment_row(row: comment::ModelView, n: nat, author: u128, article: u128) -> bool {
    is_random_id(row.id) && exists|now: i64|
        row == #[trigger] comment_made(n, author, article, row.id, now)
}

/// One generated comment for each pair of `rels`, in order, by the user and
/// on the article that the pair names.
pub open spec fn comment_rows(
    rows: Seq<comment::ModelView>,
    rels: Seq<(usize, usize)>,
    users: Seq<user::ModelView>,
    articles: Seq<article::ModelView>,
) -> bool {
    &&& rows.len() == rels.len()
    &&& firsts_within(rels, users.len())
    &&& seconds_within(rels, articles.len())
    &&& forall|i: int|
        0 <= i < rows.len() ==> comment_row(
            #[trigger] rows[i],
            (i + 1) as nat,
            users[rels[i].0 - 1].id,
            articles[rels[i].1 - 1].id,
        )
}

/// One link for each pair of `rels`, in order, between the article and the
/// tag that the pair names.
pub open spec fn article_tag_rows(
    rows: Seq<article_tag::ModelView>,
    rels: Seq<(usize, usize)>,
    articles: Seq<article::ModelView>,
    tags: Seq<tag::ModelView>,
) -> bool {
    &&& rows.len() == rels.len()
    &&& firsts_within(rels, articles.len())
    &&& seconds_within(rels, tags.len())
    &&& forall|i: int|
        0 <= i < rows.len() ==> #[trigger] rows[i] == (article_tag::ModelView {
            article_id: articles[rels[i].0 - 1].id,
            tag_id: tags[rels[i].1 - 1].id,
        })
}

/// One relation for each pair of `rels`, in order: the user that the first
/// number names is followed by the user that the second names.
pub open spec fn follower_rows(
    rows: Seq<follower::ModelView>,
    rels: Seq<(usize, usize)>,
    users: Seq<user::ModelView>,
) -> bool {
    &&& rows.len() == rels.len()
    &&& firsts_within(rels, users.len())
    &&& seconds_within(rels, users.len())
    &&& forall|i: int|
        0 <= i < rows.len() ==> #[trigger] rows[i] == (follower::ModelView {
            user_id: users[rels[i].0 - 1].id,
            follower_id: users[rels[i].1 - 1].id,
        })
}

/// One relation for each pair of `rels`, in order: the article that the
/// first number names is favorited by the user that the second names.
pub open spec fn favorited_article_rows(
    rows: Seq<favorited_article::ModelView>,
    rels: Seq<(usize, usize)>,
    articles: Seq<article::ModelView>,
    users: Seq<user::ModelView>,
) -> bool {
    &&& rows.len() == rels.len()
    &&& firsts_within(rels, articles.len())
    &&& seconds_within(rels, users.len())
    &&& forall|i: int|
        0 <= i < rows.len() ==> #[trigger] rows[i] == (favorited_article::ModelView {
            article_id: articles[rels[i].0 - 1].id,
            user_id: users[rels[i].1 - 1].id,
        })
}

/// Generates one article for each number of `rels`, written by the user
/// that the number names, under a fresh identifier and at the time that
/// the clock shows.
pub fn gen_articles(rels: &Vec<usize>, users: &Vec<user::Model>) -> (rows: Vec<article::Model>)
    requires
        all_within(rels@, users@.len()),
    ensures
        article_rows(rows.deep_view(), rels@, users.deep_view()),
{
    let mut rows: Vec<article::Model> = Vec::new();
    let mut idx: usize = 0;
    while idx < rels.len()
        invariant
            idx <= rels.len(),
            all_within(rels@, users@.len()),
            rows@.len() == idx,
            forall|i: int|
                0 <= i < idx ==> article_row(
                    #[trigger] rows.deep_view()[i],
                    (i + 1) as nat,
                    users.deep_view()[rels@[i] - 1].id,
                ),
        decreases rels.len() - idx,
    {
        let author: usize = rels[idx];
        let row = article_at(idx + 1, users[author - 1].id, fresh_id(), local_millis());
        let ghost before = rows.deep_view();
        rows.push(row);
        assert forall|i: int| 0 <= i < idx + 1 implies article_row(
            #[trigger] rows.deep_view()[i],
            (i + 1) as nat,
            users.deep_view()[rels@[i] - 1].id,
        ) by {
            if i < idx {
                assert(rows.deep_view()[i] == before[i]);
            }
        }
        idx += 1;
    }
    rows
}

/// Generates one comment for each pair of `rels`, by the user and on the
/// article that the pair names, under a fresh identifier and at the time
/// that the clock shows.
pub fn gen_comments(
    rels: &Vec<(usize, usize)>,
    users: &Vec<user::Model>,
    articles: &Vec<article::Model>,
) -> (rows: Vec<comment::Model>)
    requires
        firsts_within(rels@, users@.len()),
        seconds_within(rels@, articles@.len()),
    ensures
        comment_rows(rows.deep_view(), rels@, users.deep_view(), articles.deep_view()),
{
    let mut rows: Vec<comment::Model> = Vec::new();
    let mut idx: usize = 0;
    while idx < rels.len()
        invariant
            idx <= rels.len(),
            firsts_within(rels@, users@.len()),
            seconds_within(rels@, articles@.len()),
            rows@.len() == idx,
            forall|i: int|
                0 <= i < idx ==> comment_row(
                    #[trigger] rows.deep_view()[i],
                    (i + 1) as nat,
                    users.deep_view()[rels@[i].0 - 1].id,
                    articles.deep_view()[rels@[i].1 - 1].id,
                ),
        decreases rels.len() - idx,
    {
        let (author, article): (usize, usize) = rels[idx];
        let row = comment_at(
            idx + 1,
            users[author - 1].id,
            articles[article - 1].id,
            fresh_id(),
            local_millis(),
        );
        let ghost before = rows.deep_view();
        rows.push(row);
        assert forall|i: int| 0 <= i < idx + 1 implies comment_row(
            #[trigger] rows.deep_view()[i],
            (i + 1) as nat,
            users.deep_view()[rels@[i].0 - 1].id,
            articles.deep_view()[rels@[i].1 - 1].id,
        ) by {
            if i < idx {
                assert(rows.deep_view()[i] == before[i]);
            }
        }
        idx += 1;
    }
    rows
}

/// Makes one link for each pair of `rels`, between the article and the
/// tag that the pair names.
pub fn gen_article_tags(
    rels: &Vec<(usize, usize)>,
    articles: &Vec<article::Model>,
    tags: &Vec<tag::Model>,
) -> (rows: Vec<article_tag::Model>)
    requires
        firsts_within(rels@, articles@.len()),
        seconds_within(rels@, tags@.len()),
    ensures
        article_tag_rows(rows.deep_view(), rels@, articles.deep_view(), tags.deep_view()),
{
    let mut rows: Vec<article_tag::Model> = Vec::new();
    let mut idx: usize = 0;
    while idx < rels.len()
        invariant
            idx <= rels.len(),
            firsts_within(rels@, articles@.len()),
            seconds_within(rels@, tags@.len()),
            rows@.len() == idx,
            forall|i: int|
                0 <= i < idx ==> #[trigger] rows.deep_view()[i] == (article_tag::ModelView {
                    article_id: articles.deep_view()[rels@[i].0 - 1].id,
                    tag_id: tags.deep_view()[rels@[i].1 - 1].id,
                }),
        decreases rels.len() - idx,
    {
        let (article, tag): (usize, usize) = rels[idx];
        let row = article_tag::Model {
            article_id: articles[article - 1].id,
            tag_id: tags[tag - 1].id,
        };
        let ghost before = rows.deep_view();
        rows.push(row);
        assert forall|i: int| 0 <= i < idx + 1 implies #[trigger] rows.deep_view()[i] == (
        article_tag::ModelView {
            article_id: articles.deep_view()[rels@[i].0 - 1].id,
            tag_id: tags.deep_view()[rels@[i].1 - 1].id,
        }) by {
            if i < idx {
                assert(rows.deep_view()[i] == before[i]);
            }
        }
        idx += 1;
    }
    rows
}

/// Makes one relation for each pair of `rels`, between the user that the
/// first number names and the follower that the second names.
pub fn gen_followers(rels: &Vec<(usize, usize)>, users: &Vec<user::Model>) -> (rows: Vec<
    follower::Model,
>)
    requires
        firsts_within(rels@, users@.len()),
        seconds_within(rels@, users@.len()),
    ensures
        follower_rows(rows.deep_view(), rels@, users.deep_view()),
{
    let mut rows: Vec<follower::Model> = Vec::new();
    let mut idx: usize = 0;
    while idx < rels.len()
        invariant
            idx <= rels.len(),
            firsts_within(rels@, users@.len()),
            seconds_within(rels@, users@.len()),
            rows@.len() == idx,
            forall|i: int|
                0 <= i < idx ==> #[trigger] rows.deep_view()[i] == (follower::ModelView {
                    user_id: users.deep_view()[rels@[i].0 - 1].id,
                    follower_id: users.deep_view()[rels@[i].1 - 1].id,
                }),
        decreases rels.len() - idx,
    {
        let (user, follower): (usize, usize) = rels[idx];
        let row = follower::Model { user_id: users[user - 1].id, follower_id: users[follower - 1].id };
        let ghost before = rows.deep_view();
        rows.push(row);
        assert forall|i: int| 0 <= i < idx + 1 implies #[trigger] rows.deep_view()[i] == (
        follower::ModelView {
            user_id: users.deep_view()[rels@[i].0 - 1].id,
            follower_id: users.deep_view()[rels@[i].1 - 1].id,
        }) by {
            if i < idx {
                assert(rows.deep_view()[i] == before[i]);
            }
        }
        idx += 1;
    }
    rows
}

/// Makes one relation for each pair of `rels`, between the article that
/// the first number names and the user that the second names.
pub fn gen_favorited_articles(
    rels: &Vec<(usize, usize)>,
    articles: &Vec<article::Model>,
    users: &Vec<user::Model>,
) -> (rows: Vec<favorited_article::Model>)
    requires
        firsts_within(rels@, articles@.len()),
        seconds_within(rels@, users@.len()),
    ensures
        favorited_article_rows(rows.deep_view(), rels@, articles.deep_view(), users.deep_view()),
{
    let mut rows: Vec<favorited_article::Model> = Vec::new();
    let mut idx: usize = 0;
    while idx < rels.len()
        invariant
            idx <= rels.len(),
            firsts_within(rels@, articles@.len()),
            seconds_within(rels@, users@.len()),
            rows@.len() == idx,
            forall|i: int|
                0 <= i < idx ==> #[trigger] rows.deep_view()[i] == (favorited_article::ModelView {
                    article_id: articles.deep_view()[rels@[i].0 - 1].id,
                    user_id: users.deep_view()[rels@[i].1 - 1].id,
                }),
        decreases rels.len() - idx,
    {
        let (article, user): (usize, usize) = rels[idx];
        let row = favorited_article::Model {
            article_id: articles[article - 1].id,
            user_id: users[user - 1].id,
        };
        let ghost before = rows.deep_view();
        rows.push(row);
        assert forall|i: int| 0 <= i < idx + 1 implies #[trigger] rows.deep_view()[i] == (
        favorited_article::ModelView {
            article_id: articles.deep_view()[rels@[i].0 - 1].id,
            user_id: users.deep_view()[rels@[i].1 - 1].id,
        }) by {
            if i < idx {
                assert(rows.deep_view()[i] == before[i]);
            }
        }
        idx += 1;
    }
    rows
}

} // verus!
