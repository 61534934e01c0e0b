//! What holds of every builder, whatever is asked of it.

use crate::testing::builder::TestDataBuilderView;
use crate::testing::operation::{rows_for, Operation};
use crate::testing::setup::rows_left;
use vstd::prelude::*;

verus! {

/// Whether `post` has the tables of `pre`, each as it was.
pub open spec fn same_tables(pre: TestDataBuilderView, post: TestDataBuilderView) -> bool {
    post == (TestDataBuilderView { error: post.error, ..pre })
}

/// Whether a step from `pre` to `post` kept to the rule of the first
/// failure: a recorded failure is never replaced, and a failure is recorded
/// only together with unchanged tables.
pub open spec fn orderly(pre: TestDataBuilderView, post: TestDataBuilderView) -> bool {
    &&& pre.error is Some ==> post.error == pre.error
    &&& post.error != pre.error ==> same_tables(pre, post)
}

/// Asking for users or tags keeps to the rule of the first failure.
pub proof fn lemma_quantities_orderly(
    pre: TestDataBuilderView,
    op: Operation<usize>,
    post: TestDataBuilderView,
)
    ensures
        pre.after_users(op, post) ==> orderly(pre, post),
        pre.after_tags(op, post) ==> orderly(pre, post),
{
}

/// Asking for articles keeps to the rule of the first failure.
pub proof fn lemma_articles_orderly(
    pre: TestDataBuilderView,
    op: Operation<Seq<usize>>,
    post: TestDataBuilderView,
)
    ensures
        pre.after_articles(op, post) ==> orderly(pre, post),
{
}

/// Asking for a table of pairs keeps to the rule of the first failure.
pub proof fn lemma_pairs_orderly(
    pre: TestDataBuilderView,
    op: Operation<Seq<(usize, usize)>>,
    post: TestDataBuilderView,
)
    ensures
        pre.after_comments(op, post) ==> orderly(pre, post),
        pre.after_article_tags(op, post) ==> orderly(pre, post),
        pre.after_followers(op, post) ==> orderly(pre, post),
        pre.after_favorited_articles(op, post) ==> orderly(pre, post),
{
}

/// A request for articles that is refused sets no table, and leaves a
/// failure recorded: its own, unless an earlier one is.
pub proof fn lemma_articles_refused(
    pre: TestDataBuilderView,
    op: Operation<Seq<usize>>,
    post: TestDataBuilderView,
)
    requires
        pre.after_articles(op, post),
        pre.articles_refusal(op) is Some,
    ensures
        same_tables(pre, post),
        post.error is Some,
        pre.error is None ==> post.error == pre.articles_refusal(op),
{
}

/// A request for a table of pairs that is refused sets no table, and leaves
/// a failure recorded.
pub proof fn lemma_pairs_refused(
    pre: TestDataBuilderView,
    op: Operation<Seq<(usize, usize)>>,
    post: TestDataBuilderView,
)
    ensures
        pre.after_comments(op, post) && pre.comments_refusal(op) is Some ==> same_tables(pre, post)
            && post.error is Some,
        pre.after_article_tags(op, post) && pre.article_tags_refusal(op) is Some ==> same_tables(
            pre,
            post,
        ) && post.error is Some,
        pre.after_followers(op, post) && pre.followers_refusal(op) is Some ==> same_tables(
            pre,
            post,
        ) && post.error is Some,
        pre.after_favorited_articles(op, post) && pre.favorited_articles_refusal(op) is Some
            ==> same_tables(pre, post) && post.error is Some,
{
}

/// Every article that is accepted has an author among the users it was
/// built on, and there are as many articles as numbers were given.
pub proof fn lemma_articles_have_authors(
    pre: TestDataBuilderView,
    rels: Seq<usize>,
    post: TestDataBuilderView,
    i: int,
)
    requires
        pre.after_articles(Operation::Insert(rels), post),
        pre.articles_refusal(Operation::Insert(rels)) is None,
        0 <= i < rels.len(),
    ensures
        pre.users matches Some(Operation::Insert(users)) && post.articles matches Some(
            Operation::Insert(rows),
        ) && rows.len() == rels.len() && 1 <= rels[i] <= users.len() && rows[i].author_id
            == users[rels[i] - 1].id,
{
}

/// Every comment that is accepted has its author among the users and its
/// article among the articles it was built on.
pub proof fn lemma_comments_have_both(
    pre: TestDataBuilderView,
    rels: Seq<(usize, usize)>,
    post: TestDataBuilderView,
    i: int,
)
    requires
        pre.after_comments(Operation::Create(rels), post),
        pre.comments_refusal(Operation::Create(rels)) is None,
        0 <= i < rels.len(),
    ensures
        rows_left(pre.users) matches Some(users) && rows_left(pre.articles) matches Some(articles)
            && post.comments matches Some(Operation::Create(rows)) && rows.len() == rels.len()
            && 1 <= rels[i].0 <= users.len() && 1 <= rels[i].1 <= articles.len()
            && rows[i].author_id == users[rels[i].0 - 1].id && rows[i].article_id
            == articles[rels[i].1 - 1].id,
{
    let users = rows_for(Operation::Create(rels), pre.users).unwrap();
    let articles = rows_for(Operation::Create(rels), pre.articles).unwrap();
    assert(rows_left(pre.users) == Some(users));
    assert(rows_left(pre.articles) == Some(articles));
}

} // verus!
