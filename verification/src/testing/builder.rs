//! The fixture builder itself.

use crate::entity::{article, article_tag, comment, favorited_article, follower, tag, user};
use crate::testing::error::{BldrErr, BldrErrView};
use crate::testing::operation::{
    rows_for, Operation, Qty, RelArticleTag, RelArticleUser, RelAuthorArticle, RelUser,
    RelUserFollower,
};
use crate::testing::relation::{check_pairs, check_singles, pairs_refusal, singles_refusal};
use crate::testing::rows::{
    article_rows, article_tag_rows, comment_rows, favorited_article_rows, follower_rows,
    gen_article_tags, gen_articles, gen_comments, gen_favorited_articles, gen_followers, gen_tags,
    gen_users, tag_rows, user_rows,
};
use vstd::prelude::*;

verus! {

/// Collects what a fixture asks for, table by table, and remembers the
/// first request that cannot be honoured.
#[derive(Debug, PartialEq)]
pub struct TestDataBuilder {
    /// What was asked for the users, if anything.
    pub users: Option<Operation<Vec<user::Model>>>,
    /// What was asked for the articles, if anything.
    pub articles: Option<Operation<Vec<article::Model>>>,
    /// What was asked for the comments, if anything.
    pub comments: Option<Operation<Vec<comment::Model>>>,
    /// What was asked for the tags, if anything.
    pub tags: Option<Operation<Vec<tag::Model>>>,
    /// What was asked for the links between articles and tags, if anything.
    pub article_tags: Option<Operation<Vec<article_tag::Model>>>,
    /// What was asked for the followers, if anything.
    pub followers: Option<Operation<Vec<follower::Model>>>,
    /// What was asked for the favorited articles, if anything.
    pub favorited_articles: Option<Operation<Vec<favorited_article::Model>>>,
    /// The first request that was refused, if any was.
    pub error: Option<BldrErr>,
}

/// The value of [`TestDataBuilder`] that contracts speak of.
pub ghost struct TestDataBuilderView {
    pub users: Option<Operation<Seq<user::ModelView>>>,
    pub articles: Option<Operation<Seq<article::ModelView>>>,
    pub comments: Option<Operation<Seq<comment::ModelView>>>,
    pub tags: Option<Operation<Seq<tag::ModelView>>>,
    pub article_tags: Option<Operation<Seq<article_tag::ModelView>>>,
    pub followers: Option<Operation<Seq<follower::ModelView>>>,
    pub favorited_articles: Option<Operation<Seq<favorited_article::ModelView>>>,
    pub error: Option<BldrErrView>,
}

impl DeepView for TestDataBuilder {
    type V = TestDataBuilderView;

    open spec fn deep_view(&self) -> TestDataBuilderView {
        TestDataBuilderView {
            users: self.users.deep_view(),
            articles: self.articles.deep_view(),
            comments: self.comments.deep_view(),
            tags: self.tags.deep_view(),
            article_tags: self.article_tags.deep_view(),
            followers: self.followers.deep_view(),
            favorited_articles: self.favorited_articles.deep_view(),
            error: self.error.deep_view(),
        }
    }
}

impl TestDataBuilderView {
    /// The builder for which nothing has been asked yet.
    pub open spec fn empty() -> Self {
        TestDataBuilderView {
            users: None,
            articles: None,
            comments: None,
            tags: None,
            article_tags: None,
            followers: None,
            favorited_articles: None,
            error: None,
        }
    }

    /// The builder after a request failed with `err`: the first failure is
    /// kept, a later one is dropped.
    pub open spec fn failed(self, err: BldrErrView) -> Self {
        if self.error is None {
            TestDataBuilderView { error: Some(err), ..self }
        } else {
            self
        }
    }
}

/// Whether `made` is the operation `op` with its payload replaced by rows
/// that stand in the relation `good` to that payload.
pub open spec fn carries<R, M>(
    made: Operation<M>,
    op: Operation<R>,
    good: spec_fn(R, M) -> bool,
) -> bool {
    match (op, made) {
        (Operation::Insert(r), Operation::Insert(m)) => good(r, m),
        (Operation::Create(r), Operation::Create(m)) => good(r, m),
        (Operation::Migration, Operation::Migration) => true,
        _ => false,
    }
}

/// The operation `op`, which carries a payload, with `rows` in its place.
fn with_rows<R, M>(op: &Operation<R>, rows: M) -> (made: Operation<M>)
    requires
        op.payload() is Some,
    ensures
        made == op.with(rows),
{
    match op {
        Operation::Insert(_) => Operation::Insert(rows),
        _ => Operation::Create(rows),
    }
}

impl TestDataBuilderView {
    /// What asking for users does to a builder.
    pub open spec fn after_users(self, op: Operation<usize>, post: Self) -> bool {
        if op.payload() == Some(0usize) {
            post == self.failed(BldrErrView::ZeroQty)
        } else {
            &&& post == (TestDataBuilderView { users: post.users, ..self })
            &&& post.users matches Some(made) && carries(
                made,
                op,
                |qty: usize, rows: Seq<user::ModelView>| user_rows(rows, qty),
            )
        }
    }

    /// What asking for tags does to a builder.
    pub open spec fn after_tags(self, op: Operation<usize>, post: Self) -> bool {
        if op.payload() == Some(0usize) {
            post == self.failed(BldrErrView::ZeroQty)
        } else {
            &&& post == (TestDataBuilderView { tags: post.tags, ..self })
            &&& post.tags matches Some(made) && carries(
                made,
                op,
                |qty: usize, rows: Seq<tag::ModelView>| tag_rows(rows, qty),
            )
        }
    }

    /// Why a request for articles is refused, if it is.
    pub open spec fn articles_refusal(self, op: Operation<Seq<usize>>) -> Option<BldrErrView> {
        singles_refusal(op, self.users, "user"@, BldrErrView::WrongOrder("users"@, "articles"@))
    }

    /// What asking for articles does to a builder.
    pub open spec fn after_articles(self, op: Operation<Seq<usize>>, post: Self) -> bool {
        match self.articles_refusal(op) {
            Some(err) => post == self.failed(err),
            None => {
                &&& post == (TestDataBuilderView { articles: post.articles, ..self })
                &&& post.articles matches Some(made) && carries(
                    made,
                    op,
                    |rels: Seq<usize>, rows: Seq<article::ModelView>|
                        article_rows(rows, rels, rows_for(op, self.users).unwrap()),
                )
            },
        }
    }

    /// Why a request for comments is refused, if it is.
    pub open spec fn comments_refusal(self, op: Operation<Seq<(usize, usize)>>) -> Option<
        BldrErrView,
    > {
        pairs_refusal(
            op,
            self.users,
            self.articles,
            "author"@,
            "article"@,
            BldrErrView::WrongOrder("articles"@, "comments"@),
        )
    }

    /// What asking for comments does to a builder.
    pub open spec fn after_comments(self, op: Operation<Seq<(usize, usize)>>, post: Self) -> bool {
        match self.comments_refusal(op) {
            Some(err) => post == self.failed(err),
            None => {
                &&& post == (TestDataBuilderView { comments: post.comments, ..self })
                &&& post.comments matches Some(made) && carries(
                    made,
                    op,
                    |rels: Seq<(usize, usize)>, rows: Seq<comment::ModelView>|
                        comment_rows(
                            rows,
                            rels,
                            rows_for(op, self.users).unwrap(),
                            rows_for(op, self.articles).unwrap(),
                        ),
                )
            },
        }
    }

    /// Why a request for links between articles and tags is refused, if it
    /// is. Where no tags were asked for, the failure names the tags, else
    /// the articles.
    pub open spec fn article_tags_refusal(self, op: Operation<Seq<(usize, usize)>>) -> Option<
        BldrErrView,
    > {
        pairs_refusal(
            op,
            self.articles,
            self.tags,
            "article"@,
            "tag"@,
            BldrErrView::WrongOrder(
                if self.tags is None {
                    "tags"@
                } else {
                    "articles"@
                },
                "article_tags"@,
            ),
        )
    }

    /// What asking for links between articles and tags does to a builder.
    pub open spec fn after_article_tags(
        self,
        op: Operation<Seq<(usize, usize)>>,
        post: Self,
    ) -> bool {
        match self.article_tags_refusal(op) {
            Some(err) => post == self.failed(err),
            None => {
                &&& post == (TestDataBuilderView { article_tags: post.article_tags, ..self })
                &&& post.article_tags matches Some(made) && carries(
                    made,
                    op,
                    |rels: Seq<(usize, usize)>, rows: Seq<article_tag::ModelView>|
                        article_tag_rows(
                            rows,
                            rels,
                            rows_for(op, self.articles).unwrap(),
                            rows_for(op, self.tags).unwrap(),
                        ),
                )
            },
        }
    }

    /// Why a request for followers is refused, if it is.
    pub open spec fn followers_refusal(self, op: Operation<Seq<(usize, usize)>>) -> Option<
        BldrErrView,
    > {
        pairs_refusal(
            op,
            self.users,
            self.users,
            "user"@,
            "follower"@,
            BldrErrView::WrongOrder("users"@, "followers"@),
        )
    }

    /// What asking for followers does to a builder.
    pub open spec fn after_followers(self, op: Operation<Seq<(usize, usize)>>, post: Self) -> bool {
        match self.followers_refusal(op) {
            Some(err) => post == self.failed(err),
            None => {
                &&& post == (TestDataBuilderView { followers: post.followers, ..self })
                &&& post.followers matches Some(made) && carries(
                    made,
                    op,
                    |rels: Seq<(usize, usize)>, rows: Seq<follower::ModelView>|
                        follower_rows(rows, rels, rows_for(op, self.users).unwrap()),
                )
            },
        }
    }

    /// Why a request for favorited articles is refused, if it is.
    pub open spec fn favorited_articles_refusal(
        self,
        op: Operation<Seq<(usize, usize)>>,
    ) -> Option<BldrErrView> {
        pairs_refusal(
            op,
            self.articles,
            self.users,
            "article"@,
            "user"@,
            BldrErrView::WrongOrder("articles"@, "favorited_articles"@),
        )
    }

    /// What asking for favorited articles does to a builder.
    pub open spec fn after_favorited_articles(
        self,
        op: Operation<Seq<(usize, usize)>>,
        post: Self,
    ) -> bool {
        match self.favorited_articles_refusal(op) {
            Some(err) => post == self.failed(err),
            None => {
                &&& post == (TestDataBuilderView {
                    favorited_articles: post.favorited_articles,
                    ..self
                })
                &&& post.favorited_articles matches Some(made) && carries(
                    made,
                    op,
                    |rels: Seq<(usize, usize)>, rows: Seq<favorited_article::ModelView>|
                        favorited_article_rows(
                            rows,
                            rels,
                            rows_for(op, self.articles).unwrap(),
                            rows_for(op, self.users).unwrap(),
                        ),
                )
            },
        }
    }
}

impl Default for TestDataBuilder {
    fn default() -> (res: Self)
        ensures
            res.deep_view() == TestDataBuilderView::empty(),
    {
        TestDataBuilder::new()
    }
}

impl TestDataBuilder {
    /// A builder for which nothing has been asked yet.
    pub fn new() -> (res: Self)
        ensures
            res.deep_view() == TestDataBuilderView::empty(),
    {
        TestDataBuilder {
            users: None,
            articles: None,
            comments: None,
            tags: None,
            article_tags: None,
            followers: None,
            favorited_articles: None,
            error: None,
        }
    }

    /// Records a failure, unless an earlier one is already recorded.
    pub fn apply_error(self, err: BldrErr) -> (res: Self)
        ensures
            res.deep_view() == self.deep_view().failed(err.deep_view()),
    {
        let mut this = self;
        if this.error.is_none() {
            this.error = Some(err);
        }
        this
    }

    /// Asks for `qty` generated users, or for the table alone. A quantity of
    /// zero is refused.
    pub fn users(self, operation: Operation<Qty>) -> (res: Self)
        ensures
            self.deep_view().after_users(operation, res.deep_view()),
    {
        let made = match operation {
            Operation::Insert(qty) => {
                if qty == 0 {
                    return self.apply_error(BldrErr::ZeroQty);
                }
                Operation::Insert(gen_users(qty))
            },
            Operation::Create(qty) => {
                if qty == 0 {
                    return self.apply_error(BldrErr::ZeroQty);
                }
                Operation::Create(gen_users(qty))
            },
            Operation::Migration => Operation::Migration,
        };
        let mut this = self;
        this.users = Some(made);
        this
    }

    /// Asks for one generated article per number, written by the user that
    /// the number names, or for the table alone. The users must have been
    /// asked for before, and stored if the articles are to be stored.
    pub fn articles(self, operation: Operation<RelUser>) -> (res: Self)
        ensures
            self.deep_view().after_articles(operation.deep_view(), res.deep_view()),
    {
        let outcome = match check_singles(&operation, &self.users, "user", "users", "articles") {
            Err(err) => Err(err),
            Ok(None) => Ok(Operation::Migration),
            Ok(Some((rels, rows))) => Ok(with_rows(&operation, gen_articles(rels, rows))),
        };
        match outcome {
            Ok(made) => {
                let mut this = self;
                this.articles = Some(made);
                this
            },
            Err(err) => self.apply_error(err),
        }
    }

    /// Asks for one generated comment per pair of author and article, or for
    /// the table alone. Users and articles must have been asked for before.
    pub fn comments(self, operation: Operation<RelAuthorArticle>) -> (res: Self)
        ensures
            self.deep_view().after_comments(operation.deep_view(), res.deep_view()),
    {
        let before = "articles";
        let outcome = match check_pairs(
            &operation,
            &self.users,
            &self.articles,
            "author",
            "article",
            before,
            "comments",
        ) {
            Err(err) => Err(err),
            Ok(None) => Ok(Operation::Migration),
            Ok(Some((rels, first, second))) => Ok(with_rows(&operation, gen_comments(rels, first, second))),
        };
        match outcome {
            Ok(made) => {
                let mut this = self;
                this.comments = Some(made);
                this
            },
            Err(err) => self.apply_error(err),
        }
    }

    /// Asks for `qty` generated tags, or for the table alone. A quantity of
    /// zero is refused.
    pub fn tags(self, operation: Operation<Qty>) -> (res: Self)
        ensures
            self.deep_view().after_tags(operation, res.deep_view()),
    {
        let made = match operation {
            Operation::Insert(qty) => {
                if qty == 0 {
                    return self.apply_error(BldrErr::ZeroQty);
                }
                Operation::Insert(gen_tags(qty))
            },
            Operation::Create(qty) => {
                if qty == 0 {
                    return self.apply_error(BldrErr::ZeroQty);
                }
                Operation::Create(gen_tags(qty))
            },
            Operation::Migration => Operation::Migration,
        };
        let mut this = self;
        this.tags = Some(made);
        this
    }

    /// Asks for one link per pair of article and tag, or for the table alone.
    /// Articles and tags must have been asked for before.
    pub fn article_tags(self, operation: Operation<RelArticleTag>) -> (res: Self)
        ensures
            self.deep_view().after_article_tags(operation.deep_view(), res.deep_view()),
    {
        let before = if self.tags.is_none() {
            "tags"
        } else {
            "articles"
        };
        let outcome = match check_pairs(
            &operation,
            &self.articles,
            &self.tags,
            "article",
            "tag",
            before,
            "article_tags",
        ) {
            Err(err) => Err(err),
            Ok(None) => Ok(Operation::Migration),
            Ok(Some((rels, first, second))) => Ok(with_rows(&operation, gen_article_tags(rels, first, second))),
        };
        match outcome {
            Ok(made) => {
                let mut this = self;
                this.article_tags = Some(made);
                this
            },
            Err(err) => self.apply_error(err),
        }
    }

    /// Asks for one relation per pair of a user and a follower, or for the
    /// table alone. The users must have been asked for before.
    pub fn followers(self, operation: Operation<RelUserFollower>) -> (res: Self)
        ensures
            self.deep_view().after_followers(operation.deep_view(), res.deep_view()),
    {
        let before = "users";
        let outcome = match check_pairs(
            &operation,
            &self.users,
            &self.users,
            "user",
            "follower",
            before,
            "followers",
        ) {
            Err(err) => Err(err),
            Ok(None) => Ok(Operation::Migration),
            Ok(Some((rels, first, second))) => Ok(with_rows(&operation, gen_followers(rels, first))),
        };
        match outcome {
            Ok(made) => {
                let mut this = self;
                this.followers = Some(made);
                this
            },
            Err(err) => self.apply_error(err),
        }
    }

    /// Asks for one relation per pair of an article and the user who
    /// favorited it, or for the table alone. Articles and users must have
    /// been asked for before.
    pub fn favorited_articles(self, operation: Operation<RelArticleUser>) -> (res: Self)
        ensures
            self.deep_view().after_favorited_articles(operation.deep_view(), res.deep_view()),
    {
        let before = "articles";
        let outcome = match check_pairs(
            &operation,
            &self.articles,
            &self.users,
            "article",
            "user",
            before,
            "favorited_articles",
        ) {
            Err(err) => Err(err),
            Ok(None) => Ok(Operation::Migration),
            Ok(Some((rels, first, second))) => Ok(with_rows(&operation, gen_favorited_articles(rels, first, second))),
        };
        match outcome {
            Ok(made) => {
                let mut this = self;
                this.favorited_articles = Some(made);
                this
            },
            Err(err) => self.apply_error(err),
        }
    }
}

} // verus!
