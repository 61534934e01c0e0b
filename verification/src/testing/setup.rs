//! From a finished builder to the steps that set up a database, and to the
//! rows that a scenario can rely on.

use crate::entity::{article, article_tag, comment, favorited_article, follower, tag, user};
use crate::testing::builder::{TestDataBuilder, TestDataBuilderView};
use crate::testing::error::BldrErr;
use crate::testing::operation::Operation;
use vstd::prelude::*;

verus! {

/// The tables of the schema, in the order in which they are set up.
#[derive(Clone, Copy, Debug, PartialEq, Eq, Structural)]
pub enum Table {
    User,
    Article,
    Comment,
    Tag,
    ArticleTag,
    Follower,
    FavoritedArticle,
}

/// What is to be done for one table: the migrations to run, in order, and
/// whether the generated rows are stored afterwards.
#[derive(Clone, Debug, PartialEq, Eq)]
pub struct TableSetup {
    /// The table that the step sets up.
    pub table: Table,
    /// The names of the migrations to run, in order.
    pub migrations: Vec<&'static str>,
    /// Whether the rows generated for the table are to be stored.
    pub insert: bool,
}

/// The value of [`TableSetup`] that contracts speak of.
pub ghost struct TableSetupView {
    pub table: Table,
    pub migrations: Seq<Seq<char>>,
    pub insert: bool,
}

impl DeepView for TableSetup {
    type V = TableSetupView;

    open spec fn deep_view(&self) -> TableSetupView {
        TableSetupView {
            table: self.table,
            migrations: self.migrations.deep_view(),
            insert: self.insert,
        }
    }
}

/// The rows that a scenario finds after the setup, table by table. A table
/// that was not asked for, or asked for without rows, has none.
#[derive(Debug, Clone, PartialEq)]
pub struct TestData {
    pub users: Option<Vec<user::Model>>,
    pub articles: Option<Vec<article::Model>>,
    pub comments: Option<Vec<comment::Model>>,
    pub tags: Option<Vec<tag::Model>>,
    pub article_tags: Option<Vec<article_tag::Model>>,
    pub followers: Option<Vec<follower::Model>>,
    pub favorited_articles: Option<Vec<favorited_article::Model>>,
}

/// The value of [`TestData`] that contracts speak of.
pub ghost struct TestDataView {
    pub users: Option<Seq<user::ModelView>>,
    pub articles: Option<Seq<article::ModelView>>,
    pub comments: Option<Seq<comment::ModelView>>,
    pub tags: Option<Seq<tag::ModelView>>,
    pub article_tags: Option<Seq<article_tag::ModelView>>,
    pub followers: Option<Seq<follower::ModelView>>,
    pub favorited_articles: Option<Seq<favorited_article::ModelView>>,
}

impl DeepView for TestData {
    type V = TestDataView;

    open spec fn deep_view(&self) -> TestDataView {
        TestDataView {
            users: self.users.deep_view(),
            articles: self.articles.deep_view(),
            comments: self.comments.deep_view(),
            tags: self.tags.deep_view(),
            article_tags: self.article_tags.deep_view(),
            followers: self.followers.deep_view(),
            favorited_articles: self.favorited_articles.deep_view(),
        }
    }
}

impl TestDataView {
    /// No rows in any table.
    pub open spec fn empty() -> Self {
        TestDataView {
            users: None,
            articles: None,
            comments: None,
            tags: None,
            article_tags: None,
            followers: None,
            favorited_articles: None,
        }
    }
}

impl Default for TestData {
    fn default() -> (res: Self)
        ensures
            res.deep_view() == TestDataView::empty(),
    {
        TestData {
            users: None,
            articles: None,
            comments: None,
            tags: None,
            article_tags: None,
            followers: None,
            favorited_articles: None,
        }
    }
}

/// The names of the migrations that create `table`, in the order in which
/// they run.
pub open spec fn migrations_of(table: Table) -> Seq<Seq<char>> {
    match table {
        Table::User => seq![
            "m20231030_000001_create_user_table"@,
            "m20231112_000008_add_user_password"@,
        ],
        Table::Article => seq!["m20231030_000002_create_article_table"@],
        Table::Comment => seq!["m20231030_000003_create_comment_table"@],
        Table::Tag => seq!["m20231030_000004_create_tag_table"@],
        Table::ArticleTag => seq!["m20231030_000005_create_article_tag_table"@],
        Table::Follower => seq!["m20231101_000006_create_follower_table"@],
        Table::FavoritedArticle => seq!["m20231104_000007_create_favorited_article_table"@],
    }
}

/// The step for one table: none where the table was not asked for; else its
/// migrations, and storing exactly where the rows were to be stored.
pub open spec fn step_of<M>(table: Table, op: Option<Operation<M>>) -> Seq<TableSetupView> {
    match op {
        None => seq![],
        Some(op) => seq![
            TableSetupView {
                table,
                migrations: migrations_of(table),
                insert: op is Insert,
            },
        ],
    }
}

/// The rows that an operation leaves behind for a scenario.
pub open spec fn rows_left<M>(op: Option<Operation<M>>) -> Option<M> {
    match op {
        Some(Operation::Insert(rows)) => Some(rows),
        Some(Operation::Create(rows)) => Some(rows),
        _ => None,
    }
}

impl TestDataBuilderView {
    /// The steps of the setup, table by table in the fixed order.
    pub open spec fn steps(self) -> Seq<TableSetupView> {
        step_of(Table::User, self.users) + step_of(Table::Article, self.articles) + step_of(
            Table::Comment,
            self.comments,
        ) + step_of(Table::Tag, self.tags) + step_of(Table::ArticleTag, self.article_tags)
            + step_of(Table::Follower, self.followers) + step_of(
            Table::FavoritedArticle,
            self.favorited_articles,
        )
    }

    /// The rows that the setup leaves behind.
    pub open spec fn data(self) -> TestDataView {
        TestDataView {
            users: rows_left(self.users),
            articles: rows_left(self.articles),
            comments: rows_left(self.comments),
            tags: rows_left(self.tags),
            article_tags: rows_left(self.article_tags),
            followers: rows_left(self.followers),
            favorited_articles: rows_left(self.favorited_articles),
        }
    }

    /// What building yields: the recorded failure if there is one, else the
    /// steps and the rows.
    pub open spec fn built(self, res: Result<(Vec<TableSetup>, TestData), BldrErr>) -> bool {
        match self.error {
            Some(err) => res matches Err(e) && e.deep_view() == err,
            None => res matches Ok(done) && done.0.deep_view() == self.steps()
                && done.1.deep_view() == self.data(),
        }
    }
}

/// The migrations that create `table`.
pub fn migrations(table: Table) -> (names: Vec<&'static str>)
    ensures
        names.deep_view() == migrations_of(table),
{
    let names = match table {
        Table::User => vec![
            "m20231030_000001_create_user_table",
            "m20231112_000008_add_user_password",
        ],
        Table::Article => vec!["m20231030_000002_create_article_table"],
        Table::Comment => vec!["m20231030_000003_create_comment_table"],
        Table::Tag => vec!["m20231030_000004_create_tag_table"],
        Table::ArticleTag => vec!["m20231030_000005_create_article_tag_table"],
        Table::Follower => vec!["m20231101_000006_create_follower_table"],
        Table::FavoritedArticle => vec!["m20231104_000007_create_favorited_article_table"],
    };
    assert(names.deep_view() =~= migrations_of(table));
    names
}

/// Adds the step for one table, if the table was asked for, and hands out
/// the rows that it leaves behind.
fn settle<M: DeepView>(steps: &mut Vec<TableSetup>, table: Table, op: Option<Operation<M>>) -> (rows:
    Option<M>)
    ensures
        final(steps).deep_view() == old(steps).deep_view() + step_of(table, op.deep_view()),
        rows.deep_view() == rows_left(op.deep_view()),
{
    let ghost before = steps.deep_view();
    let (insert, rows) = match op {
        None => {
            assert(steps.deep_view() =~= before + step_of(table, op.deep_view()));
            return None;
        },
        Some(Operation::Insert(rows)) => (true, Some(rows)),
        Some(Operation::Create(rows)) => (false, Some(rows)),
        Some(Operation::Migration) => (false, None),
    };
    steps.push(TableSetup { table, migrations: migrations(table), insert });
    assert(steps.deep_view() =~= before + step_of(table, op.deep_view()));
    rows
}

impl TestDataBuilder {
    /// Ends the building. Where a request was refused, returns the first
    /// refusal. Else returns the steps to carry out against an empty
    /// database, in order, and the rows that are there afterwards.
    pub fn build(self) -> (res: Result<(Vec<TableSetup>, TestData), BldrErr>)
        ensures
            self.deep_view().built(res),
    {
        if let Some(err) = self.error {
            return Err(err);
        }
        let mut steps: Vec<TableSetup> = Vec::new();
        assert(steps.deep_view() =~= Seq::<TableSetupView>::empty());
        let users = settle(&mut steps, Table::User, self.users);
        let articles = settle(&mut steps, Table::Article, self.articles);
        let comments = settle(&mut steps, Table::Comment, self.comments);
        let tags = settle(&mut steps, Table::Tag, self.tags);
        let article_tags = settle(&mut steps, Table::ArticleTag, self.article_tags);
        let followers = settle(&mut steps, Table::Follower, self.followers);
        let favorited_articles = settle(
            &mut steps,
            Table::FavoritedArticle,
            self.favorited_articles,
        );
        assert(steps.deep_view() =~= self.deep_view().steps());
        let data = TestData {
            users,
            articles,
            comments,
            tags,
            article_tags,
            followers,
            favorited_articles,
        };
        Ok((steps, data))
    }
}

} // verus!
