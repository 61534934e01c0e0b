//! Articles: which ones a request selects, and how a selected article is
//! put together with its author and its tags.

use crate::entity::{article, tag};
use crate::repo::check::{Check, CheckView};
use crate::repo::user::{author_followed_by_current_user, Profile, ProfileView};
use vstd::prelude::*;

verus! {

/// Number of articles on a page where the request names none.
pub const DEFAULT_PAGE_LIMIT: u64 = 20;

/// Number of articles skipped where the request names none.
pub const DEFAULT_PAGE_OFFSET: u64 = 0;

/// An article as a query returns it: the row, what the asking user has to do with it, and its author.
#[derive(Clone, Debug, PartialEq, Eq)]
pub struct ModelExtended {
    pub id: u128,
    pub slug: String,
    pub title: String,
    pub description: String,
    pub body: String,
    /// Whether the asking user favorited the article.
    pub favorited: bool,
    /// Number of users who favorited the article.
    pub favorites_count: i32,
    pub created_at: Option<i64>,
    pub updated_at: Option<i64>,
    pub author_id: u128,
    pub author: Profile,
}

/// The value of [`ModelExtended`] that contracts speak of.
pub ghost struct ModelExtendedView {
    pub id: u128,
    pub slug: Seq<char>,
    pub title: Seq<char>,
    pub description: Seq<char>,
    pub body: Seq<char>,
    pub favorited: bool,
    pub favorites_count: i32,
    pub created_at: Option<i64>,
    pub updated_at: Option<i64>,
    pub author_id: u128,
    pub author: ProfileView,
}

impl DeepView for ModelExtended {
    type V = ModelExtendedView;

    open spec fn deep_view(&self) -> ModelExtendedView {
        ModelExtendedView {
            id: self.id.deep_view(),
            slug: self.slug.deep_view(),
            title: self.title.deep_view(),
            description: self.description.deep_view(),
            body: self.body.deep_view(),
            favorited: self.favorited.deep_view(),
            favorites_count: self.favorites_count.deep_view(),
            created_at: self.created_at.deep_view(),
            updated_at: self.updated_at.deep_view(),
            author_id: self.author_id.deep_view(),
            author: self.author.deep_view(),
        }
    }
}

/// An article as the API shows it.
#[derive(Clone, Debug, PartialEq, Eq)]
pub struct ArticleWithAuthor {
    pub slug: String,
    pub title: String,
    pub description: String,
    pub body: String,
    pub favorited: bool,
    pub favorites_count: i32,
    pub created_at: Option<i64>,
    pub updated_at: Option<i64>,
    pub author: Profile,
    /// Names of the tags of the article.
    pub tag_list: Vec<String>,
}

/// The value of [`ArticleWithAuthor`] that contracts speak of.
pub ghost struct ArticleWithAuthorView {
    pub slug: Seq<char>,
    pub title: Seq<char>,
    pub description: Seq<char>,
    pub body: Seq<char>,
    pub favorited: bool,
    pub favorites_count: i32,
    pub created_at: Option<i64>,
    pub updated_at: Option<i64>,
    pub author: ProfileView,
    pub tag_list: Seq<Seq<char>>,
}

impl DeepView for ArticleWithAuthor {
    type V = ArticleWithAuthorView;

    open spec fn deep_view(&self) -> ArticleWithAuthorView {
        ArticleWithAuthorView {
            slug: self.slug.deep_view(),
            title: self.title.deep_view(),
            description: self.description.deep_view(),
            body: self.body.deep_view(),
            favorited: self.favorited.deep_view(),
            favorites_count: self.favorites_count.deep_view(),
            created_at: self.created_at.deep_view(),
            updated_at: self.updated_at.deep_view(),
            author: self.author.deep_view(),
            tag_list: self.tag_list.deep_view(),
        }
    }
}

/// Which articles a request is about. Each condition that is present narrows the choice.
#[derive(Clone, Debug, PartialEq, Eq)]
pub struct ArticleFilter {
    /// Only articles with a tag whose name is like this text.
    pub tag_name: Option<String>,
    /// Only articles whose author has a name like this text.
    pub author_name: Option<String>,
    /// Only articles favorited by a user with a name like this text.
    pub user_who_liked_it: Option<String>,
    /// Only articles whose author this user follows.
    pub followed_by: Option<u128>,
}

/// The value of [`ArticleFilter`] that contracts speak of.
pub ghost struct ArticleFilterView {
    pub tag_name: Option<Seq<char>>,
    pub author_name: Option<Seq<char>>,
    pub user_who_liked_it: Option<Seq<char>>,
    pub followed_by: Option<u128>,
}

impl DeepView for ArticleFilter {
    type V = ArticleFilterView;

    open spec fn deep_view(&self) -> ArticleFilterView {
        ArticleFilterView {
            tag_name: self.tag_name.deep_view(),
            author_name: self.author_name.deep_view(),
            user_who_liked_it: self.user_who_liked_it.deep_view(),
            followed_by: self.followed_by.deep_view(),
        }
    }
}

/// A page of articles, most recently updated first, as one user sees them.
#[derive(Clone, Debug, PartialEq, Eq)]
pub struct ArticleSelect {
    pub filter: ArticleFilter,
    /// Largest number of articles on the page.
    pub limit: u64,
    /// Number of articles skipped before the page.
    pub offset: u64,
    /// The user who asks, if known: decides what counts as followed and as favorited.
    pub current_user_id: Option<u128>,
}

/// The value of [`ArticleSelect`] that contracts speak of.
pub ghost struct ArticleSelectView {
    pub filter: ArticleFilterView,
    pub limit: u64,
    pub offset: u64,
    pub current_user_id: Option<u128>,
}

impl DeepView for ArticleSelect {
    type V = ArticleSelectView;

    open spec fn deep_view(&self) -> ArticleSelectView {
        ArticleSelectView {
            filter: self.filter.deep_view(),
            limit: self.limit.deep_view(),
            offset: self.offset.deep_view(),
            current_user_id: self.current_user_id.deep_view(),
        }
    }
}

/// The condition on the author that a request names: none where it names
/// no author.
pub open spec fn written_by(author_name: Option<Seq<char>>) -> CheckView {
    match author_name {
        Some(name) => CheckView::NamedLike(name),
        None => CheckView::Always,
    }
}

/// The condition on the tags that a request names: none where it names no
/// tag.
pub open spec fn tagged(tag_name: Option<Seq<char>>) -> CheckView {
    match tag_name {
        Some(name) => CheckView::TaggedLike(name),
        None => CheckView::Always,
    }
}

/// The condition on those who favorited that a request names: none where
/// it names no user.
pub open spec fn liked_by_user(user_name: Option<Seq<char>>) -> CheckView {
    match user_name {
        Some(name) => CheckView::FavoritedByNamedLike(name),
        None => CheckView::Always,
    }
}

/// Whether an article is favorited by the user who asks. Nothing is
/// favorited where it is not known who asks.
pub open spec fn liked_by_current_user(user_id: Option<u128>) -> CheckView {
    match user_id {
        Some(id) => CheckView::FavoritedBy(id),
        None => CheckView::Never,
    }
}

/// The restriction to the authors whom a user follows: none where no user
/// is given.
pub open spec fn followed_only(user_id: Option<u128>) -> CheckView {
    match user_id {
        Some(id) => CheckView::FollowedBy(id),
        None => CheckView::Always,
    }
}

/// The condition that the author of an article has a name like the given one.
pub fn article_author(author_name: Option<&String>) -> (check: Check)
    ensures
        check.deep_view() == written_by(author_name.deep_view()),
{
    match author_name {
        Some(name) => Check::NamedLike(name.clone()),
        None => Check::Always,
    }
}

/// The condition that an article has a tag with a name like the given one.
pub fn article_has_tag(tag_name: Option<&String>) -> (check: Check)
    ensures
        check.deep_view() == tagged(tag_name.deep_view()),
{
    match tag_name {
        Some(name) => Check::TaggedLike(name.clone()),
        None => Check::Always,
    }
}

/// The condition that an article is favorited by a user with a name like
/// the given one.
pub fn article_liked_by_user(user_name: Option<&String>) -> (check: Check)
    ensures
        check.deep_view() == liked_by_user(user_name.deep_view()),
{
    match user_name {
        Some(name) => Check::FavoritedByNamedLike(name.clone()),
        None => Check::Always,
    }
}

/// The condition that tells whether the user who asks favorited an article.
pub fn article_liked_by_current_user(user_id: Option<u128>) -> (check: Check)
    ensures
        check.deep_view() == liked_by_current_user(user_id),
{
    match user_id {
        Some(id) => Check::FavoritedBy(id),
        None => Check::Never,
    }
}

impl ArticleFilter {
    /// The conditions that an article has to meet, all of them.
    pub open spec fn conditions(filter: ArticleFilterView) -> Seq<CheckView> {
        seq![
            written_by(filter.author_name),
            tagged(filter.tag_name),
            liked_by_user(filter.user_who_liked_it),
            followed_only(filter.followed_by),
        ]
    }

    /// Lists the conditions that an article has to meet, all of them.
    pub fn checks(&self) -> (checks: Vec<Check>)
        ensures
            checks.deep_view() == Self::conditions(self.deep_view()),
    {
        let followed = match self.followed_by {
            Some(_) => author_followed_by_current_user(self.followed_by),
            None => Check::Always,
        };
        let checks = vec![
            article_author(self.author_name.as_ref()),
            article_has_tag(self.tag_name.as_ref()),
            article_liked_by_user(self.user_who_liked_it.as_ref()),
            followed,
        ];
        assert(checks.deep_view() =~= Self::conditions(self.deep_view()));
        checks
    }
}

/// The name that a filter is given, as a value of its own.
fn owned(name: Option<&String>) -> (res: Option<String>)
    ensures
        res.deep_view() == name.deep_view(),
{
    match name {
        Some(text) => Some(text.clone()),
        None => None,
    }
}

/// The page size that a request asks for.
pub open spec fn page_limit(limit: Option<u64>) -> u64 {
    match limit {
        Some(n) => n,
        None => DEFAULT_PAGE_LIMIT,
    }
}

/// The number of articles that a request skips.
pub open spec fn page_offset(offset: Option<u64>) -> u64 {
    match offset {
        Some(n) => n,
        None => DEFAULT_PAGE_OFFSET,
    }
}

/// The names of `tags`, in order.
pub open spec fn names_of(tags: Seq<tag::ModelView>) -> Seq<Seq<char>> {
    tags.map_values(|t: tag::ModelView| t.tag_name)
}

/// The article of a query result without what the query added to the row.
pub open spec fn row_of(article: ModelExtendedView) -> article::ModelView {
    article::ModelView {
        id: article.id,
        slug: article.slug,
        title: article.title,
        description: article.description,
        body: article.body,
        author_id: article.author_id,
        created_at: article.created_at,
        updated_at: article.updated_at,
    }
}

/// An article of a query result together with its tags, as the API shows it.
pub open spec fn shown(article: ModelExtendedView, tags: Seq<tag::ModelView>) -> ArticleWithAuthorView {
    ArticleWithAuthorView {
        slug: article.slug,
        title: article.title,
        description: article.description,
        body: article.body,
        favorited: article.favorited,
        favorites_count: article.favorites_count,
        created_at: article.created_at,
        updated_at: article.updated_at,
        author: article.author,
        tag_list: names_of(tags),
    }
}

/// Articles paired with their tags position by position, as far as both
/// lists reach.
pub open spec fn all_shown(
    articles: Seq<ModelExtendedView>,
    tags: Seq<Seq<tag::ModelView>>,
) -> Seq<ArticleWithAuthorView> {
    Seq::new(
        if articles.len() <= tags.len() {
            articles.len()
        } else {
            tags.len()
        },
        |i: int| shown(articles[i], tags[i]),
    )
}

/// The page of articles that match the given conditions, as the user
/// `current_user_id` sees them. A missing limit stands for
/// [`DEFAULT_PAGE_LIMIT`], a missing offset for [`DEFAULT_PAGE_OFFSET`].
pub fn get_articles_with_filters(
    tag_name: Option<&String>,
    author_name: Option<&String>,
    user_who_liked_it: Option<&String>,
    limit: Option<u64>,
    offset: Option<u64>,
    current_user_id: Option<u128>,
) -> (select: ArticleSelect)
    ensures
        select.deep_view() == (ArticleSelectView {
            filter: ArticleFilterView {
                tag_name: tag_name.deep_view(),
                author_name: author_name.deep_view(),
                user_who_liked_it: user_who_liked_it.deep_view(),
                followed_by: None,
            },
            limit: page_limit(limit),
            offset: page_offset(offset),
            current_user_id,
        }),
{
    ArticleSelect {
        filter: ArticleFilter {
            tag_name: owned(tag_name),
            author_name: owned(author_name),
            user_who_liked_it: owned(user_who_liked_it),
            followed_by: None,
        },
        limit: match limit {
            Some(n) => n,
            None => DEFAULT_PAGE_LIMIT,
        },
        offset: match offset {
            Some(n) => n,
            None => DEFAULT_PAGE_OFFSET,
        },
        current_user_id,
    }
}

/// The page of the feed of `current_user_id`: the articles of the authors
/// whom that user follows, and nothing else.
pub fn get_articles_feed(limit: Option<u64>, offset: Option<u64>, current_user_id: u128) -> (select:
    ArticleSelect)
    ensures
        select.deep_view() == (ArticleSelectView {
            filter: ArticleFilterView {
                tag_name: None,
                author_name: None,
                user_who_liked_it: None,
                followed_by: Some(current_user_id),
            },
            limit: page_limit(limit),
            offset: page_offset(offset),
            current_user_id: Some(current_user_id),
        }),
{
    ArticleSelect {
        filter: ArticleFilter {
            tag_name: None,
            author_name: None,
            user_who_liked_it: None,
            followed_by: Some(current_user_id),
        },
        limit: match limit {
            Some(n) => n,
            None => DEFAULT_PAGE_LIMIT,
        },
        offset: match offset {
            Some(n) => n,
            None => DEFAULT_PAGE_OFFSET,
        },
        current_user_id: Some(current_user_id),
    }
}

/// The articles to count for the given conditions. Where a user is given,
/// only articles of authors whom that user follows count.
pub fn get_articles_count(
    tag_name: Option<&String>,
    author_name: Option<&String>,
    user_who_liked_it: Option<&String>,
    current_user_id: Option<u128>,
) -> (filter: ArticleFilter)
    ensures
        filter.deep_view() == (ArticleFilterView {
            tag_name: tag_name.deep_view(),
            author_name: author_name.deep_view(),
            user_who_liked_it: user_who_liked_it.deep_view(),
            followed_by: current_user_id,
        }),
{
    ArticleFilter {
        tag_name: owned(tag_name),
        author_name: owned(author_name),
        user_who_liked_it: owned(user_who_liked_it),
        followed_by: current_user_id,
    }
}

/// The names of `tags`, in order.
pub fn tag_names(tags: &Vec<tag::Model>) -> (names: Vec<String>)
    ensures
        names.deep_view() == names_of(tags.deep_view()),
{
    let mut names: Vec<String> = Vec::new();
    let mut i: usize = 0;
    while i < tags.len()
        invariant
            i <= tags.len(),
            names@.len() == i,
            forall|j: int| 0 <= j < i ==> (#[trigger] names@[j])@ == tags@[j].tag_name@,
        decreases tags.len() - i,
    {
        names.push(tags[i].tag_name.clone());
        i += 1;
    }
    assert(names.deep_view() =~= names_of(tags.deep_view()));
    names
}

impl ModelExtended {
    /// The row of the article, without what the query added to it.
    pub fn into(self) -> (row: article::Model)
        ensures
            row.deep_view() == row_of(self.deep_view()),
    {
        article::Model {
            id: self.id,
            slug: self.slug,
            title: self.title,
            description: self.description,
            body: self.body,
            author_id: self.author_id,
            created_at: self.created_at,
            updated_at: self.updated_at,
        }
    }
}

impl ArticleWithAuthor {
    /// Puts an article of a query result together with its tags.
    pub fn from(parts: (ModelExtended, Vec<tag::Model>)) -> (res: Self)
        ensures
            res.deep_view() == shown(parts.0.deep_view(), parts.1.deep_view()),
    {
        let (article, tags) = parts;
        ArticleWithAuthor {
            slug: article.slug,
            title: article.title,
            description: article.description,
            body: article.body,
            favorited: article.favorited,
            favorites_count: article.favorites_count,
            created_at: article.created_at,
            updated_at: article.updated_at,
            author: article.author,
            tag_list: tag_names(&tags),
        }
    }
}

/// Pairs the articles of a query result with their tags, position by
/// position, and stops where the shorter list ends.
pub fn with_tags(articles: Vec<ModelExtended>, tags: Vec<Vec<tag::Model>>) -> (res: Vec<
    ArticleWithAuthor,
>)
    ensures
        res.deep_view() == all_shown(articles.deep_view(), tags.deep_view()),
{
    let mut res: Vec<ArticleWithAuthor> = Vec::new();
    let ghost all = articles.deep_view();
    for article in it: articles.into_iter()
        invariant
            it.seq() == articles@,
            all == articles.deep_view(),
            res@.len() == (if it.index() <= tags@.len() {
                it.index()
            } else {
                tags@.len() as int
            }),
            forall|j: int|
                0 <= j < res@.len() ==> (#[trigger] res@[j]).deep_view() == shown(
                    all[j],
                    tags.deep_view()[j],
                ),
    {
        let i = res.len();
        if i < tags.len() {
            let names = tag_names(&tags[i]);
            res.push(
                ArticleWithAuthor {
                    slug: article.slug,
                    title: article.title,
                    description: article.description,
                    body: article.body,
                    favorited: article.favorited,
                    favorites_count: article.favorites_count,
                    created_at: article.created_at,
                    updated_at: article.updated_at,
                    author: article.author,
                    tag_list: names,
                },
            );
        }
    }
    assert(res.deep_view() =~= all_shown(articles.deep_view(), tags.deep_view()));
    res
}

} // verus!
