//! Articles: listing, creating, changing and favoriting them.

use crate::api::error::{fails_with, ApiErr, ApiErrView};
use crate::clock::utc_millis;
use crate::entity::{article, article_tag, favorited_article, tag};
use crate::ident::{fresh_id, is_random_id, simple_string, simple_text};
use crate::middleware::auth::Token;
use crate::repo::article::{
    get_articles_count, get_articles_feed, get_articles_with_filters, page_limit, page_offset,
    ArticleFilter, ArticleFilterView, ArticleSelect, ArticleSelectView, ArticleWithAuthor,
    ArticleWithAuthorView,
};
use crate::text::{parse_bounded, parsed};
use vstd::prelude::*;

verus! {

/// A page of articles, and the number of articles that match in all.
#[derive(Clone, Debug, PartialEq, Eq)]
pub struct ArticlesDto {
    pub articles: Vec<ArticleWithAuthor>,
    pub articles_count: u64,
}

/// The value of [`ArticlesDto`] that contracts speak of.
pub ghost struct ArticlesDtoView {
    pub articles: Seq<ArticleWithAuthorView>,
    pub articles_count: u64,
}

impl DeepView for ArticlesDto {
    type V = ArticlesDtoView;

    open spec fn deep_view(&self) -> ArticlesDtoView {
        ArticlesDtoView {
            articles: self.articles.deep_view(),
            articles_count: self.articles_count.deep_view(),
        }
    }
}

/// One article, if there is one.
#[derive(Clone, Debug, PartialEq, Eq)]
pub struct ArticleDto {
    pub article: Option<ArticleWithAuthor>,
}

/// The value of [`ArticleDto`] that contracts speak of.
pub ghost struct ArticleDtoView {
    pub article: Option<ArticleWithAuthorView>,
}

impl DeepView for ArticleDto {
    type V = ArticleDtoView;

    open spec fn deep_view(&self) -> ArticleDtoView {
        ArticleDtoView {
            article: self.article.deep_view(),
        }
    }
}

/// What a request to create an article carries.
#[derive(Clone, Debug, PartialEq, Eq)]
pub struct CreateArticle {
    pub title: String,
    pub description: String,
    pub body: String,
    pub tag_list: Option<Vec<String>>,
}

/// The value of [`CreateArticle`] that contracts speak of.
pub ghost struct CreateArticleView {
    pub title: Seq<char>,
    pub description: Seq<char>,
    pub body: Seq<char>,
    pub tag_list: Option<Seq<Seq<char>>>,
}

impl DeepView for CreateArticle {
    type V = CreateArticleView;

    open spec fn deep_view(&self) -> CreateArticleView {
        CreateArticleView {
            title: self.title.deep_view(),
            description: self.description.deep_view(),
            body: self.body.deep_view(),
            tag_list: self.tag_list.deep_view(),
        }
    }
}

/// The body of a request to create an article.
#[derive(Clone, Debug, PartialEq, Eq)]
pub struct CreateArticleDto {
    pub article: CreateArticle,
}

/// The value of [`CreateArticleDto`] that contracts speak of.
pub ghost struct CreateArticleDtoView {
    pub article: CreateArticleView,
}

impl DeepView for CreateArticleDto {
    type V = CreateArticleDtoView;

    open spec fn deep_view(&self) -> CreateArticleDtoView {
        CreateArticleDtoView {
            article: self.article.deep_view(),
        }
    }
}

/// What a request to change an article carries; what is absent stays as it is.
#[derive(Clone, Debug, Default, PartialEq, Eq)]
pub struct UpdateArticle {
    pub title: Option<String>,
    pub description: Option<String>,
    pub body: Option<String>,
}

/// The value of [`UpdateArticle`] that contracts speak of.
pub ghost struct UpdateArticleView {
    pub title: Option<Seq<char>>,
    pub description: Option<Seq<char>>,
    pub body: Option<Seq<char>>,
}

impl DeepView for UpdateArticle {
    type V = UpdateArticleView;

    open spec fn deep_view(&self) -> UpdateArticleView {
        UpdateArticleView {
            title: self.title.deep_view(),
            description: self.description.deep_view(),
            body: self.body.deep_view(),
        }
    }
}

/// The body of a request to change an article.
#[derive(Clone, Debug, PartialEq, Eq)]
pub struct UpdateArticleDto {
    pub article: UpdateArticle,
}

/// The value of [`UpdateArticleDto`] that contracts speak of.
pub ghost struct UpdateArticleDtoView {
    pub article: UpdateArticleView,
}

impl DeepView for UpdateArticleDto {
    type V = UpdateArticleDtoView;

    open spec fn deep_view(&self) -> UpdateArticleDtoView {
        UpdateArticleDtoView {
            article: self.article.deep_view(),
        }
    }
}

/// An article to store. The times of creation and of the last change are left to the database.
#[derive(Clone, Debug, PartialEq, Eq)]
pub struct NewArticle {
    pub id: u128,
    pub slug: String,
    pub title: String,
    pub description: String,
    pub body: String,
    pub author_id: u128,
}

/// The value of [`NewArticle`] that contracts speak of.
pub ghost struct NewArticleView {
    pub id: u128,
    pub slug: Seq<char>,
    pub title: Seq<char>,
    pub description: Seq<char>,
    pub body: Seq<char>,
    pub author_id: u128,
}

impl DeepView for NewArticle {
    type V = NewArticleView;

    open spec fn deep_view(&self) -> NewArticleView {
        NewArticleView {
            id: self.id.deep_view(),
            slug: self.slug.deep_view(),
            title: self.title.deep_view(),
            description: self.description.deep_view(),
            body: self.body.deep_view(),
            author_id: self.author_id.deep_view(),
        }
    }
}

/// What is known of a new article before anything is stored.
#[derive(Clone, Debug, PartialEq, Eq)]
pub struct ArticleDraft {
    /// The article itself.
    pub article: NewArticle,
    /// One tag for each name of the request, to store unless it exists or
    /// has no name; nothing where the request names no list.
    pub tags: Option<Vec<tag::Model>>,
    /// The names of the tags to link to the article.
    pub tag_names: Vec<String>,
}

/// The value of [`ArticleDraft`] that contracts speak of.
pub ghost struct ArticleDraftView {
    pub article: NewArticleView,
    pub tags: Option<Seq<tag::ModelView>>,
    pub tag_names: Seq<Seq<char>>,
}

impl DeepView for ArticleDraft {
    type V = ArticleDraftView;

    open spec fn deep_view(&self) -> ArticleDraftView {
        ArticleDraftView {
            article: self.article.deep_view(),
            tags: self.tags.deep_view(),
            tag_names: self.tag_names.deep_view(),
        }
    }
}

/// The slug that `slug::slugify` makes of a text.
pub uninterp spec fn slugified(text: Seq<char>) -> Seq<char>;

/// Whether `c` may stand in a slug: a lower-case ASCII letter, an ASCII
/// digit, or a hyphen.
pub open spec fn is_slug_char(c: char) -> bool {
    ('a' <= c && c <= 'z') || ('0' <= c && c <= '9') || c == '-'
}

/// Whether `s` has the shape of a slug: made of letters, digits and
/// hyphens, with no hyphen at either end and no two hyphens in a row.
pub open spec fn is_slug(s: Seq<char>) -> bool {
    &&& forall|i: int| 0 <= i < s.len() ==> is_slug_char(#[trigger] s[i])
    &&& s.len() > 0 ==> s[0] != '-' && s[s.len() - 1] != '-'
    &&& forall|i: int| 0 <= i < s.len() - 1 ==> !(#[trigger] s[i] == '-' && s[i + 1] == '-')
}

/// Turns a text into a slug with `slug::slugify`. The result is a function
/// of the text alone, which the contract names, and it has the shape that
/// the documentation of the crate promises of every slug.
#[verifier::external_body]
fn slugify(text: &str) -> (out: String)
    ensures
        out@ == slugified(text@),
        is_slug(out@),
{
    slug::slugify(text)
}

/// The value of the first parameter called `key`, if there is one.
pub open spec fn param(params: Seq<(Seq<char>, Seq<char>)>, key: Seq<char>) -> Option<Seq<char>>
    decreases params.len(),
{
    if params.len() == 0 {
        None
    } else if params[0].0 == key {
        Some(params[0].1)
    } else {
        param(params.drop_first(), key)
    }
}

/// The parameter `key` as a text to filter by: present and not empty.
pub open spec fn text_param(params: Seq<(Seq<char>, Seq<char>)>, key: Seq<char>) -> Option<
    Seq<char>,
> {
    match param(params, key) {
        Some(value) => if value.len() > 0 {
            Some(value)
        } else {
            None
        },
        None => None,
    }
}

/// The parameter `key` as a number: present and an unsigned decimal
/// numeral that fits in 64 bits.
pub open spec fn number_param(params: Seq<(Seq<char>, Seq<char>)>, key: Seq<char>) -> Option<u64> {
    match param(params, key) {
        Some(value) => match parsed(value, u64::MAX as nat) {
            Some(n) => Some(n as u64),
            None => None,
        },
        None => None,
    }
}

/// Finds the first parameter called `key`.
pub fn lookup<'a>(params: &'a Vec<(String, String)>, key: &str) -> (value: Option<&'a String>)
    ensures
        value.deep_view() == param(params.deep_view(), key@),
{
    let mut i: usize = 0;
    assert(params.deep_view().skip(0) =~= params.deep_view());
    while i < params.len()
        invariant
            i <= params.len(),
            param(params.deep_view().skip(i as int), key@) == param(params.deep_view(), key@),
        decreases params.len() - i,
    {
        let ghost rest = params.deep_view().skip(i as int);
        assert(rest[0] == params.deep_view()[i as int]);
        assert(rest.drop_first() =~= params.deep_view().skip(i + 1));
        if crate::text::str_equal(params[i].0.as_str(), key) {
            return Some(&params[i].1);
        }
        i += 1;
    }
    None
}

/// Reads the parameter `key` as a text to filter by.
pub fn text_of<'a>(params: &'a Vec<(String, String)>, key: &str) -> (value: Option<&'a String>)
    ensures
        value.deep_view() == text_param(params.deep_view(), key@),
{
    match lookup(params, key) {
        Some(value) => {
            if value.as_str().is_empty() {
                None
            } else {
                Some(value)
            }
        },
        None => None,
    }
}

/// Reads the parameter `key` as a number.
pub fn number_of(params: &Vec<(String, String)>, key: &str) -> (value: Option<u64>)
    ensures
        value == number_param(params.deep_view(), key@),
{
    match lookup(params, key) {
        Some(value) => parse_bounded(value.as_str(), u64::MAX),
        None => None,
    }
}

/// The conditions that a request for a list of articles names: `tag`,
/// `author` and `favorited`, each only where it is not empty.
pub open spec fn listed(params: Seq<(Seq<char>, Seq<char>)>) -> ArticleFilterView {
    ArticleFilterView {
        tag_name: text_param(params, "tag"@),
        author_name: text_param(params, "author"@),
        user_who_liked_it: text_param(params, "favorited"@),
        followed_by: None,
    }
}

/// The page that a request for a list of articles asks for, as the user
/// `viewer` sees it: `limit` and `offset` where they are numbers, else the
/// defaults.
pub open spec fn listed_page(params: Seq<(Seq<char>, Seq<char>)>, viewer: Option<u128>) -> ArticleSelectView {
    ArticleSelectView {
        filter: listed(params),
        limit: page_limit(number_param(params, "limit"@)),
        offset: page_offset(number_param(params, "offset"@)),
        current_user_id: viewer,
    }
}

/// The page of the feed that a request asks for.
pub open spec fn fed_page(params: Seq<(Seq<char>, Seq<char>)>, user: u128) -> ArticleSelectView {
    ArticleSelectView {
        filter: ArticleFilterView {
            tag_name: None,
            author_name: None,
            user_who_liked_it: None,
            followed_by: Some(user),
        },
        limit: page_limit(number_param(params, "limit"@)),
        offset: page_offset(number_param(params, "offset"@)),
        current_user_id: Some(user),
    }
}

/// The user to whom a token was issued, if there is a token.
pub open spec fn holder(maybe_token: Option<Token>) -> Option<u128> {
    match maybe_token {
        Some(token) => Some(token.id),
        None => None,
    }
}

/// Reads a request for a list of articles: the page to fetch, and the
/// articles to count, which are all that match whatever the page.
pub fn list_articles(params: &Vec<(String, String)>, maybe_token: Option<Token>) -> (res: (
    ArticleSelect,
    ArticleFilter,
))
    ensures
        res.0.deep_view() == listed_page(params.deep_view(), holder(maybe_token)),
        res.1.deep_view() == listed(params.deep_view()),
{
    let tag_name = text_of(params, "tag");
    let author_name = text_of(params, "author");
    let user_who_liked_it = text_of(params, "favorited");
    let limit = number_of(params, "limit");
    let offset = number_of(params, "offset");
    let viewer = match maybe_token {
        Some(token) => Some(token.id),
        None => None,
    };
    let select = get_articles_with_filters(
        tag_name,
        author_name,
        user_who_liked_it,
        limit,
        offset,
        viewer,
    );
    let count = get_articles_count(tag_name, author_name, user_who_liked_it, None);
    (select, count)
}

/// Reads a request for the feed of the user who holds `token`: the page to
/// fetch, and the articles to count.
pub fn feed_articles(params: &Vec<(String, String)>, token: Token) -> (res: (
    ArticleSelect,
    ArticleFilter,
))
    ensures
        res.0.deep_view() == fed_page(params.deep_view(), token.id),
        res.1.deep_view() == fed_page(params.deep_view(), token.id).filter,
{
    let limit = number_of(params, "limit");
    let offset = number_of(params, "offset");
    let select = get_articles_feed(limit, offset, token.id);
    let count = get_articles_count(None, None, None, Some(token.id));
    (select, count)
}

/// The answer to a request for one article.
pub fn get_article(article: Option<ArticleWithAuthor>) -> (dto: ArticleDto)
    ensures
        dto.article == article,
{
    ArticleDto { article }
}

/// One new tag for each name, in order.
pub open spec fn tags_named(rows: Seq<tag::ModelView>, names: Seq<Seq<char>>) -> bool {
    &&& rows.len() == names.len()
    &&& forall|i: int|
        0 <= i < rows.len() ==> is_random_id((#[trigger] rows[i]).id) && rows[i].tag_name
            == names[i]
}

/// What a request to create an article, made by `user`, becomes. The slug
/// is made of the title followed by the identifier of the user, so that two
/// users may choose the same title.
pub open spec fn drafted(input: CreateArticleView, user: u128, draft: ArticleDraftView) -> bool {
    &&& is_random_id(draft.article.id)
    &&& draft.article.slug == slugified(input.title + simple_text(user))
    &&& is_slug(draft.article.slug)
    &&& draft.article.title == input.title
    &&& draft.article.description == input.description
    &&& draft.article.body == input.body
    &&& draft.article.author_id == user
    &&& match input.tag_list {
        Some(names) => draft.tags matches Some(rows) && tags_named(rows, names) && draft.tag_names
            == names,
        None => draft.tags is None && draft.tag_names.len() == 0,
    }
}

/// One link for each tag, in order, from `article_id` to that tag.
pub open spec fn linked(tags_ids: Seq<u128>, article_id: u128) -> Seq<article_tag::ModelView> {
    Seq::new(
        tags_ids.len(),
        |i: int| article_tag::ModelView { article_id, tag_id: tags_ids[i] },
    )
}

/// An article after a change: each text that the request carries replaces
/// the old one, a new title brings a new slug, and any change at all sets
/// the time of the last change to `now`.
pub open spec fn revised(row: article::ModelView, input: UpdateArticleView, now: i64) -> article::ModelView {
    article::ModelView {
        id: row.id,
        slug: match input.title {
            Some(title) => slugified(title),
            None => row.slug,
        },
        title: match input.title {
            Some(title) => title,
            None => row.title,
        },
        description: match input.description {
            Some(description) => description,
            None => row.description,
        },
        body: match input.body {
            Some(body) => body,
            None => row.body,
        },
        author_id: row.author_id,
        created_at: row.created_at,
        updated_at: if input.title is Some || input.description is Some || input.body is Some {
            Some(now)
        } else {
            row.updated_at
        },
    }
}

/// What a request to change an article yields: a failure where there is
/// no such article, else the article as revised at some time.
pub open spec fn revision(
    found: Option<article::ModelView>,
    input: UpdateArticleView,
    res: Result<article::Model, ApiErr>,
) -> bool {
    match found {
        None => fails_with(res, ApiErrView::ArticleNotExist),
        Some(row) => res matches Ok(after) && exists|now: i64|
            after.deep_view() == #[trigger] revised(row, input, now),
    }
}

/// Whether a change kept the shape of the slug: an article that had a slug
/// of the right shape has one afterwards.
pub open spec fn keeps_slug_shape(
    found: Option<article::Model>,
    res: Result<article::Model, ApiErr>,
) -> bool {
    match (found, res) {
        (Some(row), Ok(after)) => is_slug(row.slug@) ==> is_slug(after.slug@),
        _ => true,
    }
}

/// The relation between a user and an article that the user favorites, or
/// the failure where there is no such article.
pub open spec fn favorite(
    found: Option<article::ModelView>,
    user: u128,
    res: Result<favorited_article::Model, ApiErr>,
) -> bool {
    match found {
        None => fails_with(res, ApiErrView::ArticleNotExist),
        Some(row) => res matches Ok(rel) && rel.deep_view() == (favorited_article::ModelView {
            article_id: row.id,
            user_id: user,
        }),
    }
}

fn new_tags(names: &Vec<String>) -> (rows: Vec<tag::Model>)
    ensures
        tags_named(rows.deep_view(), names.deep_view()),
{
    let mut rows: Vec<tag::Model> = Vec::new();
    let mut i: usize = 0;
    while i < names.len()
        invariant
            i <= names.len(),
            rows@.len() == i,
            forall|j: int|
                0 <= j < i ==> is_random_id((#[trigger] rows@[j]).id) && rows@[j].tag_name@
                    == names@[j]@,
        decreases names.len() - i,
    {
        rows.push(tag::Model { id: fresh_id(), tag_name: names[i].clone() });
        i += 1;
    }
    rows
}

/// Prepares a new article for the user who holds `token`: the article with
/// a fresh identifier and its slug, and the tags that the request names.
pub fn create_article(payload: CreateArticleDto, token: Token) -> (draft: ArticleDraft)
    ensures
        drafted(payload.article.deep_view(), token.id, draft.deep_view()),
{
    let input = payload.article;
    let phrase = input.title.clone().concat(simple_string(token.id).as_str());
    let tags = match &input.tag_list {
        Some(names) => Some(new_tags(names)),
        None => None,
    };
    let tag_names = match input.tag_list {
        Some(names) => names,
        None => Vec::new(),
    };
    ArticleDraft {
        article: NewArticle {
            id: fresh_id(),
            slug: slugify(phrase.as_str()),
            title: input.title,
            description: input.description,
            body: input.body,
            author_id: token.id,
        },
        tags,
        tag_names,
    }
}

/// Links the article `article_id` to each of the tags found.
pub fn link_tags(tags_ids: &Vec<u128>, article_id: u128) -> (rows: Vec<article_tag::Model>)
    ensures
        rows.deep_view() == linked(tags_ids@, article_id),
{
    let mut rows: Vec<article_tag::Model> = Vec::new();
    let mut i: usize = 0;
    while i < tags_ids.len()
        invariant
            i <= tags_ids.len(),
            rows@.len() == i,
            forall|j: int|
                0 <= j < i ==> (#[trigger] rows@[j]).deep_view() == (article_tag::ModelView {
                    article_id,
                    tag_id: tags_ids@[j],
                }),
        decreases tags_ids.len() - i,
    {
        rows.push(article_tag::Model { tag_id: tags_ids[i], article_id });
        i += 1;
    }
    assert(rows.deep_view() =~= linked(tags_ids@, article_id));
    rows
}

/// Applies a change to an article at the time `now`.
pub fn revise(row: article::Model, input: UpdateArticle, now: i64) -> (after: article::Model)
    ensures
        after.deep_view() == revised(row.deep_view(), input.deep_view(), now),
        is_slug(row.slug@) ==> is_slug(after.slug@),
{
    let changed = input.title.is_some() || input.description.is_some() || input.body.is_some();
    let (slug, title) = match input.title {
        Some(title) => (slugify(title.as_str()), title),
        None => (row.slug, row.title),
    };
    article::Model {
        id: row.id,
        slug,
        title,
        description: match input.description {
            Some(description) => description,
            None => row.description,
        },
        body: match input.body {
            Some(body) => body,
            None => row.body,
        },
        author_id: row.author_id,
        created_at: row.created_at,
        updated_at: if changed {
            Some(now)
        } else {
            row.updated_at
        },
    }
}

/// Applies a request to change an article to the article found under its
/// slug, at the present time.
pub fn update_article(found: Option<article::Model>, payload: UpdateArticleDto) -> (res: Result<
    article::Model,
    ApiErr,
>)
    ensures
        revision(found.deep_view(), payload.article.deep_view(), res),
        keeps_slug_shape(found, res),
{
    match found {
        None => Err(ApiErr::ArticleNotExist),
        Some(row) => {
            let now = utc_millis();
            let after = revise(row, payload.article, now);
            assert(after.deep_view() == revised(row.deep_view(), payload.article.deep_view(), now));
            Ok(after)
        },
    }
}

/// The article to delete: the one found under the slug of the request.
pub fn delete_article(found: Option<article::Model>) -> (res: Result<article::Model, ApiErr>)
    ensures
        found is Some ==> res == Ok::<article::Model, ApiErr>(found.unwrap()),
        found is None ==> fails_with(res, ApiErrView::ArticleNotExist),
{
    match found {
        Some(row) => Ok(row),
        None => Err(ApiErr::ArticleNotExist),
    }
}

fn favorite_relation(found: Option<&article::Model>, token: Token) -> (res: Result<
    favorited_article::Model,
    ApiErr,
>)
    ensures
        favorite(found.deep_view(), token.id, res),
{
    match found {
        Some(row) => Ok(favorited_article::Model { article_id: row.id, user_id: token.id }),
        None => Err(ApiErr::ArticleNotExist),
    }
}

/// The relation to store when the user who holds `token` favorites the
/// article found under the slug of the request.
pub fn favorite_article(found: Option<&article::Model>, token: Token) -> (res: Result<
    favorited_article::Model,
    ApiErr,
>)
    ensures
        favorite(found.deep_view(), token.id, res),
{
    favorite_relation(found, token)
}

/// The relation to delete when the user who holds `token` takes the
/// article found under the slug of the request out of the favorites.
pub fn unfavorite_article(found: Option<&article::Model>, token: Token) -> (res: Result<
    favorited_article::Model,
    ApiErr,
>)
    ensures
        favorite(found.deep_view(), token.id, res),
{
    favorite_relation(found, token)
}

/// A request that carries nothing leaves the article as it is, whatever
/// the time.
pub proof fn lemma_empty_revision(row: article::ModelView, now: i64)
    ensures
        revised(row, UpdateArticleView { title: None, description: None, body: None }, now) == row,
{
}

/// A change never touches the identifier, the author or the time of
/// creation of an article.
pub proof fn lemma_revision_keeps_origin(row: article::ModelView, input: UpdateArticleView, now: i64)
    ensures
        revised(row, input, now).id == row.id,
        revised(row, input, now).author_id == row.author_id,
        revised(row, input, now).created_at == row.created_at,
{
}

} // verus!
