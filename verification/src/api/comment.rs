//! Comments on articles: writing, listing and deleting them.

use crate::api::error::{fails_with, ApiErr, ApiErrView};
use crate::entity::article;
use crate::ident::{fresh_id, is_random_id};
use crate::middleware::auth::Token;
use crate::repo::comment::{CommentWithAuthor, CommentWithAuthorView};
use vstd::prelude::*;

verus! {

/// The comments on one article.
#[derive(Clone, Debug, PartialEq, Eq)]
pub struct CommentsDto {
    pub comments: Vec<CommentWithAuthor>,
}

/// The value of [`CommentsDto`] that contracts speak of.
pub ghost struct CommentsDtoView {
    pub comments: Seq<CommentWithAuthorView>,
}

impl DeepView for CommentsDto {
    type V = CommentsDtoView;

    open spec fn deep_view(&self) -> CommentsDtoView {
        CommentsDtoView {
            comments: self.comments.deep_view(),
        }
    }
}

/// One comment.
#[derive(Clone, Debug, PartialEq, Eq)]
pub struct CommentDto {
    pub comment: CommentWithAuthor,
}

/// The value of [`CommentDto`] that contracts speak of.
pub ghost struct CommentDtoView {
    pub comment: CommentWithAuthorView,
}

impl DeepView for CommentDto {
    type V = CommentDtoView;

    open spec fn deep_view(&self) -> CommentDtoView {
        CommentDtoView {
            comment: self.comment.deep_view(),
        }
    }
}

/// What a request to comment carries.
#[derive(Clone, Debug, PartialEq, Eq)]
pub struct CreateComment {
    pub body: String,
}

/// The value of [`CreateComment`] that contracts speak of.
pub ghost struct CreateCommentView {
    pub body: Seq<char>,
}

impl DeepView for CreateComment {
    type V = CreateCommentView;

    open spec fn deep_view(&self) -> CreateCommentView {
        CreateCommentView {
            body: self.body.deep_view(),
        }
    }
}

/// The body of a request to comment on an article.
#[derive(Clone, Debug, PartialEq, Eq)]
pub struct CreateCommentDto {
    pub comment: CreateComment,
}

/// The value of [`CreateCommentDto`] that contracts speak of.
pub ghost struct CreateCommentDtoView {
    pub comment: CreateCommentView,
}

impl DeepView for CreateCommentDto {
    type V = CreateCommentDtoView;

    open spec fn deep_view(&self) -> CreateCommentDtoView {
        CreateCommentDtoView {
            comment: self.comment.deep_view(),
        }
    }
}

/// A comment to store. The times of creation and of the last change are left to the database.
#[derive(Clone, Debug, PartialEq, Eq)]
pub struct NewComment {
    pub id: u128,
    pub body: String,
    pub author_id: u128,
    pub article_id: u128,
}

/// The value of [`NewComment`] that contracts speak of.
pub ghost struct NewCommentView {
    pub id: u128,
    pub body: Seq<char>,
    pub author_id: u128,
    pub article_id: u128,
}

impl DeepView for NewComment {
    type V = NewCommentView;

    open spec fn deep_view(&self) -> NewCommentView {
        NewCommentView {
            id: self.id.deep_view(),
            body: self.body.deep_view(),
            author_id: self.author_id.deep_view(),
            article_id: self.article_id.deep_view(),
        }
    }
}

/// What a request to comment becomes: a failure where there is no such
/// article, else a comment with a fresh identifier by the user on it.
pub open spec fn commented(
    found: Option<article::ModelView>,
    user: u128,
    body: Seq<char>,
    res: Result<NewComment, ApiErr>,
) -> bool {
    match found {
        None => fails_with(res, ApiErrView::ArticleNotExist),
        Some(row) => res matches Ok(comment) && is_random_id(comment.id) && comment.deep_view()
            == (NewCommentView {
            id: comment.id,
            body,
            author_id: user,
            article_id: row.id,
        }),
    }
}

/// The article whose comments a request asks for, or the failure where
/// there is no such article.
pub open spec fn commented_article(found: Option<article::ModelView>, res: Result<u128, ApiErr>) -> bool {
    match found {
        None => fails_with(res, ApiErrView::ArticleNotExist),
        Some(row) => res matches Ok(id) && id == row.id,
    }
}

/// Prepares the comment of the user who holds `token` on the article found
/// under the slug of the request.
pub fn create_comment(found: Option<&article::Model>, token: Token, payload: CreateCommentDto) -> (res:
    Result<NewComment, ApiErr>)
    ensures
        commented(found.deep_view(), token.id, payload.comment.body@, res),
{
    match found {
        None => Err(ApiErr::ArticleNotExist),
        Some(row) => Ok(
            NewComment {
                id: fresh_id(),
                body: payload.comment.body,
                author_id: token.id,
                article_id: row.id,
            },
        ),
    }
}

/// The answer to a request that wrote a comment: the comment as read back,
/// or a failure where it is not there.
pub fn created_comment(found: Option<CommentWithAuthor>) -> (res: Result<CommentDto, ApiErr>)
    ensures
        found is Some ==> res == Ok::<CommentDto, ApiErr>(CommentDto { comment: found.unwrap() }),
        found is None ==> fails_with(res, ApiErrView::CommentNotExist),
{
    match found {
        Some(comment) => Ok(CommentDto { comment }),
        None => Err(ApiErr::CommentNotExist),
    }
}

/// The article whose comments are to be listed.
pub fn list_comments(found: Option<&article::Model>) -> (res: Result<u128, ApiErr>)
    ensures
        commented_article(found.deep_view(), res),
{
    match found {
        Some(row) => Ok(row.id),
        None => Err(ApiErr::ArticleNotExist),
    }
}

/// The answer to a request to delete a comment, from the number of rows
/// that the deletion touched: a failure where it touched none.
pub fn delete_comment(rows_affected: u64) -> (res: Result<(), ApiErr>)
    ensures
        rows_affected > 0 ==> res is Ok,
        rows_affected == 0 ==> fails_with(res, ApiErrView::CommentNotExist),
{
    if rows_affected > 0 {
        Ok(())
    } else {
        Err(ApiErr::CommentNotExist)
    }
}

} // verus!
