use conduit::api::comment::{
    create_comment, created_comment, delete_comment, list_comments, CommentDto, CreateComment,
    CreateCommentDto,
};
use conduit::api::error::ApiErr;
use conduit::api::profile::{follow_user, get_profile, unfollow_user, ProfileDto};
use conduit::api::tags::{list_tags, TagsDto};
use conduit::entity::{article, follower, tag, user};
use conduit::middleware::auth::Token;
use conduit::repo::comment::CommentWithAuthor;
use conduit::repo::tag::{create_tags, get_tags_ids};
use conduit::repo::user::Profile;

fn some_article() -> article::Model {
    article::Model {
        id: 11,
        slug: "slug".to_owned(),
        title: "title".to_owned(),
        description: "description".to_owned(),
        body: "body".to_owned(),
        author_id: 22,
        created_at: None,
        updated_at: None,
    }
}

fn some_user() -> user::Model {
    user::Model {
        id: 5,
        email: "email".to_owned(),
        username: "username".to_owned(),
        bio: None,
        image: None,
        password: "hash".to_owned(),
    }
}

fn some_profile() -> Profile {
    Profile { username: "username".to_owned(), bio: None, image: None, following: true }
}

fn named_tag(id: u128, name: &str) -> tag::Model {
    tag::Model { id, tag_name: name.to_owned() }
}

#[test]
fn comment_needs_an_article() {
    let payload = CreateCommentDto { comment: CreateComment { body: "nice".to_owned() } };
    assert_eq!(
        create_comment(None, Token { exp: 0, id: 1 }, payload),
        Err(ApiErr::ArticleNotExist)
    );
}

#[test]
fn comment_is_by_the_user_on_the_article() {
    let payload = CreateCommentDto { comment: CreateComment { body: "nice".to_owned() } };
    let row = create_comment(Some(&some_article()), Token { exp: 0, id: 1 }, payload).unwrap();
    assert_eq!(row.body, "nice");
    assert_eq!(row.author_id, 1);
    assert_eq!(row.article_id, 11);
    assert_eq!(uuid::Uuid::from_u128(row.id).get_version_num(), 4);
}

#[test]
fn written_comment_must_be_there() {
    let comment = CommentWithAuthor {
        id: 3,
        body: "nice".to_owned(),
        created_at: Some(1),
        updated_at: Some(1),
        author: some_profile(),
    };
    assert_eq!(created_comment(Some(comment.clone())), Ok(CommentDto { comment }));
    assert_eq!(created_comment(None), Err(ApiErr::CommentNotExist));
}

#[test]
fn comments_are_listed_for_an_article() {
    assert_eq!(list_comments(Some(&some_article())), Ok(11));
    assert_eq!(list_comments(None), Err(ApiErr::ArticleNotExist));
}

#[test]
fn deleting_no_comment_is_a_failure() {
    assert_eq!(delete_comment(0), Err(ApiErr::CommentNotExist));
    assert_eq!(delete_comment(1), Ok(()));
    assert_eq!(delete_comment(u64::MAX), Ok(()));
}

#[test]
fn profile_must_be_there() {
    assert_eq!(get_profile(Some(some_profile())), Ok(ProfileDto { profile: some_profile() }));
    assert_eq!(get_profile(None), Err(ApiErr::UserNotExist));
}

#[test]
fn following_relates_the_followed_to_the_follower() {
    let token = Token { exp: 0, id: 9 };
    let rel = follower::Model { user_id: 5, follower_id: 9 };
    assert_eq!(follow_user(Some(&some_user()), token), Ok(rel.clone()));
    assert_eq!(unfollow_user(Some(&some_user()), token), Ok(rel));
    assert_eq!(follow_user(None, token), Err(ApiErr::UserNotExist));
    assert_eq!(unfollow_user(None, token), Err(ApiErr::UserNotExist));
}

#[test]
fn tags_are_listed_as_they_come() {
    assert_eq!(
        list_tags(vec!["b".to_owned(), "a".to_owned()]),
        TagsDto { tags: vec!["b".to_owned(), "a".to_owned()] }
    );
    assert_eq!(list_tags(vec![]), TagsDto { tags: vec![] });
}

#[test]
fn tags_without_a_name_are_not_stored() {
    assert_eq!(
        create_tags(vec![named_tag(1, "a"), named_tag(2, ""), named_tag(3, "b"), named_tag(4, "")]),
        vec![named_tag(1, "a"), named_tag(3, "b")]
    );
    assert_eq!(create_tags(vec![named_tag(2, "")]), vec![]);
    assert_eq!(create_tags(vec![]), vec![]);
    assert_eq!(create_tags(vec![named_tag(7, " ")]), vec![named_tag(7, " ")]);
}

#[test]
fn empty_names_are_not_looked_up() {
    assert_eq!(
        get_tags_ids(vec!["a".to_owned(), "".to_owned(), "b".to_owned()]),
        Some(vec!["a".to_owned(), "b".to_owned()])
    );
    assert_eq!(get_tags_ids(vec!["a".to_owned(), "a".to_owned()]), Some(vec!["a".to_owned(); 2]));
}

#[test]
fn nothing_is_looked_up_where_no_name_is_left() {
    assert_eq!(get_tags_ids(vec![]), None);
    assert_eq!(get_tags_ids(vec!["".to_owned(), "".to_owned()]), None);
}
