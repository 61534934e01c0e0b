use conduit::db::DbErr;
use conduit::testing::Operation::Insert;
use conduit::testing::{BldrErr, TestDataBuilder};

#[test]
fn test_display_error() {
    assert_eq!(
        BldrErr::ZeroQty.to_string(),
        "qty parameter should be greater then zero".to_owned()
    );
    assert_eq!(
        BldrErr::EmptyRel.to_string(),
        "relations parameter should be not empty".to_owned()
    );
    assert_eq!(
        BldrErr::WrongOrder("cat".to_owned(), "dog".to_owned()).to_string(),
        "cat should be set before dog".to_owned()
    );

    assert_eq!(
        BldrErr::OutOfRange("cat".to_owned(), 95).to_string(),
        "cat number should be between 1 and 95 inclusive".to_owned()
    );

    assert_eq!(
        BldrErr::InsertErr(DbErr::RecordNotInserted).to_string(),
        "unable to insert data".to_owned()
    );

    assert_eq!(
        BldrErr::ConnErr(DbErr::Conn("not connected".to_owned()))
        .to_string(),
        "no connection was established".to_owned()
    );

    assert_eq!(
        BldrErr::DbErr(DbErr::Exec("error text".to_owned())).to_string(),
        "orm error".to_owned()
    );
}

#[test]
fn test_source_error() {
    assert_eq!(
        BldrErr::InsertErr(DbErr::RecordNotInserted)
            .source()
            .unwrap()
            .to_string(),
        "None of the records are inserted".to_owned()
    );

    assert_eq!(
        BldrErr::ConnErr(DbErr::Conn("not connected".to_owned()))
        .source()
        .unwrap()
        .to_string(),
        "Connection Error: not connected".to_owned()
    );

    assert_eq!(
        BldrErr::DbErr(DbErr::Exec("error text".to_owned()))
            .source()
            .unwrap()
            .to_string(),
        "Execution Error: error text".to_owned()
    );
}

#[test]
fn test_new() {
    let tested = TestDataBuilder::new();
    let expected = TestDataBuilder {
        users: None,
        articles: None,
        comments: None,
        tags: None,
        article_tags: None,
        followers: None,
        favorited_articles: None,
        error: None,
    };
    assert_eq!(tested, expected);
}

#[test]
fn test_apply_error() {
    let tested = TestDataBuilder::new().apply_error(BldrErr::EmptyRel);
    assert_eq!(tested.error, Some(BldrErr::EmptyRel));
}

#[test]
fn test_apply_error_two_times() {
    let expected = BldrErr::EmptyRel;
    let tested = TestDataBuilder::new().apply_error(BldrErr::EmptyRel);
    let tested = tested.apply_error(BldrErr::ZeroQty);
    assert_eq!(tested.error, Some(expected));
}

// TEST USERS
#[test]
fn test_users() {
    let tested = TestDataBuilder::new().users(Insert(2));
    if let Some(Insert(models)) = tested.users {
        assert_eq!(models.len(), 2);
    } else {
        panic!("{:?}", "users not set in builder");
    }
}

#[test]
fn test_users_zero_qty() {
    let expected = TestDataBuilder {
        error: Some(BldrErr::ZeroQty),
        ..Default::default()
    };
    assert_eq!(TestDataBuilder::new().users(Insert(0)), expected);
}

// TEST ARTICLES
#[test]
fn test_articles() {
    let tested = TestDataBuilder::new()
        .users(Insert(2))
        .articles(Insert(vec![1, 2, 2]));
    if let Some(Insert(models)) = tested.articles {
        assert_eq!(models.len(), 3);
    } else {
        panic!("{:?}", "articles not set in builder");
    }
}

#[test]
fn test_articles_users_not_set() {
    let expected = Some(BldrErr::WrongOrder(
        "users".to_owned(),
        "articles".to_owned(),
    ));
    let tested = TestDataBuilder::new().articles(Insert(vec![1, 2, 2]));
    assert_eq!(tested.error, expected);
}

#[test]
fn test_articles_empty_input() {
    let expected = Some(BldrErr::EmptyRel);
    let tested = TestDataBuilder::new().articles(Insert(vec![]));
    assert_eq!(tested.error, expected);
}

#[test]
fn test_articles_not_in_range() {
    let expected = Some(BldrErr::OutOfRange("user".to_owned(), 2));
    let tested1 = TestDataBuilder::new()
        .users(Insert(2))
        .articles(Insert(vec![0]));
    assert_eq!(tested1.error, expected);
    let tested2 = TestDataBuilder::new()
        .users(Insert(2))
        .articles(Insert(vec![3]));
    assert_eq!(tested2.error, expected);
}

// TEST COMMENTS
#[test]
fn test_comments() {
    let tested = TestDataBuilder::new()
        .users(Insert(2))
        .articles(Insert(vec![1, 2, 2]))
        .comments(Insert(vec![(1, 1), (2, 3), (2, 2)]));
    if let Some(Insert(models)) = tested.comments {
        assert_eq!(models.len(), 3);
    } else {
        panic!("{:?}", "comments not set in builder");
    }
}

#[test]
fn test_comments_articles_not_set() {
    let expected = Some(BldrErr::WrongOrder(
        "articles".to_owned(),
        "comments".to_owned(),
    ));
    let tested = TestDataBuilder::new()
        .users(Insert(2))
        .comments(Insert(vec![(1, 2), (1, 2)]));
    assert_eq!(tested.error, expected);
}

#[test]
fn test_comments_empty_input() {
    let expected = Some(BldrErr::EmptyRel);
    let tested = TestDataBuilder::new().comments(Insert(vec![]));
    assert_eq!(tested.error, expected);
}

#[test]
fn test_author_not_in_range() {
    let expected = Some(BldrErr::OutOfRange("author".to_owned(), 2));
    let tested1 = TestDataBuilder::new()
        .users(Insert(2))
        .articles(Insert(vec![1, 2]))
        .comments(Insert(vec![(0, 2)]));
    assert_eq!(tested1.error, expected);

    let tested2 = TestDataBuilder::new()
        .users(Insert(2))
        .articles(Insert(vec![1, 2]))
        .comments(Insert(vec![(3, 2)]));
    assert_eq!(tested2.error, expected);
}

#[test]
fn test_article_not_in_range() {
    let expected = Some(BldrErr::OutOfRange("article".to_owned(), 2));
    let tested1 = TestDataBuilder::new()
        .users(Insert(2))
        .articles(Insert(vec![1, 2]))
        .comments(Insert(vec![(1, 0)]));
    assert_eq!(tested1.error, expected);

    let tested2 = TestDataBuilder::new()
        .users(Insert(2))
        .articles(Insert(vec![1, 2]))
        .comments(Insert(vec![(1, 3)]));
    assert_eq!(tested2.error, expected);
}

// TEST TAGS
#[test]
fn test_tags() {
    let tested = TestDataBuilder::new().tags(Insert(2));
    if let Some(Insert(models)) = tested.tags {
        assert_eq!(models.len(), 2);
    } else {
        panic!("{:?}", "tags not set in builder");
    }
}

#[test]
fn test_tags_zero_qty() {
    let expected = TestDataBuilder {
        error: Some(BldrErr::ZeroQty),
        ..Default::default()
    };
    assert_eq!(TestDataBuilder::new().tags(Insert(0)), expected);
}

// TEST ARTICLE_TAGS
#[test]
fn test_article_tags() {
    let tested = TestDataBuilder::new()
        .users(Insert(2))
        .articles(Insert(vec![1, 2, 2]))
        .tags(Insert(2))
        .article_tags(Insert(vec![(1, 1), (2, 2), (3, 2)]));
    if let Some(Insert(models)) = tested.article_tags {
        assert_eq!(models.len(), 3);
    } else {
        panic!("{:?}", "article_tags not set in builder");
    }
}

#[test]
fn test_article_tags_articles_not_set() {
    let expected = Some(BldrErr::WrongOrder(
        "articles".to_owned(),
        "article_tags".to_owned(),
    ));
    let tested = TestDataBuilder::new()
        .tags(Insert(2))
        .article_tags(Insert(vec![(1, 2), (1, 2)]));
    assert_eq!(tested.error, expected);
}

#[test]
fn test_article_tags_tags_not_set() {
    let expected = Some(BldrErr::WrongOrder(
        "tags".to_owned(),
        "article_tags".to_owned(),
    ));
    let tested = TestDataBuilder::new()
        .users(Insert(3))
        .articles(Insert(vec![1, 2, 2]))
        .article_tags(Insert(vec![(1, 2), (1, 2)]));
    assert_eq!(tested.error, expected);
}

#[test]
fn test_article_tags_empty_input() {
    let expected = Some(BldrErr::EmptyRel);
    let tested = TestDataBuilder::new().comments(Insert(vec![]));
    assert_eq!(tested.error, expected);
}

#[test]
fn test_article_tags_article_not_in_range() {
    let expected = Some(BldrErr::OutOfRange("article".to_owned(), 2));
    let tested1 = TestDataBuilder::new()
        .users(Insert(2))
        .tags(Insert(2))
        .articles(Insert(vec![1, 2]))
        .article_tags(Insert(vec![(0, 1)]));
    assert_eq!(tested1.error, expected);

    let tested2 = TestDataBuilder::new()
        .users(Insert(2))
        .tags(Insert(2))
        .articles(Insert(vec![1, 2]))
        .article_tags(Insert(vec![(3, 1)]));
    assert_eq!(tested2.error, expected);
}

#[test]
fn test_article_tags_tag_not_in_range() {
    let expected = Some(BldrErr::OutOfRange("tag".to_owned(), 2));
    let tested1 = TestDataBuilder::new()
        .users(Insert(2))
        .tags(Insert(2))
        .articles(Insert(vec![1, 2]))
        .article_tags(Insert(vec![(1, 0)]));
    assert_eq!(tested1.error, expected);

    let tested2 = TestDataBuilder::new()
        .users(Insert(2))
        .tags(Insert(2))
        .articles(Insert(vec![1, 2]))
        .article_tags(Insert(vec![(2, 3)]));
    assert_eq!(tested2.error, expected);
}

// TEST FOLLOWER
#[test]
fn test_followers() {
    let tested = TestDataBuilder::new()
        .users(Insert(2))
        .followers(Insert(vec![(1, 2), (2, 1)]));
    if let Some(Insert(models)) = tested.followers {
        assert_eq!(models.len(), 2);
    } else {
        panic!("{:?}", "followers not set in builder");
    }
}

#[test]
fn test_followers_users_not_set() {
    let expected = Some(BldrErr::WrongOrder(
        "users".to_owned(),
        "followers".to_owned(),
    ));
    let tested = TestDataBuilder::new().followers(Insert(vec![(1, 2), (2, 1)]));
    assert_eq!(tested.error, expected);
}

#[test]
fn test_followers_empty_input() {
    let expected = Some(BldrErr::EmptyRel);
    let tested = TestDataBuilder::new().followers(Insert(vec![]));
    assert_eq!(tested.error, expected);
}

#[test]
fn test_follower_user_not_in_range() {
    let expected = Some(BldrErr::OutOfRange("user".to_owned(), 2));
    let tested1 = TestDataBuilder::new()
        .users(Insert(2))
        .followers(Insert(vec![(0, 2)]));
    assert_eq!(tested1.error, expected);

    let tested2 = TestDataBuilder::new()
        .users(Insert(2))
        .followers(Insert(vec![(3, 2)]));
    assert_eq!(tested2.error, expected);
}

#[test]
fn test_follower_follower_not_in_range() {
    let expected = Some(BldrErr::OutOfRange("follower".to_owned(), 2));
    let tested1 = TestDataBuilder::new()
        .users(Insert(2))
        .followers(Insert(vec![(1, 0)]));
    assert_eq!(tested1.error, expected);

    let tested2 = TestDataBuilder::new()
        .users(Insert(2))
        .followers(Insert(vec![(1, 3)]));
    assert_eq!(tested2.error, expected);
}

// TEST FAVORITED_ARTICLES
#[test]
fn test_favorited_articles() {
    let tested = TestDataBuilder::new()
        .users(Insert(2))
        .articles(Insert(vec![1, 2, 2]))
        .favorited_articles(Insert(vec![(1, 1), (2, 2), (3, 2)]));
    if let Some(Insert(models)) = tested.favorited_articles {
        assert_eq!(models.len(), 3);
    } else {
        panic!("{:?}", "favorited_articles not set in builder");
    }
}

#[test]
fn test_favorited_articles_articles_not_set() {
    let expected = Some(BldrErr::WrongOrder(
        "articles".to_owned(),
        "favorited_articles".to_owned(),
    ));
    let tested =
        TestDataBuilder::new().favorited_articles(Insert(vec![(1, 1), (2, 2), (3, 2)]));
    assert_eq!(tested.error, expected);
}

#[test]
fn test_favorited_articles_empty_input() {
    let expected = Some(BldrErr::EmptyRel);
    let tested = TestDataBuilder::new().favorited_articles(Insert(vec![]));
    assert_eq!(tested.error, expected);
}

#[test]
fn test_favorited_articles_article_not_in_range() {
    let expected = Some(BldrErr::OutOfRange("article".to_owned(), 2));
    let tested1 = TestDataBuilder::new()
        .users(Insert(2))
        .articles(Insert(vec![1, 2]))
        .favorited_articles(Insert(vec![(0, 1)]));
    assert_eq!(tested1.error, expected);

    let tested2 = TestDataBuilder::new()
        .users(Insert(2))
        .tags(Insert(2))
        .articles(Insert(vec![1, 2]))
        .favorited_articles(Insert(vec![(3, 1)]));
    assert_eq!(tested2.error, expected);
}

#[test]
fn test_favorited_articles_users_not_in_range() {
    let expected = Some(BldrErr::OutOfRange("user".to_owned(), 2));
    let tested1 = TestDataBuilder::new()
        .users(Insert(2))
        .articles(Insert(vec![1, 2]))
        .favorited_articles(Insert(vec![(2, 0)]));
    assert_eq!(tested1.error, expected);

    let tested2 = TestDataBuilder::new()
        .users(Insert(2))
        .articles(Insert(vec![1, 2]))
        .favorited_articles(Insert(vec![(2, 3)]));
    assert_eq!(tested2.error, expected);
}
