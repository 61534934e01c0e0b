use conduit::entity::{article_tag, favorited_article, follower};
use conduit::testing::setup::migrations;
use conduit::testing::Operation::{Create, Insert, Migration};
use conduit::testing::{BldrErr, Table, TableSetup, TestData, TestDataBuilder};

#[test]
fn test_build() {
    let (steps, data) = TestDataBuilder::new().users(Insert(2)).build().unwrap();
    assert_eq!(data.users.unwrap().len(), 2);
    assert_eq!(
        steps,
        vec![TableSetup {
            table: Table::User,
            migrations: vec![
                "m20231030_000001_create_user_table",
                "m20231112_000008_add_user_password",
            ],
            insert: true,
        }]
    );
}

#[test]
fn test_build_no_inserts() {
    let (steps, data) = TestDataBuilder::new().build().unwrap();
    assert_eq!(data, TestData::default());
    assert_eq!(steps, vec![]);
}

#[test]
fn build_returns_the_first_refusal() {
    let res = TestDataBuilder::new()
        .users(Insert(0))
        .articles(Insert(vec![]))
        .tags(Insert(1))
        .build();
    assert_eq!(res, Err(BldrErr::ZeroQty));
}

#[test]
fn build_walks_the_tables_in_order() {
    let (steps, data) = TestDataBuilder::new()
        .tags(Create(2))
        .users(Insert(2))
        .articles(Insert(vec![1, 2]))
        .favorited_articles(Insert(vec![(1, 2)]))
        .followers(Create(vec![(1, 2)]))
        .article_tags(Create(vec![(2, 1)]))
        .comments(Migration)
        .build()
        .unwrap();
    let tables: Vec<(Table, bool)> = steps.iter().map(|s| (s.table, s.insert)).collect();
    assert_eq!(
        tables,
        vec![
            (Table::User, true),
            (Table::Article, true),
            (Table::Comment, false),
            (Table::Tag, false),
            (Table::ArticleTag, false),
            (Table::Follower, false),
            (Table::FavoritedArticle, true),
        ]
    );
    for step in &steps {
        assert_eq!(step.migrations, migrations(step.table));
    }
    assert_eq!(data.comments, None);
    assert_eq!(data.tags.as_ref().unwrap().len(), 2);
    let users = data.users.unwrap();
    let articles = data.articles.unwrap();
    let tags = data.tags.unwrap();
    assert_eq!(
        data.favorited_articles,
        Some(vec![favorited_article::Model { article_id: articles[0].id, user_id: users[1].id }])
    );
    assert_eq!(
        data.followers,
        Some(vec![follower::Model { user_id: users[0].id, follower_id: users[1].id }])
    );
    assert_eq!(
        data.article_tags,
        Some(vec![article_tag::Model { article_id: articles[1].id, tag_id: tags[0].id }])
    );
}

#[test]
fn each_table_has_its_migrations() {
    assert_eq!(migrations(Table::Article), vec!["m20231030_000002_create_article_table"]);
    assert_eq!(migrations(Table::Comment), vec!["m20231030_000003_create_comment_table"]);
    assert_eq!(migrations(Table::Tag), vec!["m20231030_000004_create_tag_table"]);
    assert_eq!(migrations(Table::ArticleTag), vec!["m20231030_000005_create_article_tag_table"]);
    assert_eq!(migrations(Table::Follower), vec!["m20231101_000006_create_follower_table"]);
    assert_eq!(
        migrations(Table::FavoritedArticle),
        vec!["m20231104_000007_create_favorited_article_table"]
    );
}

#[test]
fn generated_users_are_numbered_from_one() {
    let builder = TestDataBuilder::new().users(Create(11));
    let Some(Create(users)) = builder.users else {
        panic!("users not set in builder");
    };
    assert_eq!(users[0].email, "email1");
    assert_eq!(users[0].username, "username1");
    assert_eq!(users[0].bio, Some("bio".to_owned()));
    assert_eq!(users[0].image, Some("image".to_owned()));
    assert_eq!(users[0].password, "password");
    assert_eq!(users[9].email, "email10");
    assert_eq!(users[10].username, "username11");
    for (i, a) in users.iter().enumerate() {
        assert_eq!(uuid::Uuid::from_u128(a.id).get_version_num(), 4);
        for b in &users[i + 1..] {
            assert_ne!(a.id, b.id);
        }
    }
}

#[test]
fn generated_tags_are_numbered_from_one() {
    let builder = TestDataBuilder::new().tags(Insert(3));
    let Some(Insert(tags)) = builder.tags else {
        panic!("tags not set in builder");
    };
    let names: Vec<&str> = tags.iter().map(|t| t.tag_name.as_str()).collect();
    assert_eq!(names, vec!["tag_name1", "tag_name2", "tag_name3"]);
}

#[test]
fn generated_articles_belong_to_their_authors() {
    let before = chrono::Local::now().naive_local().and_utc().timestamp_millis();
    let builder = TestDataBuilder::new().users(Insert(2)).articles(Insert(vec![2, 1, 2]));
    let after = chrono::Local::now().naive_local().and_utc().timestamp_millis();
    let Some(Insert(users)) = builder.users else {
        panic!("users not set in builder");
    };
    let Some(Insert(articles)) = builder.articles else {
        panic!("articles not set in builder");
    };
    let authors: Vec<u128> = articles.iter().map(|a| a.author_id).collect();
    assert_eq!(authors, vec![users[1].id, users[0].id, users[1].id]);
    for (i, a) in articles.iter().enumerate() {
        let n = i as i64 + 1;
        assert_eq!(a.slug, format!("title{n}"));
        assert_eq!(a.title, format!("title{n}"));
        assert_eq!(a.description, "description");
        assert_eq!(a.body, "body");
        assert_eq!(a.created_at, a.updated_at);
        let at = a.created_at.unwrap();
        assert!(before + 1000 * n <= at && at <= after + 1000 * n);
    }
}

#[test]
fn generated_comments_belong_to_author_and_article() {
    let builder = TestDataBuilder::new()
        .users(Insert(2))
        .articles(Insert(vec![1, 2, 2]))
        .comments(Insert(vec![(1, 1), (2, 3), (2, 2)]));
    let Some(Insert(users)) = builder.users else {
        panic!("users not set in builder");
    };
    let Some(Insert(articles)) = builder.articles else {
        panic!("articles not set in builder");
    };
    let Some(Insert(comments)) = builder.comments else {
        panic!("comments not set in builder");
    };
    let got: Vec<(&str, u128, u128)> =
        comments.iter().map(|c| (c.body.as_str(), c.author_id, c.article_id)).collect();
    assert_eq!(
        got,
        vec![
            ("comment1", users[0].id, articles[0].id),
            ("comment2", users[1].id, articles[2].id),
            ("comment3", users[1].id, articles[1].id),
        ]
    );
}

#[test]
fn stored_rows_cannot_refer_to_rows_that_are_only_generated() {
    let tested = TestDataBuilder::new().users(Create(2)).articles(Insert(vec![1]));
    assert_eq!(
        tested.error,
        Some(BldrErr::WrongOrder("users".to_owned(), "articles".to_owned()))
    );
    assert_eq!(tested.articles, None);
}

#[test]
fn generated_rows_can_refer_to_stored_or_generated_rows() {
    let a = TestDataBuilder::new().users(Create(2)).articles(Create(vec![1]));
    assert_eq!(a.error, None);
    assert!(matches!(a.articles, Some(Create(_))));
    let b = TestDataBuilder::new().users(Insert(2)).articles(Create(vec![1]));
    assert_eq!(b.error, None);
    assert!(matches!(b.articles, Some(Create(_))));
}

#[test]
fn rows_cannot_refer_to_a_table_without_rows() {
    let tested = TestDataBuilder::new().users(Migration).articles(Insert(vec![1]));
    assert_eq!(
        tested.error,
        Some(BldrErr::WrongOrder("users".to_owned(), "articles".to_owned()))
    );
}

#[test]
fn a_table_alone_needs_only_that_its_tables_were_asked_for() {
    let ok = TestDataBuilder::new().users(Migration).articles(Migration).comments(Migration);
    assert_eq!(ok.error, None);
    assert_eq!(ok.comments, Some(Migration));
    let refused = TestDataBuilder::new().users(Migration).comments(Migration);
    assert_eq!(
        refused.error,
        Some(BldrErr::WrongOrder("articles".to_owned(), "comments".to_owned()))
    );
}

#[test]
fn an_empty_list_is_refused_before_the_order_is_looked_at() {
    let tested = TestDataBuilder::new().article_tags(Create(vec![]));
    assert_eq!(tested.error, Some(BldrErr::EmptyRel));
}

#[test]
fn the_first_number_is_checked_before_the_second() {
    let tested = TestDataBuilder::new()
        .users(Insert(1))
        .articles(Insert(vec![1]))
        .comments(Insert(vec![(1, 9), (9, 1)]));
    assert_eq!(tested.error, Some(BldrErr::OutOfRange("author".to_owned(), 1)));
}

#[test]
fn a_refused_request_leaves_the_tables_alone() {
    let tested = TestDataBuilder::new().users(Insert(2)).followers(Insert(vec![(1, 3)]));
    assert_eq!(tested.followers, None);
    assert!(matches!(tested.users, Some(Insert(ref rows)) if rows.len() == 2));
}

#[test]
fn a_later_request_is_honoured_after_a_refusal() {
    let tested = TestDataBuilder::new().users(Insert(0)).tags(Insert(2));
    assert_eq!(tested.error, Some(BldrErr::ZeroQty));
    assert!(matches!(tested.tags, Some(Insert(ref rows)) if rows.len() == 2));
}
