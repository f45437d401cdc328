use rustpress::accounts::{
    SqlParam, deletion_outcome, hard_deletion_outcome, insert_outcome, lookup_outcome, recovery_outcome,
    update_outcome, update_precheck, UpdateResult, UserError,
};
use rustpress::models::{
    check_email_purged, ContentKind, ContentStatus, HomepageType, RoleName, Site, SiteUpdate, User,
    UserIden, UserQuery, UserUpdate, UserWithOldState,
};

fn user(id: u128, email: &str, deleted: Option<i64>) -> User {
    User {
        id,
        email: email.to_string(),
        password_hash: "h".to_string(),
        email_verified_at: None,
        created_at: 1,
        edited_at: 2,
        deleted_at: deleted,
    }
}

fn row(id: u128, email: &str, edited: i64, old_edited: i64, deleted: Option<i64>) -> UserWithOldState {
    UserWithOldState {
        id,
        email: email.to_string(),
        password_hash: "h".to_string(),
        email_verified_at: None,
        created_at: 1,
        edited_at: edited,
        deleted_at: deleted,
        old_edited_at: old_edited,
    }
}

#[test]
fn content_kind_names_and_parsing() {
    assert_eq!(ContentKind::Page.as_str(), "page");
    assert_eq!(ContentKind::Post.as_str(), "post");
    assert_eq!(ContentKind::parse("PAGE"), Ok(ContentKind::Page));
    assert_eq!(ContentKind::parse("Post"), Ok(ContentKind::Post));
    assert_eq!(ContentKind::parse("article"), Err("invalid content kind: article".to_string()));
    assert_eq!("post".parse::<ContentKind>(), Ok(ContentKind::Post));
    assert_eq!(ContentKind::default(), ContentKind::Post);
    assert!(ContentKind::Page.eq_str("page"));
    assert!(!ContentKind::Page.eq_str("Page"));
}

#[test]
fn content_status_names_and_parsing() {
    assert_eq!(ContentStatus::Draft.as_str(), "draft");
    assert_eq!(ContentStatus::Published.as_str(), "published");
    assert_eq!(ContentStatus::parse("DRAFT"), Ok(ContentStatus::Draft));
    assert_eq!(ContentStatus::parse("live"), Err("invalid content status: live".to_string()));
    assert_eq!(ContentStatus::default(), ContentStatus::Draft);
}

#[test]
fn homepage_type_rules() {
    assert_eq!(HomepageType::Posts.as_str(), "posts");
    assert_eq!(HomepageType::parse("Page"), Ok(HomepageType::Page));
    assert_eq!(HomepageType::parse("x"), Err("invalid homepage type: x".to_string()));
    assert_eq!(HomepageType::validate(HomepageType::Posts, None), Ok(()));
    assert_eq!(HomepageType::validate(HomepageType::Page, Some(7)), Ok(()));
    assert_eq!(
        HomepageType::validate(HomepageType::Posts, Some(7)),
        Err("homepage_page_id must be NULL when homepage_type=posts".to_string())
    );
    assert_eq!(
        HomepageType::validate(HomepageType::Page, None),
        Err("homepage_page_id is required when homepage_type=page".to_string())
    );
    let update = SiteUpdate {
        name: None,
        slug: None,
        status: None,
        default_template: None,
        homepage_type: Some(HomepageType::Page),
        homepage_page_id: Some(None),
    };
    assert_eq!(update.validate_homepage(), Err("homepage_page_id is required when homepage_type=page".to_string()));
    let no_type = SiteUpdate { homepage_type: None, homepage_page_id: Some(Some(1)), ..update };
    assert!(no_type.validate_homepage().is_ok());
    let site = Site {
        id: 1,
        owner_user_id: 2,
        name: "s".to_string(),
        slug: "s".to_string(),
        status: "draft".to_string(),
        default_template: "default".to_string(),
        homepage_type: HomepageType::Page,
        homepage_page_id: Some(3),
        created_at: 0,
        edited_at: 0,
        published_at: None,
    };
    assert!(site.validate_homepage().is_ok());
}

#[test]
fn role_names() {
    assert_eq!(RoleName::Admin.as_str(), "admin");
    assert_eq!(RoleName::parse("editor"), Ok(RoleName::Editor));
    assert_eq!(RoleName::parse("Viewer"), Err("invalid role: Viewer".to_string()));
}

#[test]
fn purged_addresses() {
    assert!(check_email_purged("anon-123@deleted.local"));
    assert!(!check_email_purged("anon-@deleted.local"));
    assert!(!check_email_purged("user@deleted.local"));
    assert!(user(1, "anon-x@deleted.local", Some(3)).has_email_purged());
    assert!(!row(1, "a@b.c", 2, 2, None).has_email_purged());
}

#[test]
fn user_query_and_update_shapes() {
    assert_eq!(
        UserQuery::fields(),
        ["id", "email", "created_at", "edited_at", "deleted_at", "offset", "limit", "sort_by"]
    );
    let q = UserQuery::default();
    assert!(q.is_empty());
    assert!(matches!(q.plan(), Err(UserError::InvalidRequest(m)) if m == "No fields provided"));
    let q = UserQuery { email: Some("a@b.c".to_string()), ..UserQuery::default() };
    assert!(!q.is_empty());
    assert_eq!(q.plan().ok(), Some(vec![]));
    let q = UserQuery {
        email: Some("a@b.c".to_string()),
        sort_by: Some(vec![None, Some(true), None, Some(false)]),
        ..UserQuery::default()
    };
    assert_eq!(q.plan().ok(), Some(vec![("email", true), ("edited_at", false)]));
    let q = UserQuery { id: Some(1), limit: Some(-1), ..UserQuery::default() };
    assert!(matches!(q.plan(), Err(UserError::InvalidRequest(m)) if m == "Pagination 'limit' is negative integer"));
    let q = UserQuery { id: Some(1), offset: Some(-1), ..UserQuery::default() };
    assert!(matches!(q.plan(), Err(UserError::InvalidRequest(m)) if m == "Pagination 'offset' is negative integer"));
    let q = UserQuery { id: Some(1), sort_by: Some(vec![None; 6]), ..UserQuery::default() };
    assert!(matches!(q.plan(), Err(UserError::InvalidRequest(m)) if m == "Sort parameters exceed maximum limit of 5."));
    let u = UserUpdate { id: 1, email: None, password_hash: None };
    assert!(u.is_empty());
    assert!(matches!(update_precheck(&u), Err(UserError::InvalidRequest(m)) if m == "No fields provided"));
    let u = UserUpdate { id: 1, email: Some("n@x.y".to_string()), password_hash: None };
    assert!(update_precheck(&u).is_ok());
}

#[test]
fn store_outcomes() {
    assert!(matches!(lookup_outcome(None, UserIden::Id(1), false), Err(UserError::NotFound(UserIden::Id(1)))));
    assert!(matches!(lookup_outcome(Some(user(1, "a@b.c", None)), UserIden::Id(1), false), Ok(u) if u.id == 1));
    assert!(matches!(
        lookup_outcome(Some(user(1, "a@b.c", Some(5))), UserIden::Id(1), false),
        Err(UserError::AlreadyDeleted(UserIden::Id(1)))
    ));
    assert!(matches!(lookup_outcome(Some(user(1, "a@b.c", Some(5))), UserIden::Id(1), true), Ok(_)));
    assert!(matches!(
        insert_outcome(None, "a@b.c"),
        Err(UserError::AlreadyExists(UserIden::Email(e))) if e == "a@b.c"
    ));
    assert!(matches!(insert_outcome(Some(user(2, "a@b.c", None)), "a@b.c"), Ok(u) if u.id == 2));
    assert!(matches!(deletion_outcome(Some(row(1, "a@b.c", 9, 2, Some(9))), UserIden::Id(1)), Ok(u) if u.edited_at == 9));
    assert!(matches!(
        deletion_outcome(Some(row(1, "a@b.c", 2, 2, Some(1))), UserIden::Id(1)),
        Err(UserError::AlreadyDeleted(UserIden::Id(1)))
    ));
    assert!(matches!(deletion_outcome(None, UserIden::Id(4)), Err(UserError::NotFound(UserIden::Id(4)))));
    assert!(matches!(recovery_outcome(Some(row(1, "a@b.c", 9, 2, None)), UserIden::Id(1)), Ok(_)));
    assert!(matches!(
        recovery_outcome(Some(row(1, "anon-1@deleted.local", 2, 2, Some(1))), UserIden::Id(1)),
        Err(UserError::IrreversiblyDeleted(UserIden::Id(1)))
    ));
    assert!(matches!(
        recovery_outcome(Some(row(1, "a@b.c", 2, 2, None)), UserIden::Id(1)),
        Err(UserError::AlreadyExists(UserIden::Id(1)))
    ));
    assert!(matches!(hard_deletion_outcome(None, UserIden::Id(3)), Err(UserError::NotFound(UserIden::Id(3)))));
    assert!(matches!(hard_deletion_outcome(Some(user(3, "a@b.c", None)), UserIden::Id(3)), Ok(u) if u.id == 3));
}

#[test]
fn update_outcomes() {
    let u = UserUpdate { id: 7, email: Some("n@x.y".to_string()), password_hash: None };
    assert!(matches!(update_outcome(&u, UpdateResult::Row(user(7, "n@x.y", None))), Ok(v) if v.email == "n@x.y"));
    assert!(matches!(
        update_outcome(&u, UpdateResult::Row(user(7, "n@x.y", Some(1)))),
        Err(UserError::AlreadyDeleted(UserIden::Id(7)))
    ));
    assert!(matches!(update_outcome(&u, UpdateResult::NoRow), Err(UserError::NotFound(UserIden::Id(7)))));
    assert!(matches!(
        update_outcome(&u, UpdateResult::UniqueViolation),
        Err(UserError::AlreadyExists(UserIden::Email(e))) if e == "n@x.y"
    ));
    let p = UserUpdate { id: 7, email: None, password_hash: Some("h".to_string()) };
    assert!(matches!(update_outcome(&p, UpdateResult::UniqueViolation), Err(UserError::Internal)));
    assert!(matches!(
        update_outcome(&p, UpdateResult::Failed("boom".to_string())),
        Err(UserError::Database(m)) if m == "boom"
    ));
}

#[test]
fn user_identifiers_in_messages() {
    assert_eq!(UserIden::Id(1).describe(), "ID 00000000-0000-0000-0000-000000000001");
    assert_eq!(UserIden::Email("a@b.c".to_string()).describe(), "email 'a@b.c'");
    assert!(matches!(UserIden::from(5u128), UserIden::Id(5)));
    assert!(matches!(UserIden::from("x@y.z".to_string()), UserIden::Email(e) if e == "x@y.z"));
}

#[test]
fn user_query_text_and_values() {
    let q = UserQuery {
        email: Some("a@b.c".to_string()),
        created_at: Some(100),
        limit: Some(10),
        sort_by: Some(vec![None, Some(true), None, Some(false)]),
        ..UserQuery::default()
    };
    let sql = q.into_sql(false).ok().expect("a valid query");
    assert_eq!(
        sql.text,
        "SELECT * FROM users WHERE deleted_at IS NULL AND email = $1 AND created_at >= $2 ORDER BY email  ASC, edited_at  DESC LIMIT $3"
    );
    assert_eq!(sql.params.len(), 3);
    assert!(matches!(&sql.params[0], SqlParam::Email(e) if e == "a@b.c"));
    assert!(matches!(sql.params[1], SqlParam::Time(100)));
    assert!(matches!(sql.params[2], SqlParam::Count(10)));
}

#[test]
fn user_query_with_deletion_time_and_pagination() {
    let q = UserQuery { id: Some(7), deleted_at: Some(5), offset: Some(20), ..UserQuery::default() };
    let sql = q.into_sql(false).ok().expect("a valid query");
    assert_eq!(
        sql.text,
        "SELECT * FROM users WHERE deleted_at = $1 AND id = $2 ORDER BY created_at DESC  OFFSET $3"
    );
    assert!(matches!(sql.params[0], SqlParam::Time(5)));
    assert!(matches!(sql.params[1], SqlParam::Id(7)));
    assert!(matches!(sql.params[2], SqlParam::Count(20)));
    let q = UserQuery { id: Some(7), ..UserQuery::default() };
    assert_eq!(q.into_sql(true).ok().expect("valid").text, "SELECT * FROM users WHERE id = $1 ORDER BY created_at DESC ");
    let q = UserQuery { id: Some(7), limit: Some(-2), ..UserQuery::default() };
    assert!(matches!(q.into_sql(false), Err(UserError::InvalidRequest(m)) if m == "Pagination 'limit' is negative integer"));
}

#[test]
fn purged_addresses_are_recognised() {
    let email = rustpress::models::purged_email(7);
    assert_eq!(email, "anon-00000000-0000-0000-0000-000000000007@deleted.local");
    assert!(check_email_purged(&email));
}
