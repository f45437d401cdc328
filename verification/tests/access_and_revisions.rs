use rustpress::access::{
    access_by_ownership, can_edit_content, can_manage_collaborators, can_manage_site,
    can_modify_template, can_view_content, can_view_template, guard_after_lookup, guard_before_lookup,
    is_reserved_page_path, login_required, path_admin_only, path_needs_login, role_for_new_user,
    self_deletion_blocked, user_deletion_refusal, visible_to, GuardAction, GuardStep, TemplateDenial,
};
use rustpress::models::{ContentItem, ContentKind, ContentStatus, HomepageType, RoleName, Site, SiteTemplate};
use rustpress::revisions::{
    next_revision, record_finish, record_start, redo_target, revisions_limit, start_initial, undo_target,
    RecordPlan, RecordStart, RevisionError,
};

fn item(id: u128, owner: Option<u128>) -> ContentItem {
    ContentItem {
        id,
        owner_user_id: owner,
        kind: ContentKind::Post,
        status: ContentStatus::Draft,
        title: format!("t{id}"),
        slug: format!("s{id}"),
        content: String::new(),
        template: "default".to_string(),
        current_rev: 1,
        created_at: 0,
        edited_at: 0,
        published_at: None,
    }
}

fn template(builtin: bool, owner: Option<u128>) -> SiteTemplate {
    SiteTemplate {
        id: 1,
        owner_user_id: owner,
        name: "n".to_string(),
        description: "d".to_string(),
        html: "<p></p>".to_string(),
        is_builtin: builtin,
        created_at: 0,
        edited_at: 0,
    }
}

#[test]
fn content_permissions() {
    let owned = item(1, Some(10));
    let legacy = item(2, None);
    assert!(access_by_ownership(None, 5));
    assert!(can_view_content(&owned, 10, false));
    assert!(!can_view_content(&owned, 11, false));
    assert!(can_view_content(&owned, 11, true));
    assert!(can_view_content(&legacy, 11, false));
    assert!(can_edit_content(&owned, 11, Some(RoleName::Editor)));
    assert!(!can_edit_content(&owned, 11, Some(RoleName::Viewer)));
    assert!(!can_edit_content(&owned, 11, Some(RoleName::Admin)));
    assert!(can_edit_content(&legacy, 11, None));
    assert!(can_manage_collaborators(&owned, 10));
    assert!(!can_manage_collaborators(&owned, 11));
    assert!(!can_manage_collaborators(&legacy, 10));
}

#[test]
fn managers_edit_and_editors_view() {
    let owned = item(1, Some(10));
    for uid in [10u128, 11] {
        for role in [None, Some(RoleName::Admin), Some(RoleName::Editor), Some(RoleName::Viewer)] {
            if can_manage_collaborators(&owned, uid) {
                assert!(can_edit_content(&owned, uid, role));
            }
            if can_edit_content(&owned, uid, role) {
                assert!(can_view_content(&owned, uid, role.is_some()));
            }
        }
    }
}

#[test]
fn dashboard_lists_own_and_legacy_items_in_order() {
    let items = vec![item(1, Some(10)), item(2, Some(11)), item(3, None), item(4, Some(10))];
    let ids: Vec<u128> = visible_to(items, 10).iter().map(|c| c.id).collect();
    assert_eq!(ids, vec![1, 3, 4]);
}

#[test]
fn template_permissions() {
    assert!(can_view_template(&template(true, None), 5));
    assert!(can_view_template(&template(false, Some(5)), 5));
    assert!(!can_view_template(&template(false, Some(6)), 5));
    assert_eq!(can_modify_template(&template(true, None), 5), Err(TemplateDenial::BuiltIn));
    assert_eq!(can_modify_template(&template(false, Some(6)), 5), Err(TemplateDenial::NotOwner));
    assert_eq!(can_modify_template(&template(false, None), 5), Err(TemplateDenial::NotOwner));
    assert_eq!(can_modify_template(&template(false, Some(5)), 5), Ok(()));
    assert_eq!(TemplateDenial::BuiltIn.message(false), "Built-in templates are read-only");
    assert_eq!(TemplateDenial::BuiltIn.message(true), "Built-in templates cannot be deleted");
    assert_eq!(TemplateDenial::NotOwner.message(true), "Forbidden");
}

#[test]
fn site_ownership() {
    let site = Site {
        id: 1,
        owner_user_id: 7,
        name: "s".to_string(),
        slug: "s".to_string(),
        status: "draft".to_string(),
        default_template: "default".to_string(),
        homepage_type: HomepageType::Posts,
        homepage_page_id: None,
        created_at: 0,
        edited_at: 0,
        published_at: None,
    };
    assert!(can_manage_site(&site, 7));
    assert!(!can_manage_site(&site, 8));
}

#[test]
fn account_rules() {
    assert_eq!(role_for_new_user(1), RoleName::Admin);
    assert_eq!(role_for_new_user(0), RoleName::Admin);
    assert_eq!(role_for_new_user(2), RoleName::Editor);
    assert!(self_deletion_blocked(true, 1));
    assert!(!self_deletion_blocked(true, 2));
    assert!(!self_deletion_blocked(false, 1));
    assert_eq!(user_deletion_refusal(3, 3), Some("You cannot delete your own account"));
    assert_eq!(user_deletion_refusal(3, 4), None);
}

#[test]
fn admin_area_guard() {
    assert!(path_needs_login("/admin"));
    assert!(path_needs_login("/admin/sites"));
    assert!(!path_needs_login("/admin/login"));
    assert!(!path_needs_login("/admin/register"));
    assert!(!path_needs_login("/blog"));
    assert!(path_admin_only("/admin/users/1/edit"));
    assert!(path_admin_only("/admin/configuration"));
    assert!(!path_admin_only("/admin/sites"));
    assert_eq!(login_required(true), GuardAction::HtmxToLogin);
    assert_eq!(login_required(false), GuardAction::RedirectToLogin);
    assert_eq!(guard_before_lookup("/", false, false), GuardStep::Done(GuardAction::Pass));
    assert_eq!(guard_before_lookup("/admin", false, true), GuardStep::Done(GuardAction::HtmxToLogin));
    assert_eq!(guard_before_lookup("/admin", false, false), GuardStep::Done(GuardAction::RedirectToLogin));
    assert_eq!(guard_before_lookup("/admin", true, false), GuardStep::LookUpRole);
    assert_eq!(guard_after_lookup("/admin/users", false), GuardAction::RedirectToAdmin);
    assert_eq!(guard_after_lookup("/admin/users", true), GuardAction::Pass);
    assert_eq!(guard_after_lookup("/admin/sites", false), GuardAction::Pass);
}

#[test]
fn reserved_page_paths() {
    assert!(is_reserved_page_path(""));
    assert!(is_reserved_page_path("admin"));
    assert!(is_reserved_page_path("admin/x"));
    assert!(is_reserved_page_path("blog"));
    assert!(is_reserved_page_path("blog/post"));
    assert!(!is_reserved_page_path("about"));
    assert!(!is_reserved_page_path("administration"));
}

#[test]
fn revision_steps() {
    assert_eq!(start_initial(0, false), (true, true, 1));
    assert_eq!(start_initial(3, true), (false, false, 3));
    assert_eq!(undo_target(3), 2);
    assert_eq!(undo_target(1), 1);
    assert_eq!(undo_target(0), 1);
    assert_eq!(redo_target(2, true), 3);
    assert_eq!(redo_target(2, false), 2);
    assert_eq!(next_revision(4), Some(5));
    assert_eq!(next_revision(i32::MAX), None);
    assert_eq!(record_start(0, false), RecordStart { insert_first: true, current: 1 });
    assert_eq!(record_start(4, true), RecordStart { insert_first: false, current: 4 });
    assert_eq!(record_finish(2, 5), Ok(RecordPlan { truncate_after: Some(2), next: 3 }));
    assert_eq!(record_finish(5, 5), Ok(RecordPlan { truncate_after: None, next: 6 }));
    assert_eq!(record_finish(i32::MAX, i32::MAX), Err(RevisionError::LimitReached));
}

#[test]
fn undo_then_redo_returns_to_the_same_revision() {
    // history of 5 revisions at revision 4: undo goes to 3, redo (4 exists) back to 4
    let back = undo_target(4);
    assert_eq!(redo_target(back, true), 4);
    // recording after an undo drops the undone revisions and continues from there
    let plan = record_finish(back, 5).unwrap();
    assert_eq!(plan, RecordPlan { truncate_after: Some(3), next: 4 });
    // the newest revision has nothing to redo
    assert_eq!(redo_target(4, false), 4);
}

#[test]
fn revision_list_limits() {
    assert_eq!(revisions_limit(None), 50);
    assert_eq!(revisions_limit(Some(0)), 1);
    assert_eq!(revisions_limit(Some(-9)), 1);
    assert_eq!(revisions_limit(Some(500)), 200);
    assert_eq!(revisions_limit(Some(20)), 20);
}
