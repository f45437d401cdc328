use rustpress::authentication::default_site;
use rustpress::catalog::{after_failed_duplicate, duplicate_template_data, filter_templates, template_create_data, template_update_data};
use rustpress::forms::{
    AdminCreateForm, AdminLiveForm, AdminNewPreviewForm, AdminTemplateCreateForm, AdminTemplateUpdateForm,
    AdminUpdateForm, ApplyThemeForm, ConfigurationForm, SiteCreateForm, SiteUpdateForm,
};
use rustpress::models::{ContentItem, ContentKind, ContentStatus, HomepageType, SiteTemplate, User};
use rustpress::pages::{
    preview_fields, preview_target, sample_data, AdminLoginTemplate, AdminRegisterTemplate, MeSecurityTemplate,
    SecurityHeaders,
};
use rustpress::rendering::{
    template_lookups, TemplateScope,
    api_content_create_data, autosave_update_data, content_create_data, content_update_data, live_preview_fields, new_preview_fields,
    render_item, render_with_template,
};
use rustpress::security::CsrfToken;
use rustpress::session::{
    api_session_cookie, cookie_session_user,
    eq_ignore_ascii_case, is_htmx_request, is_unique_violation_code, session_cookie, session_removal_cookie,
    session_user, SameSitePolicy,
};
use rustpress::site_settings::{
    configuration_update_data, entered_template, site_create_data, site_search_pattern, site_update_data,
    theme_update_data,
};
use rustpress::types::{
    content_to_public, login_response, register_response, template_to_detail, template_to_summary, UserPublic,
};

fn tpl(name: &str, description: &str, builtin: bool) -> SiteTemplate {
    SiteTemplate {
        id: 0x0123_4567_89ab_cdef_0123_4567_89ab_cdefu128,
        owner_user_id: if builtin { None } else { Some(5) },
        name: name.to_string(),
        description: description.to_string(),
        html: "<h1>{{title}}</h1>\\n{{content}}".to_string(),
        is_builtin: builtin,
        created_at: 10,
        edited_at: 20,
    }
}

fn item() -> ContentItem {
    ContentItem {
        id: 1,
        owner_user_id: Some(5),
        kind: ContentKind::Page,
        status: ContentStatus::Published,
        title: "About <us>".to_string(),
        slug: "about".to_string(),
        content: "<p>Hello</p>".to_string(),
        template: "blog".to_string(),
        current_rev: 3,
        created_at: 1,
        edited_at: 2,
        published_at: Some(3),
    }
}

fn names(ts: &[SiteTemplate]) -> Vec<String> {
    ts.iter().map(|t| t.name.clone()).collect()
}

#[test]
fn theme_catalog_search_and_categories() {
    let all = || vec![tpl("Blog", "Plain BLOG layout", true), tpl("Portfolio", "Show work", true), tpl("Mine", "my blog", false)];
    assert_eq!(names(&filter_templates(all(), "  ", "all")), vec!["Blog", "Portfolio", "Mine"]);
    assert_eq!(names(&filter_templates(all(), " blog ", "all")), vec!["Blog", "Mine"]);
    assert_eq!(names(&filter_templates(all(), "BLOG", "builtin")), vec!["Blog"]);
    assert_eq!(names(&filter_templates(all(), "", "custom")), vec!["Mine"]);
    assert_eq!(names(&filter_templates(all(), "", "builtin")), vec!["Blog", "Portfolio"]);
    assert!(filter_templates(all(), "zzz", "all").is_empty());
}

#[test]
fn template_data_for_create_update_and_copy() {
    let c = template_create_data(&AdminTemplateCreateForm {
        name: "  Mine  ".to_string(),
        description: None,
        html: "<p/>".to_string(),
    });
    assert_eq!((c.name.as_str(), c.description.as_str(), c.html.as_str()), ("Mine", "", "<p/>"));
    let u = template_update_data(&AdminTemplateUpdateForm {
        name: Some(" New ".to_string()),
        description: None,
        html: Some("<b/>".to_string()),
    });
    assert_eq!(u.name, Some("New".to_string()));
    assert_eq!(u.description, None);
    assert_eq!(u.html, Some("<b/>".to_string()));
    let d = duplicate_template_data(&tpl("Blog", "desc", true));
    assert!(d.name.starts_with("Blog-copy-"));
    assert_eq!(d.name.len(), "Blog-copy-".len() + 8);
    assert_eq!(d.description, "desc");
}

#[test]
fn api_views_write_ids_as_uuid_text() {
    let s = template_to_summary(tpl("Blog", "d", false));
    assert_eq!(s.id, "01234567-89ab-cdef-0123-456789abcdef");
    assert_eq!(s.owner_user_id, Some("00000000-0000-0000-0000-000000000005".to_string()));
    let d = template_to_detail(tpl("Blog", "d", true));
    assert_eq!(d.owner_user_id, None);
    assert_eq!(d.html, "<h1>{{title}}</h1>\\n{{content}}");
    let c = content_to_public(item());
    assert_eq!(c.id, "00000000-0000-0000-0000-000000000001");
    assert_eq!((c.kind.as_str(), c.status.as_str()), ("page", "published"));
    assert_eq!(c.published_at, Some(3));
}

#[test]
fn login_and_register_replies() {
    let u = User {
        id: u128::MAX,
        email: "jane.doe@example.com".to_string(),
        password_hash: String::new(),
        email_verified_at: None,
        created_at: 0,
        edited_at: 0,
        deleted_at: None,
    };
    let l = login_response(&u);
    assert_eq!(l.token, "ffffffff-ffff-ffff-ffff-ffffffffffff");
    assert_eq!(l.user.username, Some("jane.doe".to_string()));
    let r = register_response(&u, Some("JD".to_string()));
    assert_eq!(r.user.username, Some("JD".to_string()));
    assert_eq!(r.message, "Registration successful!");
    let r = register_response(&u, None);
    assert_eq!(r.user.username, Some("jane.doe".to_string()));
    let p = UserPublic::of_user(&u);
    assert_eq!(p.email, "jane.doe@example.com");
}

#[test]
fn rendering_through_templates() {
    let t = tpl("Blog", "", true);
    // built-in templates have their escaped newlines restored
    assert_eq!(render_with_template(Some(&t), "T", "<i>c</i>", "s", "post"), "<h1>T</h1>\n<i>c</i>");
    let custom = tpl("Mine", "", false);
    assert_eq!(render_with_template(Some(&custom), "T", "c", "s", "post"), "<h1>T</h1>\\nc");
    assert_eq!(
        render_with_template(None, "A&B", "<p>x</p>", "s", "page"),
        "<!doctype html><html><head><meta charset=\"utf-8\"><title>A&amp;B</title></head><body><h1>A&amp;B</h1><p>x</p></body></html>"
    );
    assert_eq!(render_item(Some(&t), &item()), "<h1>About &lt;us&gt;</h1>\n<p>Hello</p>");
}

#[test]
fn live_and_new_previews() {
    let form = AdminLiveForm {
        title: Some("  ".to_string()),
        slug: Some(" new-slug ".to_string()),
        content: None,
        template: None,
    };
    let p = live_preview_fields(&form, &item());
    assert_eq!(
        (p.title.as_str(), p.slug.as_str(), p.content.as_str(), p.template.as_str()),
        ("About <us>", "new-slug", "<p>Hello</p>", "blog")
    );
    let (p, kind) = new_preview_fields(&AdminNewPreviewForm {
        kind: "posts".to_string(),
        title: None,
        slug: None,
        content: None,
        template: Some(" ".to_string()),
    });
    assert_eq!(
        (p.title.as_str(), p.slug.as_str(), p.content.as_str(), p.template.as_str(), kind.as_str()),
        ("Untitled", "untitled", "", "default", "post")
    );
}

#[test]
fn content_saves() {
    let c = content_create_data(
        &AdminCreateForm { title: " T ".to_string(), slug: " s ".to_string(), content: " c ".to_string(), template: None },
        ContentKind::Post,
        9,
    );
    assert_eq!((c.title.as_str(), c.slug.as_str(), c.content.as_str(), c.template.as_str()), ("T", "s", " c ", "default"));
    assert_eq!(c.owner_user_id, Some(9));
    let form = |status: Option<&str>| AdminUpdateForm {
        title: Some(" T ".to_string()),
        slug: None,
        content: Some(" c ".to_string()),
        template: Some(" blog ".to_string()),
        status: status.map(|s| s.to_string()),
    };
    let u = content_update_data(&form(Some(" published "))).ok().unwrap();
    assert_eq!(u.title, Some("T".to_string()));
    assert_eq!(u.slug, None);
    assert_eq!(u.content, Some(" c ".to_string()));
    assert_eq!(u.template, Some("blog".to_string()));
    assert_eq!(u.status, Some(ContentStatus::Published));
    assert!(matches!(content_update_data(&form(Some("archived"))), Err("Invalid status")));
    let a = autosave_update_data(&AdminLiveForm {
        title: Some(" x ".to_string()),
        slug: None,
        content: None,
        template: None,
    });
    assert_eq!(a.title, Some("x".to_string()));
    assert_eq!(a.status, None);
}

#[test]
fn site_forms() {
    let c = site_create_data(
        &SiteCreateForm { name: " S ".to_string(), slug: " s ".to_string(), default_template: Some("  ".to_string()) },
        3,
    );
    assert_eq!((c.name.as_str(), c.slug.as_str(), c.default_template.as_str()), ("S", "s", "default"));
    let form = SiteCreateForm { name: "S".to_string(), slug: "s".to_string(), default_template: None };
    assert_eq!(entered_template(&form), "default");
    let u = site_update_data(&SiteUpdateForm {
        name: Some(" ".to_string()),
        slug: Some(" new ".to_string()),
        default_template: None,
        homepage_type: Some("posts".to_string()),
        homepage_page_id: Some("00000000-0000-0000-0000-000000000001".to_string()),
    });
    assert_eq!(u.name, None);
    assert_eq!(u.slug, Some("new".to_string()));
    assert_eq!(u.homepage_type, Some(HomepageType::Posts));
    assert_eq!(u.homepage_page_id, Some(None));
    assert!(u.validate_homepage().is_ok());
    let cfg = configuration_update_data(&ConfigurationForm {
        homepage_type: Some("page".to_string()),
        homepage_page_id: None,
    });
    assert_eq!(cfg.homepage_type, Some(HomepageType::Page));
    assert_eq!(cfg.homepage_page_id, None);
    assert!(cfg.validate_homepage().is_err());
    assert!(matches!(theme_update_data(&ApplyThemeForm { template: "  ".to_string() }), Err("Template is required")));
    let t = theme_update_data(&ApplyThemeForm { template: " blog ".to_string() }).ok().unwrap();
    assert_eq!(t.default_template, Some("blog".to_string()));
    assert_eq!(site_search_pattern(Some(" news ")), Some("%news%".to_string()));
    assert_eq!(site_search_pattern(Some("  ")), None);
    assert_eq!(site_search_pattern(None), None);
    let d = default_site(4);
    assert_eq!((d.owner_user_id, d.name.as_str(), d.slug.as_str(), d.default_template.as_str()), (4, "RustPress", "default", "default"));
}

#[test]
fn pages_show_messages_and_headers() {
    assert_eq!(AdminLoginTemplate::from_error_code(Some("invalid")).error, Some("Invalid email or password".to_string()));
    assert_eq!(AdminLoginTemplate::from_error_code(None).error, None);
    assert_eq!(
        AdminRegisterTemplate::from_error_code(Some("exists")).error,
        Some("An account with this email already exists".to_string())
    );
    let u = User {
        id: 1,
        email: "a@b.c".to_string(),
        password_hash: "  ".to_string(),
        email_verified_at: Some(5),
        created_at: 0,
        edited_at: 0,
        deleted_at: None,
    };
    let page = MeSecurityTemplate::for_user(&u, true, None, Some("ok".to_string()));
    assert!(!page.password_set);
    assert!(page.email_verified);
    let headers = SecurityHeaders.headers();
    assert_eq!(headers.len(), 6);
    assert_eq!(headers[0], ("x-frame-options", "DENY"));
    assert_eq!(headers[5], ("referrer-policy", "strict-origin-when-cross-origin"));
}

#[test]
fn template_preview_sources() {
    assert_eq!(sample_data().0, "Sample Page Title");
    assert_eq!(preview_target(Some("")), None);
    assert_eq!(preview_target(None), None);
    assert_eq!(preview_target(Some("nope")), None);
    assert_eq!(preview_target(Some("00000000-0000-0000-0000-0000000000ff")), Some(255));
    let it = item();
    let shown = preview_fields(Some(&it), true);
    assert_eq!(shown, ("About <us>".to_string(), "<p>Hello</p>".to_string(), "about".to_string(), "page".to_string()));
    let hidden = preview_fields(Some(&it), false);
    assert_eq!(hidden.0, "Sample Page Title");
    assert_eq!(hidden.3, "page");
    assert_eq!(preview_fields(None, true).2, "sample-page");
}

#[test]
fn sessions_and_requests() {
    let a = "00000000-0000-0000-0000-000000000001";
    let b = "00000000-0000-0000-0000-000000000002";
    assert_eq!(session_user(Some(a), Some(b), None), Some(1));
    assert_eq!(session_user(Some("  "), Some(b), Some(a)), Some(2));
    assert_eq!(session_user(Some("bad"), None, Some(&format!(" {a} "))), Some(1));
    assert_eq!(session_user(None, None, None), None);
    assert!(is_htmx_request(Some("TRUE")));
    assert!(is_htmx_request(Some("true")));
    assert!(!is_htmx_request(Some("yes")));
    assert!(!is_htmx_request(None));
    assert!(eq_ignore_ascii_case("HeLLo", "hello"));
    assert!(!eq_ignore_ascii_case("É", "é"));
    assert!(is_unique_violation_code(Some("23505")));
    assert!(!is_unique_violation_code(Some("23503")));
    assert!(!is_unique_violation_code(None));
}

#[test]
fn cookies_the_server_sets() {
    let c = session_cookie(1);
    assert_eq!((c.name, c.value.as_str(), c.path), ("rp_uid", "00000000-0000-0000-0000-000000000001", "/"));
    assert!(c.http_only && c.secure && !c.removal);
    assert_eq!(c.same_site, SameSitePolicy::Lax);
    assert_eq!(c.max_age_seconds, Some(7 * 24 * 3600));
    let r = session_removal_cookie(false);
    assert!(r.removal && !r.secure && r.value.is_empty());
    let t = CsrfToken::create_cookie("tok");
    assert_eq!((t.name, t.value.as_str()), ("csrf_token", "tok"));
    assert_eq!(t.same_site, SameSitePolicy::Strict);
    assert_eq!(t.max_age_seconds, Some(24 * 3600));
}

#[test]
fn template_lookup_order() {
    let l = template_lookups(Some(4), "blog");
    assert_eq!(l.len(), 2);
    assert_eq!(l[0], (TemplateScope::Owner(4), "blog".to_string()));
    assert_eq!(l[1], (TemplateScope::Owner(4), "default".to_string()));
    let l = template_lookups(None, "x");
    assert_eq!(l[0].0, TemplateScope::Any);
}

#[test]
fn api_content_creation_defaults_blank_template() {
    let c = api_content_create_data(ContentKind::Page, 4, " Home ", " home ", "<p>x</p>", Some("  "));
    assert_eq!((c.title.as_str(), c.slug.as_str(), c.content.as_str(), c.template.as_str()), ("Home", "home", "<p>x</p>", "default"));
    assert_eq!(c.owner_user_id, Some(4));
    assert_eq!(c.kind, ContentKind::Page);
    let named = api_content_create_data(ContentKind::Post, 4, "T", "t", "", Some(" blog "));
    assert_eq!(named.template, "blog");
    let none = api_content_create_data(ContentKind::Post, 4, "T", "t", "", None);
    assert_eq!(none.template, "default");
}

#[test]
fn session_cookies_name_their_user_when_read_back() {
    let uid: u128 = 0x67e5_5044_10b1_426f_9247_bb68_0e5f_e0c8;
    assert_eq!(cookie_session_user(Some(&session_cookie(uid).value)), Some(uid));
    assert_eq!(cookie_session_user(Some(&api_session_cookie(uid).value)), Some(uid));
    assert_eq!(cookie_session_user(Some(" 67e55044-10b1-426f-9247-bb680e5fe0c8")), None);
    assert_eq!(cookie_session_user(None), None);
}

#[test]
fn duplicate_is_tried_three_times() {
    assert_eq!(after_failed_duplicate(1, "taken".to_string()), None);
    assert_eq!(after_failed_duplicate(2, "taken".to_string()), None);
    assert_eq!(after_failed_duplicate(3, "still taken".to_string()), Some("still taken".to_string()));
}
