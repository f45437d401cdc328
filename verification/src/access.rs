//! Who may see and change what: content ownership and collaboration, template
//! and site ownership, account deletion guards and the admin area guard.

use vstd::prelude::*;

use crate::models::{ContentItem, RoleName, Site, SiteTemplate};
use crate::text::{has_prefix, starts_with, str_eq};

verus! {

// ---------------------------------------------------------------------------
// Content items
// ---------------------------------------------------------------------------

/// Items without an owner (legacy content) are open to everyone; owned items
/// to their owner.
pub open spec fn owner_allows(owner: Option<u128>, uid: u128) -> bool {
    owner is None || owner == Some(uid)
}

/// Whether the owner rule alone already grants access to an item with this
/// owner (no collaborator lookup needed).
pub fn access_by_ownership(owner: Option<u128>, uid: u128) -> (r: bool)
    ensures
        r == owner_allows(owner, uid),
{
    match owner {
        None => true,
        Some(o) => o == uid,
    }
}

/// Viewing: the owner rule, or being a collaborator of the item.
pub open spec fn can_view_spec(owner: Option<u128>, uid: u128, is_collaborator: bool) -> bool {
    owner_allows(owner, uid) || is_collaborator
}

/// Editing: the owner rule, or collaborating on the item as an editor.
pub open spec fn can_edit_spec(owner: Option<u128>, uid: u128, collaborator_role: Option<RoleName>) -> bool {
    owner_allows(owner, uid) || collaborator_role == Some(RoleName::Editor)
}

/// Managing collaborators: only the owner of an owned item.
pub open spec fn can_manage_spec(owner: Option<u128>, uid: u128) -> bool {
    owner == Some(uid)
}

/// Whether `uid` may view `item`, given whether `uid` collaborates on it.
pub fn can_view_content(item: &ContentItem, uid: u128, is_collaborator: bool) -> (r: bool)
    ensures
        r == can_view_spec(item.owner_user_id, uid, is_collaborator),
{
    access_by_ownership(item.owner_user_id, uid) || is_collaborator
}

/// Whether `uid` may edit `item`, given the role `uid` collaborates with
/// (`None` when not a collaborator or without a role).
pub fn can_edit_content(item: &ContentItem, uid: u128, collaborator_role: Option<RoleName>) -> (r: bool)
    ensures
        r == can_edit_spec(item.owner_user_id, uid, collaborator_role),
{
    access_by_ownership(item.owner_user_id, uid) || collaborator_role == Some(RoleName::Editor)
}

/// Whether `uid` may invite, change or remove collaborators of `item`.
pub fn can_manage_collaborators(item: &ContentItem, uid: u128) -> (r: bool)
    ensures
        r == can_manage_spec(item.owner_user_id, uid),
{
    match item.owner_user_id {
        Some(o) => o == uid,
        None => false,
    }
}

/// Permissions are nested: whoever manages collaborators may edit, and whoever
/// may edit may view (a collaborator with a role is a collaborator).
pub proof fn lemma_permissions_nested(owner: Option<u128>, uid: u128, role: Option<RoleName>)
    ensures
        can_manage_spec(owner, uid) ==> can_edit_spec(owner, uid, role),
        can_edit_spec(owner, uid, role) ==> can_view_spec(owner, uid, role is Some),
{
}

/// The items of `items` that `uid` sees in its own lists: those it owns and
/// those without an owner, in the same order.
pub open spec fn visible_items(items: Seq<ContentItem>, uid: u128) -> Seq<ContentItem>
    decreases items.len(),
{
    if items.len() == 0 {
        seq![]
    } else {
        let r = visible_items(items.drop_last(), uid);
        if owner_allows(items.last().owner_user_id, uid) {
            r.push(items.last())
        } else {
            r
        }
    }
}

/// Keeps the items owned by `uid` or without an owner, in order.
pub fn visible_to(items: Vec<ContentItem>, uid: u128) -> (r: Vec<ContentItem>)
    ensures
        r@ == visible_items(items@, uid),
{
    let ghost orig = items@;
    let mut rest = items;
    let mut out: Vec<ContentItem> = Vec::new();
    let ghost mut j: int = 0;
    assert(rest@ =~= orig.skip(0));
    while rest.len() > 0
        invariant
            0 <= j <= orig.len(),
            rest@ == orig.skip(j),
            out@ == visible_items(orig.take(j), uid),
        decreases rest.len(),
    {
        let ghost old_rest = rest@;
        let item = rest.remove(0);
        proof {
            assert(item == orig[j]);
            assert(rest@ =~= orig.skip(j + 1));
            assert(orig.take(j + 1).drop_last() =~= orig.take(j));
            assert(orig.take(j + 1).last() == orig[j]);
        }
        if access_by_ownership(item.owner_user_id, uid) {
            out.push(item);
        }
        proof {
            j = j + 1;
        }
    }
    assert(orig.take(j) =~= orig);
    out
}

// ---------------------------------------------------------------------------
// Templates and sites
// ---------------------------------------------------------------------------

/// Why a template may not be changed.
#[derive(Debug, Clone, Copy, PartialEq, Eq, Structural)]
pub enum TemplateDenial {
    /// Built-in templates are read-only.
    BuiltIn,
    /// The template belongs to someone else.
    NotOwner,
}

/// Built-in templates are visible to everyone, others to their owner.
pub open spec fn may_view_template(t: SiteTemplate, uid: u128) -> bool {
    t.is_builtin || t.owner_user_id == Some(uid)
}

/// Only the owner may change a template, and nobody a built-in one.
pub open spec fn may_modify_template(t: SiteTemplate, uid: u128) -> bool {
    !t.is_builtin && t.owner_user_id == Some(uid)
}

/// Whether `uid` may see `t`.
pub fn can_view_template(t: &SiteTemplate, uid: u128) -> (r: bool)
    ensures
        r == may_view_template(*t, uid),
{
    t.is_builtin || match t.owner_user_id {
        Some(o) => o == uid,
        None => false,
    }
}

/// Whether `uid` may update or delete `t`, and if not, why.
pub fn can_modify_template(t: &SiteTemplate, uid: u128) -> (r: Result<(), TemplateDenial>)
    ensures
        r is Ok <==> may_modify_template(*t, uid),
        t.is_builtin ==> r == Err::<(), TemplateDenial>(TemplateDenial::BuiltIn),
        !t.is_builtin && t.owner_user_id != Some(uid) ==> r == Err::<(), TemplateDenial>(
            TemplateDenial::NotOwner,
        ),
{
    if t.is_builtin {
        return Err(TemplateDenial::BuiltIn);
    }
    match t.owner_user_id {
        Some(o) => if o == uid {
            Ok(())
        } else {
            Err(TemplateDenial::NotOwner)
        },
        None => Err(TemplateDenial::NotOwner),
    }
}

impl TemplateDenial {
    /// The answer to a refused update (`deleting` false) or deletion.
    pub fn message(&self, deleting: bool) -> (r: &'static str)
        ensures
            r@ == match self {
                TemplateDenial::BuiltIn => if deleting {
                    "Built-in templates cannot be deleted"@
                } else {
                    "Built-in templates are read-only"@
                },
                TemplateDenial::NotOwner => "Forbidden"@,
            },
    {
        match self {
            TemplateDenial::BuiltIn => if deleting {
                "Built-in templates cannot be deleted"
            } else {
                "Built-in templates are read-only"
            },
            TemplateDenial::NotOwner => "Forbidden",
        }
    }
}

/// Whoever may change a template may see it.
pub proof fn lemma_modify_implies_view(t: SiteTemplate, uid: u128)
    ensures
        may_modify_template(t, uid) ==> may_view_template(t, uid),
{
}

/// Sites are managed by their owner only.
pub fn can_manage_site(site: &Site, uid: u128) -> (r: bool)
    ensures
        r == (site.owner_user_id == uid),
{
    site.owner_user_id == uid
}

// ---------------------------------------------------------------------------
// Accounts
// ---------------------------------------------------------------------------

/// The role given to a newly registered user: the first user becomes
/// administrator, later ones editors.
pub fn role_for_new_user(user_count: i64) -> (r: RoleName)
    ensures
        r == (if user_count <= 1 {
            RoleName::Admin
        } else {
            RoleName::Editor
        }),
{
    if user_count <= 1 {
        RoleName::Admin
    } else {
        RoleName::Editor
    }
}

/// An administrator may not delete their own account while they are the only
/// administrator.
pub fn self_deletion_blocked(is_admin: bool, admin_count: i64) -> (r: bool)
    ensures
        r == (is_admin && admin_count <= 1),
{
    is_admin && admin_count <= 1
}

/// Why an administrator's deletion of a user is refused before it is tried.
pub fn user_deletion_refusal(actor: u128, target: u128) -> (r: Option<&'static str>)
    ensures
        actor == target ==> r == Some("You cannot delete your own account"),
        actor != target ==> r is None,
{
    if actor == target {
        Some("You cannot delete your own account")
    } else {
        None
    }
}

// ---------------------------------------------------------------------------
// The admin area guard
// ---------------------------------------------------------------------------

/// Paths of the admin area that need a signed-in user: everything under
/// `/admin` except the login and registration pages.
pub open spec fn needs_login(path: Seq<char>) -> bool {
    has_prefix(path, "/admin"@) && !has_prefix(path, "/admin/login"@) && !has_prefix(
        path,
        "/admin/register"@,
    )
}

/// Paths reserved to administrators.
pub open spec fn admin_only(path: Seq<char>) -> bool {
    has_prefix(path, "/admin/configuration"@) || has_prefix(path, "/admin/users"@)
}

/// What the guard does with a request.
#[derive(Debug, Clone, Copy, PartialEq, Eq, Structural)]
pub enum GuardAction {
    /// Let the request through.
    Pass,
    /// Answer 401 with an `HX-Redirect` to the login page (HTMX requests).
    HtmxToLogin,
    /// Answer 303 to the login page.
    RedirectToLogin,
    /// Answer 303 to the admin dashboard (non-administrator on an admin-only page).
    RedirectToAdmin,
}

/// The first step of the guard, before the user's role is known.
#[derive(Debug, Clone, Copy, PartialEq, Eq, Structural)]
pub enum GuardStep {
    /// Decided without knowing the role.
    Done(GuardAction),
    /// The user is signed in and the role must be looked up.
    LookUpRole,
}

/// Answer to a request without a signed-in user.
pub open spec fn login_required_action(is_htmx: bool) -> GuardAction {
    if is_htmx {
        GuardAction::HtmxToLogin
    } else {
        GuardAction::RedirectToLogin
    }
}

/// How to answer a request that needs a signed-in user but has none.
pub fn login_required(is_htmx: bool) -> (r: GuardAction)
    ensures
        r == login_required_action(is_htmx),
{
    if is_htmx {
        GuardAction::HtmxToLogin
    } else {
        GuardAction::RedirectToLogin
    }
}

/// Whether the path needs a signed-in user.
pub fn path_needs_login(path: &str) -> (r: bool)
    ensures
        r == needs_login(path@),
{
    starts_with(path, "/admin") && !starts_with(path, "/admin/login") && !starts_with(
        path,
        "/admin/register",
    )
}

/// Whether the path is reserved to administrators.
pub fn path_admin_only(path: &str) -> (r: bool)
    ensures
        r == admin_only(path@),
{
    starts_with(path, "/admin/configuration") || starts_with(path, "/admin/users")
}

/// The guard before the role lookup.
pub fn guard_before_lookup(path: &str, signed_in: bool, is_htmx: bool) -> (r: GuardStep)
    ensures
        !needs_login(path@) ==> r == GuardStep::Done(GuardAction::Pass),
        needs_login(path@) && !signed_in ==> r == GuardStep::Done(login_required_action(is_htmx)),
        needs_login(path@) && signed_in ==> r == GuardStep::LookUpRole,
{
    if !path_needs_login(path) {
        return GuardStep::Done(GuardAction::Pass);
    }
    if !signed_in {
        return GuardStep::Done(login_required(is_htmx));
    }
    GuardStep::LookUpRole
}

/// The guard once the role of a signed-in user is known.
pub fn guard_after_lookup(path: &str, is_admin: bool) -> (r: GuardAction)
    ensures
        r == (if !is_admin && admin_only(path@) {
            GuardAction::RedirectToAdmin
        } else {
            GuardAction::Pass
        }),
{
    if !is_admin && path_admin_only(path) {
        GuardAction::RedirectToAdmin
    } else {
        GuardAction::Pass
    }
}

/// The whole guard: the first step, then, when the role was looked up, the
/// second one.
pub open spec fn admin_guard(path: Seq<char>, signed_in: bool, is_htmx: bool, is_admin: bool) -> GuardAction {
    if !needs_login(path) {
        GuardAction::Pass
    } else if !signed_in {
        login_required_action(is_htmx)
    } else if !is_admin && admin_only(path) {
        GuardAction::RedirectToAdmin
    } else {
        GuardAction::Pass
    }
}

/// The guard lets a request reach an admin-only page only for a signed-in
/// administrator, and reach the rest of the admin area (beyond login and
/// registration) only for a signed-in user.
pub proof fn lemma_guard_sound(path: Seq<char>, signed_in: bool, is_htmx: bool, is_admin: bool)
    ensures
        admin_only(path) ==> needs_login(path),
        admin_guard(path, signed_in, is_htmx, is_admin) == GuardAction::Pass && admin_only(path)
            ==> signed_in && is_admin,
        admin_guard(path, signed_in, is_htmx, is_admin) == GuardAction::Pass && needs_login(path)
            ==> signed_in,
{
    reveal_strlit("/admin");
    reveal_strlit("/admin/login");
    reveal_strlit("/admin/register");
    reveal_strlit("/admin/configuration");
    reveal_strlit("/admin/users");
    if has_prefix(path, "/admin/configuration"@) {
        assert(path.take(6) =~= "/admin/configuration"@.take(6));
        assert("/admin/configuration"@.take(6) =~= "/admin"@);
        assert(path[7] == path.take(20)[7]);
        assert(path[7] == 'c');
        assert(!has_prefix(path, "/admin/login"@)) by {
            if has_prefix(path, "/admin/login"@) {
                assert(path.take(12)[7] == "/admin/login"@[7]);
            }
        }
        assert(!has_prefix(path, "/admin/register"@)) by {
            if has_prefix(path, "/admin/register"@) {
                assert(path.take(15)[7] == "/admin/register"@[7]);
            }
        }
    }
    if has_prefix(path, "/admin/users"@) {
        assert(path.take(6) =~= "/admin/users"@.take(6));
        assert("/admin/users"@.take(6) =~= "/admin"@);
        assert(path[7] == path.take(12)[7]);
        assert(path[7] == 'u');
        assert(!has_prefix(path, "/admin/login"@)) by {
            if has_prefix(path, "/admin/login"@) {
                assert(path.take(12)[7] == "/admin/login"@[7]);
            }
        }
        assert(!has_prefix(path, "/admin/register"@)) by {
            if has_prefix(path, "/admin/register"@) {
                assert(path.take(15)[7] == "/admin/register"@[7]);
            }
        }
    }
}

/// Paths the public page resolver never serves: the empty path, `admin`,
/// `blog` and everything below them.
pub open spec fn reserved_page_path(slug: Seq<char>) -> bool {
    slug.len() == 0 || slug == "admin"@ || has_prefix(slug, "admin/"@) || slug == "blog"@
        || has_prefix(slug, "blog/"@)
}

/// Whether the public page resolver must answer "not found" without lookup.
pub fn is_reserved_page_path(slug: &str) -> (r: bool)
    ensures
        r == reserved_page_path(slug@),
{
    slug.is_empty() || str_eq(slug, "admin") || starts_with(slug, "admin/") || str_eq(slug, "blog")
        || starts_with(slug, "blog/")
}

} // verus!
