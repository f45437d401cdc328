//! Roles of users and of content collaborators.

use vstd::prelude::*;
use vstd::string::StringExecFns;

use crate::text::str_eq;

verus! {

/// A role: site administrator, editor, or read-only viewer.
#[derive(Debug, Clone, Copy, PartialEq, Eq, Structural)]
pub enum RoleName {
    Admin,
    Editor,
    Viewer,
}

impl RoleName {
    /// The lower-case name of the role.
    pub open spec fn name(self) -> Seq<char> {
        match self {
            RoleName::Admin => "admin"@,
            RoleName::Editor => "editor"@,
            RoleName::Viewer => "viewer"@,
        }
    }

    /// The lower-case name of the role, as stored.
    pub fn as_str(&self) -> (r: &'static str)
        ensures
            r@ == self.name(),
    {
        match self {
            RoleName::Admin => "admin",
            RoleName::Editor => "editor",
            RoleName::Viewer => "viewer",
        }
    }

    /// The role with the given stored name.
    pub fn parse(s: &str) -> (r: Result<Self, String>)
        ensures
            s@ == "admin"@ ==> r == Ok::<Self, String>(RoleName::Admin),
            s@ == "editor"@ ==> r == Ok::<Self, String>(RoleName::Editor),
            s@ == "viewer"@ ==> r == Ok::<Self, String>(RoleName::Viewer),
            s@ != "admin"@ && s@ != "editor"@ && s@ != "viewer"@ ==> (r matches Err(m) && m@
                == "invalid role: "@ + s@),
    {
        proof {
            reveal_strlit("admin");
            reveal_strlit("editor");
            reveal_strlit("viewer");
            assert("admin"@[0] != "editor"@[0]);
            assert("admin"@[0] != "viewer"@[0]);
            assert("editor"@[0] != "viewer"@[0]);
        }
        if str_eq(s, "admin") {
            Ok(RoleName::Admin)
        } else if str_eq(s, "editor") {
            Ok(RoleName::Editor)
        } else if str_eq(s, "viewer") {
            Ok(RoleName::Viewer)
        } else {
            let mut m = String::from_str("invalid role: ");
            m.append(s);
            Err(m)
        }
    }
}

} // verus!
