//! What a site shows as its home page.

use vstd::prelude::*;
use vstd::string::StringExecFns;

use crate::text::{str_eq, str_to_lowercase, unicode_to_lowercase};

verus! {

/// The list of posts, or one chosen page.
#[derive(Debug, Clone, Copy, PartialEq, Eq, Structural)]
pub enum HomepageType {
    Posts,
    Page,
}

/// The rule tying the home page type to the chosen page: a page is named
/// exactly when the type is `Page`.
pub open spec fn homepage_consistent(typ: HomepageType, page_id: Option<u128>) -> bool {
    match typ {
        HomepageType::Posts => page_id is None,
        HomepageType::Page => page_id is Some,
    }
}

impl HomepageType {
    /// The lower-case name of the type.
    pub open spec fn name(self) -> Seq<char> {
        match self {
            HomepageType::Posts => "posts"@,
            HomepageType::Page => "page"@,
        }
    }

    /// The lower-case name of the type (`"posts"` or `"page"`).
    pub fn as_str(&self) -> (r: &'static str)
        ensures
            r@ == self.name(),
    {
        match self {
            HomepageType::Posts => "posts",
            HomepageType::Page => "page",
        }
    }

    /// Checks that a page id is given exactly when the type is `Page`.
    pub fn validate(typ: Self, page_id: Option<u128>) -> (r: Result<(), String>)
        ensures
            r is Ok <==> homepage_consistent(typ, page_id),
            typ == HomepageType::Posts && page_id is Some ==> (r matches Err(m) && m@
                == "homepage_page_id must be NULL when homepage_type=posts"@),
            typ == HomepageType::Page && page_id is None ==> (r matches Err(m) && m@
                == "homepage_page_id is required when homepage_type=page"@),
    {
        match (typ, page_id) {
            (HomepageType::Posts, Some(_)) => Err(
                String::from_str("homepage_page_id must be NULL when homepage_type=posts"),
            ),
            (HomepageType::Page, None) => Err(
                String::from_str("homepage_page_id is required when homepage_type=page"),
            ),
            _ => Ok(()),
        }
    }

    /// The type named by an already lower-cased text; `given` is the text
    /// as given, quoted in the error.
    pub fn from_lowercase(lower: &str, given: &str) -> (r: Result<Self, String>)
        ensures
            lower@ == "posts"@ ==> r == Ok::<Self, String>(HomepageType::Posts),
            lower@ == "page"@ ==> r == Ok::<Self, String>(HomepageType::Page),
            lower@ != "posts"@ && lower@ != "page"@ ==> (r matches Err(m) && m@
                == "invalid homepage type: "@ + given@),
    {
        proof {
            reveal_strlit("posts");
            reveal_strlit("page");
            assert("posts"@[1] != "page"@[1]);
        }
        if str_eq(lower, "posts") {
            Ok(HomepageType::Posts)
        } else if str_eq(lower, "page") {
            Ok(HomepageType::Page)
        } else {
            let mut m = String::from_str("invalid homepage type: ");
            m.append(given);
            Err(m)
        }
    }

    /// Parses a type name, ignoring case.
    pub fn parse(s: &str) -> (r: Result<Self, String>)
        ensures
            unicode_to_lowercase(s@) == "posts"@ ==> r == Ok::<Self, String>(HomepageType::Posts),
            unicode_to_lowercase(s@) == "page"@ ==> r == Ok::<Self, String>(HomepageType::Page),
            unicode_to_lowercase(s@) != "posts"@ && unicode_to_lowercase(s@) != "page"@ ==> (
            r matches Err(m) && m@ == "invalid homepage type: "@ + s@),
    {
        let lower = str_to_lowercase(s);
        Self::from_lowercase(lower.as_str(), s)
    }
}

impl Default for HomepageType {
    fn default() -> (r: Self)
        ensures
            r == HomepageType::Posts,
    {
        HomepageType::Posts
    }
}

impl std::str::FromStr for HomepageType {
    type Err = String;

    fn from_str(s: &str) -> (r: Result<Self, String>)
        ensures
            unicode_to_lowercase(s@) == "posts"@ ==> r == Ok::<Self, String>(HomepageType::Posts),
            unicode_to_lowercase(s@) == "page"@ ==> r == Ok::<Self, String>(HomepageType::Page),
            unicode_to_lowercase(s@) != "posts"@ && unicode_to_lowercase(s@) != "page"@ ==> (
            r matches Err(m) && m@ == "invalid homepage type: "@ + s@),
    {
        Self::parse(s)
    }
}

} // verus!
