//! The two kinds of content: pages and posts.

use vstd::prelude::*;
use vstd::string::StringExecFns;

use crate::text::{str_eq, str_to_lowercase, unicode_to_lowercase};

verus! {

/// Pages and posts.
#[derive(Debug, Clone, Copy, PartialEq, Eq, Structural)]
pub enum ContentKind {
    Page,
    Post,
}

impl ContentKind {
    /// The lower-case name of the kind.
    pub open spec fn name(self) -> Seq<char> {
        match self {
            ContentKind::Page => "page"@,
            ContentKind::Post => "post"@,
        }
    }

    /// The lower-case name of the kind (`"page"` or `"post"`).
    pub fn as_str(&self) -> (r: &'static str)
        ensures
            r@ == self.name(),
    {
        match self {
            ContentKind::Page => "page",
            ContentKind::Post => "post",
        }
    }

    /// Whether the name of the kind equals `other`.
    pub fn eq_str(&self, other: &str) -> (r: bool)
        ensures
            r == (self.name() == other@),
    {
        str_eq(self.as_str(), other)
    }

    /// The kind named by an already lower-cased text; `given` is the text
    /// as given, quoted in the error.
    pub fn from_lowercase(lower: &str, given: &str) -> (r: Result<Self, String>)
        ensures
            lower@ == "page"@ ==> r == Ok::<Self, String>(ContentKind::Page),
            lower@ == "post"@ ==> r == Ok::<Self, String>(ContentKind::Post),
            lower@ != "page"@ && lower@ != "post"@ ==> (r matches Err(m) && m@
                == "invalid content kind: "@ + given@),
    {
        proof {
            reveal_strlit("page");
            reveal_strlit("post");
            assert("page"@[1] != "post"@[1]);
        }
        if str_eq(lower, "page") {
            Ok(ContentKind::Page)
        } else if str_eq(lower, "post") {
            Ok(ContentKind::Post)
        } else {
            let mut m = String::from_str("invalid content kind: ");
            m.append(given);
            Err(m)
        }
    }

    /// Parses a kind name, ignoring case.
    pub fn parse(s: &str) -> (r: Result<Self, String>)
        ensures
            unicode_to_lowercase(s@) == "page"@ ==> r == Ok::<Self, String>(ContentKind::Page),
            unicode_to_lowercase(s@) == "post"@ ==> r == Ok::<Self, String>(ContentKind::Post),
            unicode_to_lowercase(s@) != "page"@ && unicode_to_lowercase(s@) != "post"@ ==> (r matches Err(
                m,
            ) && m@ == "invalid content kind: "@ + s@),
    {
        let lower = str_to_lowercase(s);
        Self::from_lowercase(lower.as_str(), s)
    }
}

impl Default for ContentKind {
    fn default() -> (r: Self)
        ensures
            r == ContentKind::Post,
    {
        ContentKind::Post
    }
}

impl std::str::FromStr for ContentKind {
    type Err = String;

    fn from_str(s: &str) -> (r: Result<Self, String>)
        ensures
            unicode_to_lowercase(s@) == "page"@ ==> r == Ok::<Self, String>(ContentKind::Page),
            unicode_to_lowercase(s@) == "post"@ ==> r == Ok::<Self, String>(ContentKind::Post),
            unicode_to_lowercase(s@) != "page"@ && unicode_to_lowercase(s@) != "post"@ ==> (r matches Err(
                m,
            ) && m@ == "invalid content kind: "@ + s@),
    {
        Self::parse(s)
    }
}

} // verus!
