//! Publication status of a content item.

use vstd::prelude::*;
use vstd::string::StringExecFns;

use crate::text::{str_eq, str_to_lowercase, unicode_to_lowercase};

verus! {

/// Draft or published.
#[derive(Debug, Clone, Copy, PartialEq, Eq, Structural)]
pub enum ContentStatus {
    Draft,
    Published,
}

impl ContentStatus {
    /// The lower-case name of the status.
    pub open spec fn name(self) -> Seq<char> {
        match self {
            ContentStatus::Draft => "draft"@,
            ContentStatus::Published => "published"@,
        }
    }

    /// The lower-case name of the status (`"draft"` or `"published"`).
    pub fn as_str(&self) -> (r: &'static str)
        ensures
            r@ == self.name(),
    {
        match self {
            ContentStatus::Draft => "draft",
            ContentStatus::Published => "published",
        }
    }

    /// Whether the name of the status equals `other`.
    pub fn eq_str(&self, other: &str) -> (r: bool)
        ensures
            r == (self.name() == other@),
    {
        str_eq(self.as_str(), other)
    }

    /// The status named by an already lower-cased text; `given` is the text
    /// as given, quoted in the error.
    pub fn from_lowercase(lower: &str, given: &str) -> (r: Result<Self, String>)
        ensures
            lower@ == "draft"@ ==> r == Ok::<Self, String>(ContentStatus::Draft),
            lower@ == "published"@ ==> r == Ok::<Self, String>(ContentStatus::Published),
            lower@ != "draft"@ && lower@ != "published"@ ==> (r matches Err(m) && m@
                == "invalid content status: "@ + given@),
    {
        proof {
            reveal_strlit("draft");
            reveal_strlit("published");
            assert("draft"@.len() != "published"@.len());
        }
        if str_eq(lower, "draft") {
            Ok(ContentStatus::Draft)
        } else if str_eq(lower, "published") {
            Ok(ContentStatus::Published)
        } else {
            let mut m = String::from_str("invalid content status: ");
            m.append(given);
            Err(m)
        }
    }

    /// Parses a status name, ignoring case.
    pub fn parse(s: &str) -> (r: Result<Self, String>)
        ensures
            unicode_to_lowercase(s@) == "draft"@ ==> r == Ok::<Self, String>(ContentStatus::Draft),
            unicode_to_lowercase(s@) == "published"@ ==> r == Ok::<Self, String>(
                ContentStatus::Published,
            ),
            unicode_to_lowercase(s@) != "draft"@ && unicode_to_lowercase(s@) != "published"@ ==> (
            r matches Err(m) && m@ == "invalid content status: "@ + s@),
    {
        let lower = str_to_lowercase(s);
        Self::from_lowercase(lower.as_str(), s)
    }
}

impl Default for ContentStatus {
    fn default() -> (r: Self)
        ensures
            r == ContentStatus::Draft,
    {
        ContentStatus::Draft
    }
}

impl std::str::FromStr for ContentStatus {
    type Err = String;

    fn from_str(s: &str) -> (r: Result<Self, String>)
        ensures
            unicode_to_lowercase(s@) == "draft"@ ==> r == Ok::<Self, String>(ContentStatus::Draft),
            unicode_to_lowercase(s@) == "published"@ ==> r == Ok::<Self, String>(
                ContentStatus::Published,
            ),
            unicode_to_lowercase(s@) != "draft"@ && unicode_to_lowercase(s@) != "published"@ ==> (
            r matches Err(m) && m@ == "invalid content status: "@ + s@),
    {
        Self::parse(s)
    }
}

} // verus!
