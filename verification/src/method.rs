//! The closed set of HTTP request methods and their canonical labels.

use vstd::prelude::*;

verus! {

/// An HTTP request method.
///
/// Each variant has a canonical capitalized label, used verbatim as the
/// `method` entry of the settings object handed to the fetch boundary.
#[derive(Clone, Copy, Debug, PartialEq, Eq, PartialOrd, Ord, Hash, Structural)]
pub enum Method {
    Get,
    Head,
    Post,
    Put,
    Delete,
    Connect,
    Options,
    Trace,
    Patch,
}

impl Method {
    /// The canonical label of a method, as a sequence of characters.
    pub open spec fn label(self) -> Seq<char> {
        match self {
            Method::Get => "Get"@,
            Method::Head => "Head"@,
            Method::Post => "Post"@,
            Method::Put => "Put"@,
            Method::Delete => "Delete"@,
            Method::Connect => "Connect"@,
            Method::Options => "Options"@,
            Method::Trace => "Trace"@,
            Method::Patch => "Patch"@,
        }
    }

    /// Returns the canonical capitalized label of this method.
    pub fn as_str(&self) -> (r: &'static str)
        ensures
            r@ == self.label(),
    {
        match self {
            Method::Get => "Get",
            Method::Head => "Head",
            Method::Post => "Post",
            Method::Put => "Put",
            Method::Delete => "Delete",
            Method::Connect => "Connect",
            Method::Options => "Options",
            Method::Trace => "Trace",
            Method::Patch => "Patch",
        }
    }
}

/// Reveals the nine canonical labels, so their lengths and characters are
/// available to a proof.
proof fn reveal_labels()
    ensures
        "Get"@.len() == 3 && "Get"@[0] == 'G',
        "Head"@.len() == 4 && "Head"@[0] == 'H',
        "Post"@.len() == 4 && "Post"@[0] == 'P',
        "Put"@.len() == 3 && "Put"@[0] == 'P' && "Put"@[1] == 'u',
        "Delete"@.len() == 6,
        "Connect"@.len() == 7 && "Connect"@[0] == 'C',
        "Options"@.len() == 7 && "Options"@[0] == 'O',
        "Trace"@.len() == 5 && "Trace"@[0] == 'T',
        "Patch"@.len() == 5 && "Patch"@[0] == 'P' && "Patch"@[1] == 'a',
{
    reveal_strlit("Get");
    reveal_strlit("Head");
    reveal_strlit("Post");
    reveal_strlit("Put");
    reveal_strlit("Delete");
    reveal_strlit("Connect");
    reveal_strlit("Options");
    reveal_strlit("Trace");
    reveal_strlit("Patch");
}

/// Every method's canonical label is non-empty.
pub proof fn lemma_label_nonempty(m: Method)
    ensures
        m.label().len() > 0,
{
    reveal_labels();
}

/// Distinct methods have distinct canonical labels: the label determines the
/// variant.
pub proof fn lemma_label_injective(m1: Method, m2: Method)
    ensures
        m1 != m2 ==> m1.label() != m2.label(),
{
    reveal_labels();
}

} // verus!
