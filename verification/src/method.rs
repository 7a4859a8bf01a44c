//! The request methods that are forwarded.

use vstd::prelude::*;
use crate::text::same_text;

verus! {

/// A method that the proxy forwards upstream.
#[derive(Clone, Copy, Debug, PartialEq, Eq, Structural)]
pub enum Method {
    Get,
    Post,
    Put,
    Delete,
}

/// The forwarded method that an inbound method name stands for, if any.
/// Names are matched exactly, in upper case.
pub open spec fn method_of(name: Seq<char>) -> Option<Method> {
    if name == "GET"@ {
        Some(Method::Get)
    } else if name == "POST"@ {
        Some(Method::Post)
    } else if name == "PUT"@ {
        Some(Method::Put)
    } else if name == "DELETE"@ {
        Some(Method::Delete)
    } else {
        None
    }
}

impl Method {
    /// The method's name as it is written on the wire.
    pub fn as_str(&self) -> (name: &'static str)
        ensures
            method_of(name@) == Some(*self),
    {
        proof {
            lemma_method_names_differ();
        }
        match self {
            Method::Get => "GET",
            Method::Post => "POST",
            Method::Put => "PUT",
            Method::Delete => "DELETE",
        }
    }
}

/// The four method names are pairwise different.
pub proof fn lemma_method_names_differ()
    ensures
        "GET"@ != "POST"@,
        "GET"@ != "PUT"@,
        "GET"@ != "DELETE"@,
        "POST"@ != "PUT"@,
        "POST"@ != "DELETE"@,
        "PUT"@ != "DELETE"@,
{
    reveal_strlit("GET");
    reveal_strlit("POST");
    reveal_strlit("PUT");
    reveal_strlit("DELETE");
    assert("GET"@.len() == 3);
    assert("POST"@.len() == 4);
    assert("PUT"@.len() == 3);
    assert("DELETE"@.len() == 6);
    assert("GET"@[0] == 'G');
    assert("PUT"@[0] == 'P');
}

/// Maps an inbound method name to the method to forward. Every name but
/// `GET`, `POST`, `PUT` and `DELETE` gives `None`.
pub fn map_method(name: &str) -> (mapped: Option<Method>)
    ensures
        mapped == method_of(name@),
{
    if same_text(name, "GET") {
        Some(Method::Get)
    } else if same_text(name, "POST") {
        Some(Method::Post)
    } else if same_text(name, "PUT") {
        Some(Method::Put)
    } else if same_text(name, "DELETE") {
        Some(Method::Delete)
    } else {
        None
    }
}

} // verus!
