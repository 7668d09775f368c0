//! Protocol categories, derived from a profile's symbolic name.

use vstd::prelude::*;

verus! {

/// Closed classification of a profile's protocol, used as one component of a
/// connection's identity. Unrecognized names map to `Invalid`.
#[derive(Debug, PartialEq, Eq, Structural, Clone, Copy)]
pub enum Category {
    Invalid,
    Rtmp,
    Http,
    Rtsp,
}

/// The category that a profile name denotes: exact string match, anything
/// else is `Invalid`.
pub open spec fn category_of(name: Seq<char>) -> Category {
    if name == "RTMP"@ {
        Category::Rtmp
    } else if name == "HTTP"@ {
        Category::Http
    } else if name == "RTSP"@ {
        Category::Rtsp
    } else {
        Category::Invalid
    }
}

/// Relies on `<str as PartialEq>::eq`: two string slices compare equal
/// exactly when they hold the same characters.
#[verifier::external_body]
fn str_eq(a: &str, b: &str) -> (r: bool)
    ensures
        r == (a@ == b@),
{
    a == b
}

impl Category {
    pub fn from(name: &str) -> (c: Category)
        ensures
            c == category_of(name@),
    {
        if str_eq(name, "RTMP") {
            Category::Rtmp
        } else if str_eq(name, "HTTP") {
            Category::Http
        } else if str_eq(name, "RTSP") {
            Category::Rtsp
        } else {
            Category::Invalid
        }
    }
}

} // verus!
