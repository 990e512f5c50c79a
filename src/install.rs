//! The commit that records an installed dependency.

use vstd::prelude::*;

verus! {

/// The commit message for installing dependency `name`, with the tag it was
/// checked out at, if any, after a blank line.
pub open spec fn spec_install_message(name: Seq<char>, tag: Option<Seq<char>>) -> Seq<char> {
    match tag {
        Some(t) => "forge install: "@ + name + "\n\n"@ + t,
        None => "forge install: "@ + name,
    }
}

/// The commit message for installing dependency `name` at `tag`.
pub fn install_message(name: &str, tag: &Option<String>) -> (r: String)
    ensures
        r@ == spec_install_message(
            name@,
            match tag {
                Some(t) => Some(t@),
                None => None,
            },
        ),
{
    let mut s = String::from_str("forge install: ");
    s.append(name);
    match tag {
        Some(t) => {
            s.append("\n\n");
            s.append(t.as_str());
        },
        None => {},
    }
    s
}

} // verus!
