//! The lines the tool prints on success.

use vstd::prelude::*;
use vstd::string::StringExecFns;

verus! {

/// One printed dependency: the resolved title followed by the declared
/// dependency-type label in parentheses.
pub fn dependency_line(title: &str, dependency_type: &str) -> (r: String)
    ensures
        r@ == title@ + " ("@ + dependency_type@ + ")"@,
{
    let mut s = String::new();
    s.append(title);
    s.append(" (");
    s.append(dependency_type);
    s.append(")");
    proof {
        assert(s@ =~= title@ + " ("@ + dependency_type@ + ")"@);
    }
    s
}

/// The final confirmation line naming the saved file.
pub fn saved_message(filename: &str) -> (r: String)
    ensures
        r@ == "Saved "@ + filename@ + " successfully!"@,
{
    let mut s = "Saved ".to_owned();
    s.append(filename);
    s.append(" successfully!");
    proof {
        assert(s@ =~= "Saved "@ + filename@ + " successfully!"@);
    }
    s
}

} // verus!
