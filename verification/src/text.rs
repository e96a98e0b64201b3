use vstd::prelude::*;

verus! {

/// Relies on String::push_str: appends the characters of `s` to the string.
#[verifier::external_body]
pub(crate) fn push_str(out: &mut String, s: &str)
    ensures
        final(out)@ == old(out)@ + s@,
{
    out.push_str(s);
}

/// The one canonical textual form of a vector, used identically for the
/// debug and the display presentation, assembled from the decimal renderings
/// of the two coordinates: the external type name, then the coordinates in
/// parentheses, separated by a comma and a space.
pub fn repr_string(xs: &str, ys: &str) -> (r: String)
    ensures
        r@ == "Vector2("@ + xs@ + ", "@ + ys@ + ")"@,
{
    let mut out = String::new();
    push_str(&mut out, "Vector2(");
    push_str(&mut out, xs);
    push_str(&mut out, ", ");
    push_str(&mut out, ys);
    push_str(&mut out, ")");
    proof {
        assert(out@ =~= "Vector2("@ + xs@ + ", "@ + ys@ + ")"@);
    }
    out
}

} // verus!
