use vstd::prelude::*;
use vstd::utf8::{decode_utf8, valid_utf8};

use crate::error::StepError;
use crate::text::decode_text;

verus! {

/// Relies on String::push_str: appends the characters of `t` to `s`.
#[verifier::external_body]
fn push_str(s: &mut String, t: &str)
    ensures
        final(s)@ == old(s)@ + t@,
{
    s.push_str(t)
}

/// The text `"{hello} {world}!"`.
pub open spec fn greeting_of(hello: Seq<char>, world: Seq<char>) -> Seq<char> {
    hello + seq![' '] + world + seq!['!']
}

/// Joins two texts as `"{hello} {world}!"`.
pub fn greeting(hello: &str, world: &str) -> (r: String)
    ensures
        r@ == greeting_of(hello@, world@),
{
    let mut out = hello.to_owned();
    push_str(&mut out, " ");
    push_str(&mut out, world);
    push_str(&mut out, "!");
    proof {
        reveal_strlit(" ");
        reveal_strlit("!");
        assert(out@ =~= greeting_of(hello@, world@));
    }
    out
}

/// The content of the greeting file made from the contents of the two files
/// it is read from: each is decoded as UTF-8 in turn, and the first that is
/// not valid UTF-8 stops the step.
pub fn combine_contents(hello: &[u8], world: &[u8]) -> (r: Result<String, StepError>)
    ensures
        r is Ok <==> valid_utf8(hello@) && valid_utf8(world@),
        !(valid_utf8(hello@) && valid_utf8(world@)) ==> r == Err::<String, StepError>(
            StepError::EncodingError,
        ),
        r matches Ok(s) ==> s@ == greeting_of(decode_utf8(hello@), decode_utf8(world@)),
{
    let h = match decode_text(hello) {
        Ok(t) => t,
        Err(e) => return Err(e),
    };
    let w = match decode_text(world) {
        Ok(t) => t,
        Err(e) => return Err(e),
    };
    Ok(greeting(h.as_str(), w.as_str()))
}

} // verus!
