//! The variant emitter: wraps the filtered and the original declaration
//! texts in complementary compile-time gates, so that under every build
//! configuration exactly one of the two copies is active.
//!
//! The condition is an opaque token sequence: it is copied verbatim into
//! both gates (the second one inside a `not(..)` wrapper) and never parsed
//! or validated here.

use vstd::prelude::*;

use vstd::string::StringExecFns;

verus! {

/// Whether a gate admits a build in which the condition evaluates to
/// `cond`. The first emitted copy is gated on the condition itself
/// (`negated` is false), the second on its negation (`negated` is true).
pub open spec fn gate_admits(negated: bool, cond: bool) -> bool {
    if negated {
        !cond
    } else {
        cond
    }
}

/// The emitted text: the filtered copy under a gate on the condition,
/// then the original copy under a gate on its negation.
pub open spec fn gated_output(args: Seq<char>, filtered: Seq<char>, original: Seq<char>) -> Seq<
    char,
> {
    "#[cfg("@ + args + ")]\n"@ + filtered + "\n#[cfg(not("@ + args + "))]\n"@ + original
}

/// Concatenates the two gated copies: the filtered text first, under the
/// supplied condition, then the original text under its negation.
pub fn wrap_cfg_attr(args: &str, modified: &str, input: &str) -> (res: String)
    ensures
        res@ == gated_output(args@, modified@, input@),
{
    let mut out = String::new();
    out.append("#[cfg(");
    out.append(args);
    out.append(")]\n");
    out.append(modified);
    out.append("\n#[cfg(not(");
    out.append(args);
    out.append("))]\n");
    out.append(input);
    proof {
        assert(out@ =~= gated_output(args@, modified@, input@));
    }
    out
}

/// The whole transformation at the text level. `filtered` carries the
/// rendered text of the filtered declaration when the input was recognized
/// as a function, a trait, or an implementation; for any other input
/// (unrecognized kind or parse failure) it is `None` and the input text is
/// returned unchanged, with no gates added.
pub fn rm_send_if(args: &str, filtered: Option<&str>, input: &str) -> (res: String)
    ensures
        match filtered {
            Some(f) => res@ == gated_output(args@, f@, input@),
            None => res@ == input@,
        },
{
    match filtered {
        Some(f) => wrap_cfg_attr(args, f, input),
        None => String::from_str(input),
    }
}

/// The disabled-mode surface: when the transformation capability is
/// switched off altogether, the input is the output, whatever it holds.
pub fn passthrough(input: String) -> (res: String)
    ensures
        res == input,
{
    input
}

} // verus!
