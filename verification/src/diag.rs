//! Building the diagnostic strings that rejected events carry.  Diagnostics
//! are for logs and crash reports, not for programmatic parsing; no contract
//! of the verifier depends on their content.

use vstd::prelude::*;

verus! {

/// Relies on std's `format!` macro: formatting two string slices with
/// "{}{}" concatenates them.
#[verifier::external_body]
fn concat2(a: &str, b: &str) -> (r: String)
    ensures
        r@ == a@ + b@,
{
    format!("{a}{b}")
}

/// `"<name>: <detail>"`: a diagnostic prefixed with the verifier's
/// human-readable name.
pub fn prefixed(name: &str, detail: &str) -> (r: String)
    ensures
        r@ == (name@ + ": "@) + detail@,
{
    let head = concat2(name, ": ");
    concat2(head.as_str(), detail)
}

} // verus!
