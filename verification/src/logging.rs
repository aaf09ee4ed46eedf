//! Error-report formatting: a failed operation and its chain of causes
//! become the exact lines a logger should emit. Building the lines is
//! verified; actually emitting them is the driver's business.

use vstd::prelude::*;

verus! {

/// Relies on std's `format!`: the returned string is exactly the method
/// name, the literal `"() failed: "`, and the error text, concatenated.
#[verifier::external_body]
fn format_failure_line(method_name: &str, error_text: &str) -> (r: String)
    ensures
        r@ == method_name@ + "() failed: "@ + error_text@,
{
    format!("{method_name}() failed: {error_text}")
}

/// Relies on std's `format!`: the returned string is exactly the literal
/// `"  Caused by: "` followed by the cause's text.
#[verifier::external_body]
fn format_cause_line(cause: &str) -> (r: String)
    ensures
        r@ == "  Caused by: "@ + cause@,
{
    format!("  Caused by: {cause}")
}

/// The report for a failed operation: one line naming the method and the
/// error's own text, then one indented line per transitive cause, in order.
pub fn log_error(method_name: &str, error_text: &str, causes: &Vec<String>) -> (lines: Vec<
    String,
>)
    ensures
        lines@.len() == 1 + causes@.len(),
        lines@[0]@ == method_name@ + "() failed: "@ + error_text@,
        forall|i: int|
            1 <= i < lines@.len() ==> #[trigger] lines@[i]@ == "  Caused by: "@ + causes@[i
                - 1]@,
{
    let mut lines: Vec<String> = Vec::new();
    lines.push(format_failure_line(method_name, error_text));
    let mut i: usize = 0;
    while i < causes.len()
        invariant
            0 <= i <= causes@.len(),
            lines@.len() == 1 + i,
            lines@[0]@ == method_name@ + "() failed: "@ + error_text@,
            forall|j: int|
                1 <= j < lines@.len() ==> #[trigger] lines@[j]@ == "  Caused by: "@ + causes@[j
                    - 1]@,
        decreases causes@.len() - i,
    {
        let line = format_cause_line(causes[i].as_str());
        lines.push(line);
        i = i + 1;
    }
    lines
}

} // verus!
