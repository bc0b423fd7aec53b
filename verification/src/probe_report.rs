//! The message shown when the renderer probe's output does not match the
//! bundled reference image.
use vstd::prelude::*;

use crate::text::{decimal, u64_to_decimal};

verus! {

/// `items` separated by `sep`.
pub open spec fn join(items: Seq<Seq<char>>, sep: Seq<char>) -> Seq<char>
    decreases items.len(),
{
    if items.len() == 0 {
        seq![]
    } else if items.len() == 1 {
        items[0]
    } else {
        join(items.drop_last(), sep) + sep + items.last()
    }
}

/// The views of a list of strings.
pub open spec fn strings_view(items: Seq<String>) -> Seq<Seq<char>> {
    items.map_values(|s: String| s@)
}

/// The message for a probe mismatch: the features whose cells differ, or,
/// when none can be isolated, the expected and actual image sizes.
pub open spec fn spec_probe_mismatch_message(
    failing_features: Seq<Seq<char>>,
    expected_width: u32,
    expected_height: u32,
    actual_width: u32,
    actual_height: u32,
) -> Seq<char> {
    if failing_features.len() == 0 {
        "Probe output did not match the bundled reference; failing features could not be isolated (expected "@
            + decimal(expected_width as nat) + "x"@ + decimal(expected_height as nat)
            + ", actual "@ + decimal(actual_width as nat) + "x"@ + decimal(actual_height as nat)
            + ")"@
    } else {
        "Probe output did not match the bundled reference; failing features: "@ + join(
            failing_features,
            ", "@,
        )
    }
}

/// Joins `items` with `sep`.
pub fn join_strings(items: &Vec<String>, sep: &str) -> (r: String)
    ensures
        r@ == join(strings_view(items@), sep@),
{
    let mut out = String::new();
    let mut i: usize = 0;
    while i < items.len()
        invariant
            i <= items@.len(),
            out@ == join(strings_view(items@.take(i as int)), sep@),
        decreases items@.len() - i,
    {
        let ghost before = out@;
        if i > 0 {
            out.append(sep);
        }
        out.append(items[i].as_str());
        proof {
            let prefix = strings_view(items@.take(i as int));
            let next = strings_view(items@.take(i + 1));
            assert(next.drop_last() =~= prefix);
            assert(next.last() == items@[i as int]@);
            if i == 0 {
                assert(next =~= seq![items@[0]@]);
            }
        }
        i = i + 1;
    }
    assert(items@.take(items@.len() as int) =~= items@);
    out
}

/// Describes a probe mismatch from the names of the failing features and the
/// sizes of the expected and actual images.
pub fn probe_mismatch_message(
    failing_features: &Vec<String>,
    expected_width: u32,
    expected_height: u32,
    actual_width: u32,
    actual_height: u32,
) -> (r: String)
    ensures
        r@ == spec_probe_mismatch_message(
            strings_view(failing_features@),
            expected_width,
            expected_height,
            actual_width,
            actual_height,
        ),
{
    if failing_features.len() == 0 {
        let mut message = String::from_str(
            "Probe output did not match the bundled reference; failing features could not be isolated (expected ",
        );
        message.append(u64_to_decimal(expected_width as u64).as_str());
        message.append("x");
        message.append(u64_to_decimal(expected_height as u64).as_str());
        message.append(", actual ");
        message.append(u64_to_decimal(actual_width as u64).as_str());
        message.append("x");
        message.append(u64_to_decimal(actual_height as u64).as_str());
        message.append(")");
        message
    } else {
        let mut message = String::from_str(
            "Probe output did not match the bundled reference; failing features: ",
        );
        message.append(join_strings(failing_features, ", ").as_str());
        message
    }
}

} // verus!
