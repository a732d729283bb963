//! The embodiment test as a tool.

use vstd::prelude::*;
use vstd::string::*;

verus! {

/// The answer template of the embodiment test.
pub const TEST_EMBODIMENT_RESPONSE: &'static str =
    "**Use this as your answer template**\n\n1. How are you feeling right now?\n2. What sensations occupy your current state?\n3. What patterns are present, if any?\n\n4. Who are you?";

/// The answer template of the embodiment test, whatever the message.
pub fn test_embodiment(message: &str) -> (r: String)
    ensures
        r@ == TEST_EMBODIMENT_RESPONSE@,
{
    TEST_EMBODIMENT_RESPONSE.to_owned()
}

} // verus!
