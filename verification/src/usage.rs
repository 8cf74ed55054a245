use vstd::prelude::*;

use crate::errors::ProviderError;

verus! {

/// Token counts reported by the endpoint for one call.
#[derive(Clone, Copy, PartialEq, Eq, Structural, Debug)]
pub struct Usage {
    pub input_tokens: u64,
    pub output_tokens: u64,
    pub total_tokens: u64,
}

impl Default for Usage {
    /// The zero-valued record substituted when none could be read.
    fn default() -> (u: Usage)
        ensures
            u == (Usage { input_tokens: 0, output_tokens: 0, total_tokens: 0 }),
    {
        Usage { input_tokens: 0, output_tokens: 0, total_tokens: 0 }
    }
}

/// A missing usage record never fails a call: a zero-valued record stands
/// in for it. Any other error propagates, and a read record is kept as is.
pub fn usage_or_zero(r: Result<Usage, ProviderError>) -> (out: Result<Usage, ProviderError>)
    ensures
        r matches Result::Ok(u) ==> out == Result::<Usage, ProviderError>::Ok(u),
        r matches Result::Err(e) ==> match e {
            ProviderError::UsageUnavailable(_) => out == Result::<Usage, ProviderError>::Ok(
                Usage { input_tokens: 0, output_tokens: 0, total_tokens: 0 },
            ),
            _ => out == Result::<Usage, ProviderError>::Err(e),
        },
{
    match r {
        Result::Ok(u) => Result::Ok(u),
        Result::Err(e) => match e {
            ProviderError::UsageUnavailable(_) => Result::Ok(
                Usage { input_tokens: 0, output_tokens: 0, total_tokens: 0 },
            ),
            other => Result::Err(other),
        },
    }
}

} // verus!
