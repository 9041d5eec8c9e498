use vstd::prelude::*;

pub mod dynamic_agg;
pub mod media;
pub mod names;
pub mod simple_agg;
pub mod templates;
mod text;

verus! {

/// Errors that the aggregators report to the streaming thread.
#[derive(Debug, Clone, Copy, PartialEq, Eq, Structural)]
pub enum FlowError {
    /// Output caps cannot be negotiated yet.
    NotNegotiated,
    /// A buffer could not be processed.
    Error,
}

/// Ends a request for source caps: the caps converted from the stored video
/// description, or `NotNegotiated` where the conversion failed.
pub fn src_caps_from_conversion<Caps>(converted: Option<Caps>) -> (r: Result<Caps, FlowError>)
    ensures
        match converted {
            Some(c) => r == Ok::<Caps, FlowError>(c),
            None => r == Err::<Caps, FlowError>(FlowError::NotNegotiated),
        },
{
    match converted {
        Some(c) => Ok(c),
        None => Err(FlowError::NotNegotiated),
    }
}

} // verus!
