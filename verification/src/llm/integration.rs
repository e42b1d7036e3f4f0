//! Errors of the LLM integration.
use vstd::prelude::*;
use crate::llm::tools::ToolError;

verus! {

#[derive(Debug)]
pub enum IntegrationError {
    Tool(ToolError),
    Config(String),
    Cancelled,
}

impl From<ToolError> for IntegrationError {
    fn from(err: ToolError) -> (r: Self) {
        IntegrationError::Tool(err)
    }
}

impl vstd::std_specs::convert::FromSpecImpl<ToolError> for IntegrationError {
    open spec fn obeys_from_spec() -> bool {
        true
    }

    open spec fn from_spec(v: ToolError) -> IntegrationError {
        IntegrationError::Tool(v)
    }
}

} // verus!
