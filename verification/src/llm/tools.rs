//! Tools the assistant can call: errors, results, and the registry that
//! holds their descriptions.
use vstd::prelude::*;
use crate::text::{push_str, str_eq, string_of};

pub mod calendar;
pub mod quick_actions;

verus! {

#[verifier::external_type_specification]
#[verifier::external_body]
pub struct ExJsonValue(serde_json::Value);

/// `serde_json::Value` derives `Clone`: the copy is the same JSON value.
pub assume_specification[ <serde_json::Value as Clone>::clone ](v: &serde_json::Value) -> (r: serde_json::Value)
    ensures
        r == *v,
;

#[derive(Debug)]
pub enum ToolError {
    NotFound(String),
    ExecutionFailed(String),
    InvalidParameters(String),
    Timeout(String),
    Cancelled,
}

#[derive(Debug)]
pub enum ToolResult {
    /// Completed, nothing more to say.
    Completed,
    /// Completed, with a message for the model.
    Response(String),
    /// Could not reach the goal; the reason is for the model.
    Escalation(String),
}

/// A tool as offered to the model: its name, what it does, and the JSON
/// schema of its parameters.
#[derive(Debug, Clone)]
pub struct Tool {
    pub name: String,
    pub description: String,
    pub parameters: serde_json::Value,
}

/// The tools whose implementations the registry runs.
#[derive(Debug, Clone, Copy, PartialEq, Eq, Structural)]
pub enum BuiltinTool {
    CurrentTime,
    CurrentDate,
    TellUser,
}

/// The first position in `tools` of a tool named `name`.
pub open spec fn first_named(tools: Seq<Tool>, name: Seq<char>, i: int) -> Option<int>
    decreases tools.len() - i,
{
    if i < 0 || i >= tools.len() {
        None
    } else if tools[i].name@ == name {
        Some(i)
    } else {
        first_named(tools, name, i + 1)
    }
}

proof fn lemma_first_named(tools: Seq<Tool>, name: Seq<char>, i: int)
    requires
        0 <= i,
    ensures
        first_named(tools, name, i) matches Some(k) ==> i <= k < tools.len() && tools[k].name@ == name
            && forall|j: int| i <= j < k ==> tools[j].name@ != name,
        first_named(tools, name, i) is None ==> forall|j: int| i <= j < tools.len() ==> tools[j].name@ != name,
    decreases tools.len() - i,
{
    if i < tools.len() && tools[i].name@ != name {
        lemma_first_named(tools, name, i + 1);
    }
}

/// The tools offered to the model, in the order they were registered.
pub struct ToolRegistry {
    tools: Vec<Tool>,
}

impl ToolRegistry {
    pub closed spec fn spec_tools(&self) -> Seq<Tool> {
        self.tools@
    }

    pub fn new() -> (r: Self)
        ensures
            r.spec_tools().len() == 0,
    {
        Self { tools: Vec::new() }
    }

    /// Adds a tool after those registered before.
    pub fn register_tool(&mut self, tool: Tool)
        ensures
            final(self).spec_tools() == old(self).spec_tools().push(tool),
    {
        self.tools.push(tool);
    }

    /// The registered tools, in order.
    pub fn get_tools(&self) -> (r: &[Tool])
        ensures
            r@ == self.spec_tools(),
    {
        self.tools.as_slice()
    }

    /// The first registered tool named `name`, if any.
    pub fn find_tool(&self, name: &str) -> (r: Option<&Tool>)
        ensures
            match first_named(self.spec_tools(), name@, 0) {
                Some(k) => r == Some(&self.spec_tools()[k]),
                None => r is None,
            },
    {
        proof {
            lemma_first_named(self.tools@, name@, 0);
        }
        let mut i: usize = 0;
        while i < self.tools.len()
            invariant
                i <= self.tools@.len(),
                forall|j: int| 0 <= j < i ==> self.tools@[j].name@ != name@,
                first_named(self.tools@, name@, 0) == first_named(self.tools@, name@, i as int),
            decreases self.tools@.len() - i,
        {
            if str_eq(self.tools[i].name.as_str(), name) {
                return Some(&self.tools[i]);
            }
            i += 1;
        }
        None
    }

    /// The implementation that runs the tool `name`: refused when the call
    /// was cancelled before it started, or when no implementation has that
    /// name.
    pub fn builtin_tool(name: &str, cancelled: bool) -> (r: Result<BuiltinTool, ToolError>)
        ensures
            cancelled ==> r matches Err(ToolError::Cancelled),
            !cancelled && name@ == "get_current_time"@ ==> r == Ok::<BuiltinTool, ToolError>(
                BuiltinTool::CurrentTime,
            ),
            !cancelled && name@ == "get_current_date"@ ==> r == Ok::<BuiltinTool, ToolError>(
                BuiltinTool::CurrentDate,
            ),
            !cancelled && name@ == "tell_user"@ ==> r == Ok::<BuiltinTool, ToolError>(BuiltinTool::TellUser),
            !cancelled && name@ != "get_current_time"@ && name@ != "get_current_date"@ && name@
                != "tell_user"@ ==> (r matches Err(ToolError::NotFound(m)) && m@ == "Tool '"@ + name@
                + "' not found"@),
    {
        if cancelled {
            return Err(ToolError::Cancelled);
        }
        proof {
            reveal_strlit("get_current_time");
            reveal_strlit("get_current_date");
            reveal_strlit("tell_user");
            assert("get_current_time"@[12] != "get_current_date"@[12]);
            assert("get_current_time"@.len() != "tell_user"@.len());
            assert("get_current_date"@.len() != "tell_user"@.len());
        }
        if str_eq(name, "get_current_time") {
            Ok(BuiltinTool::CurrentTime)
        } else if str_eq(name, "get_current_date") {
            Ok(BuiltinTool::CurrentDate)
        } else if str_eq(name, "tell_user") {
            Ok(BuiltinTool::TellUser)
        } else {
            let mut m = string_of("Tool '");
            push_str(&mut m, name);
            push_str(&mut m, "' not found");
            Err(ToolError::NotFound(m))
        }
    }
}

impl Default for ToolRegistry {
    fn default() -> (r: Self)
        ensures
            r.spec_tools().len() == 0,
    {
        Self::new()
    }
}

/// The JSON value that `serde_json::from_str` reads from `text`, or
/// `Value::Null` when `text` is not JSON.
pub uninterp spec fn json_of_text(text: Seq<char>) -> serde_json::Value;

/// The schema of a tool that takes no parameters.
pub const EMPTY_SCHEMA: &'static str = "{\"type\":\"object\",\"properties\":{},\"required\":[]}";

/// The schema of `tell_user`: one required string, the message.
pub const TELL_USER_SCHEMA: &'static str = "{\"type\":\"object\",\"properties\":{\"message\":{\"type\":\"string\",\"description\":\"The final message to speak to the user. Should be natural and conversational.\"}},\"required\":[\"message\"]}";

/// Parses JSON text with `serde_json::from_str`; text that is not JSON
/// gives `Value::Null`. Claimed: the value is [`json_of_text`] of the text.
#[verifier::external_body]
fn json_value(text: &str) -> (r: serde_json::Value)
    ensures
        r == json_of_text(text@),
{
    serde_json::from_str(text).unwrap_or(serde_json::Value::Null)
}

/// The registry with every built-in tool: the current time, the current
/// date, and speaking a final message to the user.
pub fn create_default_registry() -> (r: ToolRegistry)
    ensures
        r.spec_tools().len() == 3,
        r.spec_tools()[0].name@ == "get_current_time"@,
        r.spec_tools()[0].description@ == "Get the current time in a human-readable format"@,
        r.spec_tools()[0].parameters == json_of_text(EMPTY_SCHEMA@),
        r.spec_tools()[1].parameters == json_of_text(EMPTY_SCHEMA@),
        r.spec_tools()[2].parameters == json_of_text(TELL_USER_SCHEMA@),
        r.spec_tools()[1].name@ == "get_current_date"@,
        r.spec_tools()[1].description@ == "Get the current date in a human-readable format"@,
        r.spec_tools()[2].name@ == "tell_user"@,
        r.spec_tools()[2].description@
            == "Send a message to the user via text-to-speech. This ends the conversation - use only when you have a final response for the user."@,
{
    let mut registry = ToolRegistry::new();
    registry.register_tool(
        Tool {
            name: string_of("get_current_time"),
            description: string_of("Get the current time in a human-readable format"),
            parameters: json_value(EMPTY_SCHEMA),
        },
    );
    registry.register_tool(
        Tool {
            name: string_of("get_current_date"),
            description: string_of("Get the current date in a human-readable format"),
            parameters: json_value(EMPTY_SCHEMA),
        },
    );
    registry.register_tool(
        Tool {
            name: string_of("tell_user"),
            description: string_of(
                "Send a message to the user via text-to-speech. This ends the conversation - use only when you have a final response for the user.",
            ),
            parameters: json_value(TELL_USER_SCHEMA),
        },
    );
    registry
}

} // verus!
