use vstd::prelude::*;

verus! {

/// What the server tells a client that connects: how to use it.
pub const SERVER_INSTRUCTIONS: &'static str = "Policy Engine MCP server — evaluate, validate, and explain policy rules written in the policy DSL. Use evaluate_rules to run rules against data, validate_rule to check syntax, list_operators to see all supported operators, and explain_rule to understand the structure of a rule.";

/// The policy server: it offers the tools `evaluate_rules`, `validate_rule`,
/// `list_operators` and `explain_rule`.
#[derive(Clone)]
pub struct PolicyTools;

/// What the server announces about itself: its instructions, and whether it
/// offers tools. Everything else it announces is the protocol's default.
pub struct ServerProfile {
    pub instructions: Option<String>,
    pub tools_enabled: bool,
}

/// The text of a reply whose answer could not be written as JSON:
/// `{"error":"<message>"}`, the message inserted as it is.
pub open spec fn error_reply(message: Seq<char>) -> Seq<char> {
    "{\"error\":\""@ + message + "\"}"@
}

impl PolicyTools {
    /// What the server announces: its instructions, with tools enabled.
    pub fn get_info(&self) -> (profile: ServerProfile)
        ensures
            profile.instructions.deep_view() == Some(SERVER_INSTRUCTIONS@),
            profile.tools_enabled,
    {
        ServerProfile {
            instructions: Some(String::from_str(SERVER_INSTRUCTIONS)),
            tools_enabled: true,
        }
    }

    /// The text a tool replies with, given the JSON text of its answer or the
    /// message of the error that writing it raised.
    pub fn reply(serialized: Result<String, String>) -> (text: String)
        ensures
            match serialized {
                Ok(json) => text@ == json@,
                Err(message) => text@ == error_reply(message@),
            },
            serialized matches Err(message) ==> text@ == "{\"error\":\""@ + message@ + "\"}"@,
    {
        match serialized {
            Ok(json) => json,
            Err(message) => {
                let mut text = String::from_str("{\"error\":\"");
                text.append(message.as_str());
                text.append("\"}");
                text
            },
        }
    }
}

} // verus!
