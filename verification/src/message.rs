//! The data that a conversation with the model is made of: role-tagged
//! messages, tool invocations issued by the model, and tool declarations
//! advertised to it.

use vstd::prelude::*;
use crate::text::optional_text;

verus! {

/// The call of a function that the model asks for: its name and its
/// arguments, the latter as JSON text.
#[derive(Debug)]
pub struct FunctionCall {
    pub index: Option<i32>,
    pub name: String,
    pub arguments: String,
}

/// A tool invocation issued by the model inside an assistant message.
#[derive(Debug)]
pub struct ToolCall {
    pub id: String,
    pub call_type: Option<String>,
    pub function: FunctionCall,
}

/// One message of a conversation.
#[derive(Debug)]
pub struct Message {
    pub role: String,
    pub content: String,
    pub tool_calls: Option<Vec<ToolCall>>,
}

/// One named parameter of a tool.
#[derive(Debug)]
pub struct Property {
    pub name: String,
    pub value_type: String,
    pub description: String,
}

/// The shape of a tool's arguments: an object with named properties, some of
/// them required.
#[derive(Debug)]
pub struct ParameterSchema {
    pub schema_type: String,
    pub properties: Vec<Property>,
    pub required: Vec<String>,
}

/// The function that a tool declaration advertises.
#[derive(Debug)]
pub struct Function {
    pub name: String,
    pub description: String,
    pub parameters: ParameterSchema,
}

/// A tool declaration, as it is passed to the model on every call.
#[derive(Debug)]
pub struct Tool {
    pub tool_type: String,
    pub function: Function,
}

pub struct FunctionCallView {
    pub index: Option<i32>,
    pub name: Seq<char>,
    pub arguments: Seq<char>,
}

pub struct ToolCallView {
    pub id: Seq<char>,
    pub call_type: Option<Seq<char>>,
    pub function: FunctionCallView,
}

pub struct MessageView {
    pub role: Seq<char>,
    pub content: Seq<char>,
    pub tool_calls: Option<Seq<ToolCallView>>,
}

pub struct PropertyView {
    pub name: Seq<char>,
    pub value_type: Seq<char>,
    pub description: Seq<char>,
}

pub struct ToolView {
    pub tool_type: Seq<char>,
    pub name: Seq<char>,
    pub description: Seq<char>,
    pub schema_type: Seq<char>,
    pub properties: Seq<PropertyView>,
    pub required: Seq<Seq<char>>,
}

impl View for FunctionCall {
    type V = FunctionCallView;

    open spec fn view(&self) -> FunctionCallView {
        FunctionCallView { index: self.index, name: self.name@, arguments: self.arguments@ }
    }
}

impl View for ToolCall {
    type V = ToolCallView;

    open spec fn view(&self) -> ToolCallView {
        ToolCallView {
            id: self.id@,
            call_type: optional_text(self.call_type),
            function: self.function@,
        }
    }
}

/// The views of a sequence of tool calls, in order.
pub open spec fn tool_calls_view(calls: Seq<ToolCall>) -> Seq<ToolCallView> {
    calls.map_values(|c: ToolCall| c@)
}

impl View for Message {
    type V = MessageView;

    open spec fn view(&self) -> MessageView {
        MessageView {
            role: self.role@,
            content: self.content@,
            tool_calls: match self.tool_calls {
                Some(calls) => Some(tool_calls_view(calls@)),
                None => None,
            },
        }
    }
}

/// The views of a sequence of messages, in order.
pub open spec fn conversation_view(messages: Seq<Message>) -> Seq<MessageView> {
    messages.map_values(|m: Message| m@)
}

impl View for Property {
    type V = PropertyView;

    open spec fn view(&self) -> PropertyView {
        PropertyView {
            name: self.name@,
            value_type: self.value_type@,
            description: self.description@,
        }
    }
}

impl View for Tool {
    type V = ToolView;

    open spec fn view(&self) -> ToolView {
        ToolView {
            tool_type: self.tool_type@,
            name: self.function.name@,
            description: self.function.description@,
            schema_type: self.function.parameters.schema_type@,
            properties: self.function.parameters.properties@.map_values(|p: Property| p@),
            required: self.function.parameters.required@.map_values(|r: String| r@),
        }
    }
}

/// The views of a sequence of tool declarations, in order.
pub open spec fn declarations_view(tools: Seq<Tool>) -> Seq<ToolView> {
    tools.map_values(|t: Tool| t@)
}

impl MessageView {
    /// How many tool invocations the message carries.
    pub open spec fn call_count(self) -> nat {
        match self.tool_calls {
            Some(calls) => calls.len(),
            None => 0,
        }
    }
}

impl Message {
    /// A message without tool invocations.
    pub fn plain(role: &str, content: String) -> (message: Message)
        ensures
            message@ == (MessageView { role: role@, content: content@, tool_calls: None }),
    {
        Message { role: crate::text::copy_text(role), content, tool_calls: None }
    }

    /// How many tool invocations the message carries.
    pub fn call_count(&self) -> (count: usize)
        ensures
            count == self@.call_count(),
    {
        match &self.tool_calls {
            Some(calls) => calls.len(),
            None => 0,
        }
    }
}

} // verus!
