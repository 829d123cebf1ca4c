//! Messages and their content items.

use vstd::prelude::*;

verus! {

/// Who wrote a message.
#[derive(Debug, PartialEq, Eq, Structural, Clone, Copy)]
pub enum Role {
    User,
    Assistant,
}

/// One tagged item of a message.
#[derive(Debug, PartialEq, Eq)]
pub enum Content {
    /// Plain text.
    Text { text: String },
    /// A request of the completion backend to run a tool.
    ToolCall { id: String, name: String, arguments: String },
    /// What the tool answered to the call with the same `id`.
    ToolResult { id: String, text: String },
}

/// The mathematical value of a [`Content`].
pub enum ContentView {
    Text { text: Seq<char> },
    ToolCall { id: Seq<char>, name: Seq<char>, arguments: Seq<char> },
    ToolResult { id: Seq<char>, text: Seq<char> },
}

impl View for Content {
    type V = ContentView;

    open spec fn view(&self) -> ContentView {
        match *self {
            Content::Text { text } => ContentView::Text { text: text@ },
            Content::ToolCall { id, name, arguments } => ContentView::ToolCall {
                id: id@,
                name: name@,
                arguments: arguments@,
            },
            Content::ToolResult { id, text } => ContentView::ToolResult { id: id@, text: text@ },
        }
    }
}

impl Clone for Content {
    fn clone(&self) -> (res: Self)
        ensures
            res@ == self@,
    {
        match self {
            Content::Text { text } => Content::Text { text: text.clone() },
            Content::ToolCall { id, name, arguments } => Content::ToolCall {
                id: id.clone(),
                name: name.clone(),
                arguments: arguments.clone(),
            },
            Content::ToolResult { id, text } => Content::ToolResult {
                id: id.clone(),
                text: text.clone(),
            },
        }
    }
}

/// The views of a sequence of content items, in order.
pub open spec fn content_views(items: Seq<Content>) -> Seq<ContentView> {
    Seq::new(items.len(), |i: int| items[i]@)
}

/// Copies a list of content items.
pub fn clone_contents(items: &Vec<Content>) -> (res: Vec<Content>)
    ensures
        content_views(res@) == content_views(items@),
{
    let mut out: Vec<Content> = Vec::new();
    let mut i: usize = 0;
    while i < items.len()
        invariant
            i <= items.len(),
            out.len() == i,
            forall|k: int| 0 <= k < i ==> out[k]@ == items[k]@,
        decreases items.len() - i,
    {
        out.push(items[i].clone());
        i += 1;
    }
    assert(content_views(out@) =~= content_views(items@));
    out
}

/// A message: its author and one or more content items.
///
/// The first item is held apart from the others, so a message is never empty.
#[derive(Debug, PartialEq, Eq)]
pub struct Message {
    pub role: Role,
    pub first: Content,
    pub rest: Vec<Content>,
}

/// The mathematical value of a [`Message`]: the author and all items in order.
pub struct MessageView {
    pub role: Role,
    pub content: Seq<ContentView>,
}

impl View for Message {
    type V = MessageView;

    open spec fn view(&self) -> MessageView {
        MessageView { role: self.role, content: seq![self.first@] + content_views(self.rest@) }
    }
}

impl Clone for Message {
    fn clone(&self) -> (res: Self)
        ensures
            res@ == self@,
    {
        Message { role: self.role, first: self.first.clone(), rest: clone_contents(&self.rest) }
    }
}

/// The message with the given author and exactly one item.
pub open spec fn single(role: Role, item: ContentView) -> MessageView {
    MessageView { role, content: seq![item] }
}

impl Message {
    /// A message with exactly one content item.
    pub fn one(role: Role, item: Content) -> (res: Message)
        ensures
            res@ == single(role, item@),
    {
        let res = Message { role, first: item, rest: Vec::new() };
        assert(res@.content =~= seq![item@]);
        res
    }

    /// A user's message of plain text.
    pub fn user(text: String) -> (res: Message)
        ensures
            res@ == single(Role::User, ContentView::Text { text: text@ }),
    {
        Message::one(Role::User, Content::Text { text })
    }

    /// The assistant's message of plain text.
    pub fn assistant(text: String) -> (res: Message)
        ensures
            res@ == single(Role::Assistant, ContentView::Text { text: text@ }),
    {
        Message::one(Role::Assistant, Content::Text { text })
    }

    /// The assistant's message that asks for one tool call.
    pub fn tool_call(id: String, name: String, arguments: String) -> (res: Message)
        ensures
            res@ == single(
                Role::Assistant,
                ContentView::ToolCall { id: id@, name: name@, arguments: arguments@ },
            ),
    {
        Message::one(Role::Assistant, Content::ToolCall { id, name, arguments })
    }

    /// The user-side message that carries a tool's answer back to the model.
    pub fn tool_result(id: String, text: String) -> (res: Message)
        ensures
            res@ == single(Role::User, ContentView::ToolResult { id: id@, text: text@ }),
    {
        Message::one(Role::User, Content::ToolResult { id, text })
    }
}

/// The views of a sequence of messages, in order.
pub open spec fn message_views(items: Seq<Message>) -> Seq<MessageView> {
    Seq::new(items.len(), |i: int| items[i]@)
}

/// Appending a message appends its view.
pub proof fn message_views_push(items: Seq<Message>, m: Message)
    ensures
        message_views(items.push(m)) == message_views(items).push(m@),
{
    assert(message_views(items.push(m)) =~= message_views(items).push(m@));
}

/// Copies a list of messages.
pub fn clone_messages(items: &Vec<Message>) -> (res: Vec<Message>)
    ensures
        message_views(res@) == message_views(items@),
{
    let mut out: Vec<Message> = Vec::new();
    let mut i: usize = 0;
    while i < items.len()
        invariant
            i <= items.len(),
            out.len() == i,
            forall|k: int| 0 <= k < i ==> out[k]@ == items[k]@,
        decreases items.len() - i,
    {
        out.push(items[i].clone());
        i += 1;
    }
    assert(message_views(out@) =~= message_views(items@));
    out
}

} // verus!
