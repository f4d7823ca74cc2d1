//! The `telividb.conversation.v1.Conversations` service.
use crate::text::same_text;
use vstd::prelude::*;

verus! {

/// The service's fully qualified name.
pub const SERVICE_NAME: &'static str = "telividb.conversation.v1.Conversations";

/// A method of the `telividb.conversation.v1.Conversations` service.
#[derive(Debug, Clone, Copy, PartialEq, Eq, Structural)]
pub enum ConversationsMethod {
    /// Create a conversation.
    CreateConversation,
    /// Retrieve a single conversation.
    GetConversation,
    /// List conversations, filtered by space, session or project.
    ListConversations,
    /// Move a conversation into another session, and so into another space.
    MoveConversation,
    /// Exclude a conversation from ordinary recall without deleting it.
    SuppressConversation,
    /// Return a suppressed conversation to ordinary recall.
    UnsuppressConversation,
    /// Soft-delete a conversation and the messages beneath it.
    DeleteConversation,
    /// Append a message, branching where the request says to.
    CreateMessage,
    /// Retrieve a single message.
    GetMessage,
    /// List the messages of a conversation, every branch by default.
    ListMessages,
    /// Retrieve a single tool invocation.
    GetToolInvocation,
    /// List the tool invocations of a conversation.
    ListToolInvocations,
    /// Retrieve a single summary.
    GetSummary,
    /// List summaries, filtered by subject and level.
    ListSummaries,
}

/// The request path a method is called at.
pub open spec fn conversations_path(m: ConversationsMethod) -> Seq<char> {
    match m {
        ConversationsMethod::CreateConversation => "/telividb.conversation.v1.Conversations/CreateConversation"@,
        ConversationsMethod::GetConversation => "/telividb.conversation.v1.Conversations/GetConversation"@,
        ConversationsMethod::ListConversations => "/telividb.conversation.v1.Conversations/ListConversations"@,
        ConversationsMethod::MoveConversation => "/telividb.conversation.v1.Conversations/MoveConversation"@,
        ConversationsMethod::SuppressConversation => "/telividb.conversation.v1.Conversations/SuppressConversation"@,
        ConversationsMethod::UnsuppressConversation => "/telividb.conversation.v1.Conversations/UnsuppressConversation"@,
        ConversationsMethod::DeleteConversation => "/telividb.conversation.v1.Conversations/DeleteConversation"@,
        ConversationsMethod::CreateMessage => "/telividb.conversation.v1.Conversations/CreateMessage"@,
        ConversationsMethod::GetMessage => "/telividb.conversation.v1.Conversations/GetMessage"@,
        ConversationsMethod::ListMessages => "/telividb.conversation.v1.Conversations/ListMessages"@,
        ConversationsMethod::GetToolInvocation => "/telividb.conversation.v1.Conversations/GetToolInvocation"@,
        ConversationsMethod::ListToolInvocations => "/telividb.conversation.v1.Conversations/ListToolInvocations"@,
        ConversationsMethod::GetSummary => "/telividb.conversation.v1.Conversations/GetSummary"@,
        ConversationsMethod::ListSummaries => "/telividb.conversation.v1.Conversations/ListSummaries"@,
    }
}

/// The method a request path selects, if any.
pub open spec fn conversations_route(path: Seq<char>) -> Option<ConversationsMethod> {
    if path == conversations_path(ConversationsMethod::CreateConversation) {
        Some(ConversationsMethod::CreateConversation)
    } else if path == conversations_path(ConversationsMethod::GetConversation) {
        Some(ConversationsMethod::GetConversation)
    } else if path == conversations_path(ConversationsMethod::ListConversations) {
        Some(ConversationsMethod::ListConversations)
    } else if path == conversations_path(ConversationsMethod::MoveConversation) {
        Some(ConversationsMethod::MoveConversation)
    } else if path == conversations_path(ConversationsMethod::SuppressConversation) {
        Some(ConversationsMethod::SuppressConversation)
    } else if path == conversations_path(ConversationsMethod::UnsuppressConversation) {
        Some(ConversationsMethod::UnsuppressConversation)
    } else if path == conversations_path(ConversationsMethod::DeleteConversation) {
        Some(ConversationsMethod::DeleteConversation)
    } else if path == conversations_path(ConversationsMethod::CreateMessage) {
        Some(ConversationsMethod::CreateMessage)
    } else if path == conversations_path(ConversationsMethod::GetMessage) {
        Some(ConversationsMethod::GetMessage)
    } else if path == conversations_path(ConversationsMethod::ListMessages) {
        Some(ConversationsMethod::ListMessages)
    } else if path == conversations_path(ConversationsMethod::GetToolInvocation) {
        Some(ConversationsMethod::GetToolInvocation)
    } else if path == conversations_path(ConversationsMethod::ListToolInvocations) {
        Some(ConversationsMethod::ListToolInvocations)
    } else if path == conversations_path(ConversationsMethod::GetSummary) {
        Some(ConversationsMethod::GetSummary)
    } else if path == conversations_path(ConversationsMethod::ListSummaries) {
        Some(ConversationsMethod::ListSummaries)
    } else {
        None
    }
}

impl ConversationsMethod {
    /// The request path this method is called at.
    pub fn path(self) -> (path: &'static str)
        ensures
            path@ == conversations_path(self),
    {
        match self {
            ConversationsMethod::CreateConversation => "/telividb.conversation.v1.Conversations/CreateConversation",
            ConversationsMethod::GetConversation => "/telividb.conversation.v1.Conversations/GetConversation",
            ConversationsMethod::ListConversations => "/telividb.conversation.v1.Conversations/ListConversations",
            ConversationsMethod::MoveConversation => "/telividb.conversation.v1.Conversations/MoveConversation",
            ConversationsMethod::SuppressConversation => "/telividb.conversation.v1.Conversations/SuppressConversation",
            ConversationsMethod::UnsuppressConversation => "/telividb.conversation.v1.Conversations/UnsuppressConversation",
            ConversationsMethod::DeleteConversation => "/telividb.conversation.v1.Conversations/DeleteConversation",
            ConversationsMethod::CreateMessage => "/telividb.conversation.v1.Conversations/CreateMessage",
            ConversationsMethod::GetMessage => "/telividb.conversation.v1.Conversations/GetMessage",
            ConversationsMethod::ListMessages => "/telividb.conversation.v1.Conversations/ListMessages",
            ConversationsMethod::GetToolInvocation => "/telividb.conversation.v1.Conversations/GetToolInvocation",
            ConversationsMethod::ListToolInvocations => "/telividb.conversation.v1.Conversations/ListToolInvocations",
            ConversationsMethod::GetSummary => "/telividb.conversation.v1.Conversations/GetSummary",
            ConversationsMethod::ListSummaries => "/telividb.conversation.v1.Conversations/ListSummaries",
        }
    }

    /// The method a request path selects; `None` is answered `UNIMPLEMENTED`.
    pub fn route(path: &str) -> (method: Option<ConversationsMethod>)
        ensures
            method == conversations_route(path@),
    {
        if same_text(path, ConversationsMethod::CreateConversation.path()) {
            Some(ConversationsMethod::CreateConversation)
        } else if same_text(path, ConversationsMethod::GetConversation.path()) {
            Some(ConversationsMethod::GetConversation)
        } else if same_text(path, ConversationsMethod::ListConversations.path()) {
            Some(ConversationsMethod::ListConversations)
        } else if same_text(path, ConversationsMethod::MoveConversation.path()) {
            Some(ConversationsMethod::MoveConversation)
        } else if same_text(path, ConversationsMethod::SuppressConversation.path()) {
            Some(ConversationsMethod::SuppressConversation)
        } else if same_text(path, ConversationsMethod::UnsuppressConversation.path()) {
            Some(ConversationsMethod::UnsuppressConversation)
        } else if same_text(path, ConversationsMethod::DeleteConversation.path()) {
            Some(ConversationsMethod::DeleteConversation)
        } else if same_text(path, ConversationsMethod::CreateMessage.path()) {
            Some(ConversationsMethod::CreateMessage)
        } else if same_text(path, ConversationsMethod::GetMessage.path()) {
            Some(ConversationsMethod::GetMessage)
        } else if same_text(path, ConversationsMethod::ListMessages.path()) {
            Some(ConversationsMethod::ListMessages)
        } else if same_text(path, ConversationsMethod::GetToolInvocation.path()) {
            Some(ConversationsMethod::GetToolInvocation)
        } else if same_text(path, ConversationsMethod::ListToolInvocations.path()) {
            Some(ConversationsMethod::ListToolInvocations)
        } else if same_text(path, ConversationsMethod::GetSummary.path()) {
            Some(ConversationsMethod::GetSummary)
        } else if same_text(path, ConversationsMethod::ListSummaries.path()) {
            Some(ConversationsMethod::ListSummaries)
        } else {
            None
        }
    }
}

/// A client and a server agree: the path a method is called at routes back
/// to that same method.
pub proof fn conversations_paths_route_back(m: ConversationsMethod)
    ensures
        conversations_route(conversations_path(m)) == Some(m),
{
    reveal_strlit("/telividb.conversation.v1.Conversations/CreateConversation");
    reveal_strlit("/telividb.conversation.v1.Conversations/GetConversation");
    reveal_strlit("/telividb.conversation.v1.Conversations/ListConversations");
    reveal_strlit("/telividb.conversation.v1.Conversations/MoveConversation");
    reveal_strlit("/telividb.conversation.v1.Conversations/SuppressConversation");
    reveal_strlit("/telividb.conversation.v1.Conversations/UnsuppressConversation");
    reveal_strlit("/telividb.conversation.v1.Conversations/DeleteConversation");
    reveal_strlit("/telividb.conversation.v1.Conversations/CreateMessage");
    reveal_strlit("/telividb.conversation.v1.Conversations/GetMessage");
    reveal_strlit("/telividb.conversation.v1.Conversations/ListMessages");
    reveal_strlit("/telividb.conversation.v1.Conversations/GetToolInvocation");
    reveal_strlit("/telividb.conversation.v1.Conversations/ListToolInvocations");
    reveal_strlit("/telividb.conversation.v1.Conversations/GetSummary");
    reveal_strlit("/telividb.conversation.v1.Conversations/ListSummaries");
    assert(conversations_path(ConversationsMethod::CreateConversation).len() == 58);
    assert(conversations_path(ConversationsMethod::GetConversation).len() == 55);
    assert(conversations_path(ConversationsMethod::ListConversations).len() == 57);
    assert(conversations_path(ConversationsMethod::MoveConversation).len() == 56);
    assert(conversations_path(ConversationsMethod::SuppressConversation).len() == 60);
    assert(conversations_path(ConversationsMethod::UnsuppressConversation).len() == 62);
    assert(conversations_path(ConversationsMethod::DeleteConversation).len() == 58);
    assert(conversations_path(ConversationsMethod::CreateMessage).len() == 53);
    assert(conversations_path(ConversationsMethod::GetMessage).len() == 50);
    assert(conversations_path(ConversationsMethod::ListMessages).len() == 52);
    assert(conversations_path(ConversationsMethod::GetToolInvocation).len() == 57);
    assert(conversations_path(ConversationsMethod::ListToolInvocations).len() == 59);
    assert(conversations_path(ConversationsMethod::GetSummary).len() == 50);
    assert(conversations_path(ConversationsMethod::ListSummaries).len() == 53);
    assert(conversations_path(ConversationsMethod::CreateConversation)[40] != conversations_path(ConversationsMethod::DeleteConversation)[40]);
    assert(conversations_path(ConversationsMethod::ListConversations)[40] != conversations_path(ConversationsMethod::GetToolInvocation)[40]);
    assert(conversations_path(ConversationsMethod::CreateMessage)[40] != conversations_path(ConversationsMethod::ListSummaries)[40]);
    assert(conversations_path(ConversationsMethod::GetMessage)[43] != conversations_path(ConversationsMethod::GetSummary)[43]);
}

/// Every method is called at `/telividb.conversation.v1.Conversations/` followed by its own name:
/// no two methods trade paths, and each path routes to its own method.
pub proof fn conversations_paths_name_their_methods()
    ensures
        conversations_path(ConversationsMethod::CreateConversation) == "/telividb.conversation.v1.Conversations/CreateConversation"@,
        conversations_path(ConversationsMethod::GetConversation) == "/telividb.conversation.v1.Conversations/GetConversation"@,
        conversations_path(ConversationsMethod::ListConversations) == "/telividb.conversation.v1.Conversations/ListConversations"@,
        conversations_path(ConversationsMethod::MoveConversation) == "/telividb.conversation.v1.Conversations/MoveConversation"@,
        conversations_path(ConversationsMethod::SuppressConversation) == "/telividb.conversation.v1.Conversations/SuppressConversation"@,
        conversations_path(ConversationsMethod::UnsuppressConversation) == "/telividb.conversation.v1.Conversations/UnsuppressConversation"@,
        conversations_path(ConversationsMethod::DeleteConversation) == "/telividb.conversation.v1.Conversations/DeleteConversation"@,
        conversations_path(ConversationsMethod::CreateMessage) == "/telividb.conversation.v1.Conversations/CreateMessage"@,
        conversations_path(ConversationsMethod::GetMessage) == "/telividb.conversation.v1.Conversations/GetMessage"@,
        conversations_path(ConversationsMethod::ListMessages) == "/telividb.conversation.v1.Conversations/ListMessages"@,
        conversations_path(ConversationsMethod::GetToolInvocation) == "/telividb.conversation.v1.Conversations/GetToolInvocation"@,
        conversations_path(ConversationsMethod::ListToolInvocations) == "/telividb.conversation.v1.Conversations/ListToolInvocations"@,
        conversations_path(ConversationsMethod::GetSummary) == "/telividb.conversation.v1.Conversations/GetSummary"@,
        conversations_path(ConversationsMethod::ListSummaries) == "/telividb.conversation.v1.Conversations/ListSummaries"@,
        conversations_route("/telividb.conversation.v1.Conversations/CreateConversation"@) == Some(ConversationsMethod::CreateConversation),
        conversations_route("/telividb.conversation.v1.Conversations/GetConversation"@) == Some(ConversationsMethod::GetConversation),
        conversations_route("/telividb.conversation.v1.Conversations/ListConversations"@) == Some(ConversationsMethod::ListConversations),
        conversations_route("/telividb.conversation.v1.Conversations/MoveConversation"@) == Some(ConversationsMethod::MoveConversation),
        conversations_route("/telividb.conversation.v1.Conversations/SuppressConversation"@) == Some(ConversationsMethod::SuppressConversation),
        conversations_route("/telividb.conversation.v1.Conversations/UnsuppressConversation"@) == Some(ConversationsMethod::UnsuppressConversation),
        conversations_route("/telividb.conversation.v1.Conversations/DeleteConversation"@) == Some(ConversationsMethod::DeleteConversation),
        conversations_route("/telividb.conversation.v1.Conversations/CreateMessage"@) == Some(ConversationsMethod::CreateMessage),
        conversations_route("/telividb.conversation.v1.Conversations/GetMessage"@) == Some(ConversationsMethod::GetMessage),
        conversations_route("/telividb.conversation.v1.Conversations/ListMessages"@) == Some(ConversationsMethod::ListMessages),
        conversations_route("/telividb.conversation.v1.Conversations/GetToolInvocation"@) == Some(ConversationsMethod::GetToolInvocation),
        conversations_route("/telividb.conversation.v1.Conversations/ListToolInvocations"@) == Some(ConversationsMethod::ListToolInvocations),
        conversations_route("/telividb.conversation.v1.Conversations/GetSummary"@) == Some(ConversationsMethod::GetSummary),
        conversations_route("/telividb.conversation.v1.Conversations/ListSummaries"@) == Some(ConversationsMethod::ListSummaries),
{
    conversations_paths_route_back(ConversationsMethod::CreateConversation);
    conversations_paths_route_back(ConversationsMethod::GetConversation);
    conversations_paths_route_back(ConversationsMethod::ListConversations);
    conversations_paths_route_back(ConversationsMethod::MoveConversation);
    conversations_paths_route_back(ConversationsMethod::SuppressConversation);
    conversations_paths_route_back(ConversationsMethod::UnsuppressConversation);
    conversations_paths_route_back(ConversationsMethod::DeleteConversation);
    conversations_paths_route_back(ConversationsMethod::CreateMessage);
    conversations_paths_route_back(ConversationsMethod::GetMessage);
    conversations_paths_route_back(ConversationsMethod::ListMessages);
    conversations_paths_route_back(ConversationsMethod::GetToolInvocation);
    conversations_paths_route_back(ConversationsMethod::ListToolInvocations);
    conversations_paths_route_back(ConversationsMethod::GetSummary);
    conversations_paths_route_back(ConversationsMethod::ListSummaries);
}

} // verus!
