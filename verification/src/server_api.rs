//! The server API of this build. There is no cloud backend: the API holds the
//! disabled AI client and refuses every request to stream agent events, so
//! local orchestration runs without reaching a server.
use std::sync::Arc;

use vstd::prelude::*;
use vstd::string::*;

use crate::ai_client::DisabledAIClient;

verus! {

/// Calls `Arc::clone`: a new handle to the same value.
#[verifier::external_body]
fn share<T>(handle: &Arc<T>) -> (r: Arc<T>)
    ensures
        r == *handle,
{
    handle.clone()
}

/// A stream of agent events. This build opens none.
pub struct EventSourceStream {
    opened: bool,
}

/// Why a request to the server API was refused.
pub struct ServerApiError {
    pub message: String,
}

/// The refusal of a request to stream the agent events that the filter with
/// log label `filter_label` selects.
pub open spec fn stream_refusal(filter_label: Seq<char>) -> Seq<char> {
    "agent event streaming ("@ + filter_label + ") is disabled in this build - no cloud RTC endpoint"@
}

/// The server API: the AI client it hands out, with every transport
/// disabled.
pub struct ServerApi {
    ai_client: Arc<DisabledAIClient>,
}

impl ServerApi {
    /// The AI client this API hands out.
    pub closed spec fn spec_ai_client(&self) -> DisabledAIClient {
        *self.ai_client
    }

    /// The server API with every transport disabled.
    pub fn new_disabled() -> (r: ServerApi)
        ensures
            r.spec_ai_client() == DisabledAIClient,
    {
        ServerApi { ai_client: Arc::new(DisabledAIClient) }
    }

    /// Refuses to open a stream of agent events: this build has no cloud
    /// endpoint, so every attempt fails and the caller backs off. The error
    /// names the filter by its log label.
    pub fn stream_agent_events(&self, filter_label: &str, since_sequence: i64) -> (r: Result<
        EventSourceStream,
        ServerApiError,
    >)
        ensures
            r matches Err(e) && e.message@ == stream_refusal(filter_label@),
    {
        let mut message = "agent event streaming (".to_owned();
        message.append(filter_label);
        message.append(") is disabled in this build - no cloud RTC endpoint");
        Err(ServerApiError { message })
    }

    /// The AI client that this API hands out.
    pub fn ai_client(&self) -> (r: Arc<DisabledAIClient>)
        ensures
            *r == self.spec_ai_client(),
    {
        share(&self.ai_client)
    }
}

/// Gives access to the one server API instance and to the AI client it
/// holds.
pub struct ServerApiProvider {
    server_api: Arc<ServerApi>,
}

impl ServerApiProvider {
    /// The server API this provider hands out.
    pub closed spec fn server_api(&self) -> ServerApi {
        *self.server_api
    }

    /// A provider around the disabled server API.
    pub fn new_disabled() -> (r: ServerApiProvider)
        ensures
            r.server_api().spec_ai_client() == DisabledAIClient,
    {
        ServerApiProvider { server_api: Arc::new(ServerApi::new_disabled()) }
    }

    /// A provider for tests: the same as `new_disabled`.
    pub fn new_for_test() -> (r: ServerApiProvider)
        ensures
            r.server_api().spec_ai_client() == DisabledAIClient,
    {
        ServerApiProvider::new_disabled()
    }

    /// A handle to the server API.
    pub fn get(&self) -> (r: Arc<ServerApi>)
        ensures
            *r == self.server_api(),
    {
        share(&self.server_api)
    }

    /// A handle to the AI client of the server API.
    pub fn get_ai_client(&self) -> (r: Arc<DisabledAIClient>)
        ensures
            *r == self.server_api().spec_ai_client(),
    {
        share(&self.server_api.ai_client)
    }
}

} // verus!
