use vstd::prelude::*;
use crate::status::str_eq;

verus! {

/// The interop test cases, in their canonical order.
#[derive(Clone, Copy, Debug, PartialEq, Eq, Structural)]
pub enum Testcase {
    EmptyUnary,
    CacheableUnary,
    LargeUnary,
    ClientCompressedUnary,
    ServerCompressedUnary,
    ClientStreaming,
    ClientCompressedStreaming,
    ServerStreaming,
    ServerCompressedStreaming,
    PingPong,
    EmptyStream,
    ComputeEngineCreds,
    JwtTokenCreds,
    Oauth2AuthToken,
    PerRpcCreds,
    CustomMetadata,
    StatusCodeAndMessage,
    UnimplementedMethod,
    UnimplementedService,
    CancelAfterBegin,
    CancelAfterFirstResponse,
    TimeoutOnSleepingServer,
    ConcurrentLargeUnary,
}

impl Testcase {
    /// The canonical name of the test case.
    pub open spec fn label(self) -> &'static str {
        match self {
            Testcase::EmptyUnary => "empty_unary",
            Testcase::CacheableUnary => "cacheable_unary",
            Testcase::LargeUnary => "large_unary",
            Testcase::ClientCompressedUnary => "client_compressed_unary",
            Testcase::ServerCompressedUnary => "server_compressed_unary",
            Testcase::ClientStreaming => "client_streaming",
            Testcase::ClientCompressedStreaming => "client_compressed_streaming",
            Testcase::ServerStreaming => "server_streaming",
            Testcase::ServerCompressedStreaming => "server_compressed_streaming",
            Testcase::PingPong => "ping_pong",
            Testcase::EmptyStream => "empty_stream",
            Testcase::ComputeEngineCreds => "compute_engine_creds",
            Testcase::JwtTokenCreds => "jwt_token_creds",
            Testcase::Oauth2AuthToken => "oauth2_auth_token",
            Testcase::PerRpcCreds => "per_rpc_creds",
            Testcase::CustomMetadata => "custom_metadata",
            Testcase::StatusCodeAndMessage => "status_code_and_message",
            Testcase::UnimplementedMethod => "unimplemented_method",
            Testcase::UnimplementedService => "unimplemented_service",
            Testcase::CancelAfterBegin => "cancel_after_begin",
            Testcase::CancelAfterFirstResponse => "cancel_after_first_response",
            Testcase::TimeoutOnSleepingServer => "timeout_on_sleeping_server",
            Testcase::ConcurrentLargeUnary => "concurrent_large_unary",
        }
    }

    /// Position of the test case in the canonical order.
    pub open spec fn index(self) -> int {
        match self {
            Testcase::EmptyUnary => 0,
            Testcase::CacheableUnary => 1,
            Testcase::LargeUnary => 2,
            Testcase::ClientCompressedUnary => 3,
            Testcase::ServerCompressedUnary => 4,
            Testcase::ClientStreaming => 5,
            Testcase::ClientCompressedStreaming => 6,
            Testcase::ServerStreaming => 7,
            Testcase::ServerCompressedStreaming => 8,
            Testcase::PingPong => 9,
            Testcase::EmptyStream => 10,
            Testcase::ComputeEngineCreds => 11,
            Testcase::JwtTokenCreds => 12,
            Testcase::Oauth2AuthToken => 13,
            Testcase::PerRpcCreds => 14,
            Testcase::CustomMetadata => 15,
            Testcase::StatusCodeAndMessage => 16,
            Testcase::UnimplementedMethod => 17,
            Testcase::UnimplementedService => 18,
            Testcase::CancelAfterBegin => 19,
            Testcase::CancelAfterFirstResponse => 20,
            Testcase::TimeoutOnSleepingServer => 21,
            Testcase::ConcurrentLargeUnary => 22,
        }
    }

    /// The test cases that need credentials, which this client does not support.
    pub open spec fn needs_credentials(self) -> bool {
        ||| self == Testcase::ComputeEngineCreds
        ||| self == Testcase::JwtTokenCreds
        ||| self == Testcase::Oauth2AuthToken
        ||| self == Testcase::PerRpcCreds
    }

    /// The canonical name of the test case.
    pub fn name(&self) -> (r: &'static str)
        ensures
            r == self.label(),
    {
        match self {
            Testcase::EmptyUnary => "empty_unary",
            Testcase::CacheableUnary => "cacheable_unary",
            Testcase::LargeUnary => "large_unary",
            Testcase::ClientCompressedUnary => "client_compressed_unary",
            Testcase::ServerCompressedUnary => "server_compressed_unary",
            Testcase::ClientStreaming => "client_streaming",
            Testcase::ClientCompressedStreaming => "client_compressed_streaming",
            Testcase::ServerStreaming => "server_streaming",
            Testcase::ServerCompressedStreaming => "server_compressed_streaming",
            Testcase::PingPong => "ping_pong",
            Testcase::EmptyStream => "empty_stream",
            Testcase::ComputeEngineCreds => "compute_engine_creds",
            Testcase::JwtTokenCreds => "jwt_token_creds",
            Testcase::Oauth2AuthToken => "oauth2_auth_token",
            Testcase::PerRpcCreds => "per_rpc_creds",
            Testcase::CustomMetadata => "custom_metadata",
            Testcase::StatusCodeAndMessage => "status_code_and_message",
            Testcase::UnimplementedMethod => "unimplemented_method",
            Testcase::UnimplementedService => "unimplemented_service",
            Testcase::CancelAfterBegin => "cancel_after_begin",
            Testcase::CancelAfterFirstResponse => "cancel_after_first_response",
            Testcase::TimeoutOnSleepingServer => "timeout_on_sleeping_server",
            Testcase::ConcurrentLargeUnary => "concurrent_large_unary",
        }
    }

    /// Whether this client can run the test case.
    pub fn is_supported(&self) -> (r: bool)
        ensures
            r == !self.needs_credentials(),
    {
        match self {
            Testcase::ComputeEngineCreds | Testcase::JwtTokenCreds | Testcase::Oauth2AuthToken
            | Testcase::PerRpcCreds => false,
            _ => true,
        }
    }

    /// Every test case, in the canonical order.
    pub fn variants() -> (r: Vec<Testcase>)
        ensures
            r@ == all_testcases(),
    {
        vec![
            Testcase::EmptyUnary,
            Testcase::CacheableUnary,
            Testcase::LargeUnary,
            Testcase::ClientCompressedUnary,
            Testcase::ServerCompressedUnary,
            Testcase::ClientStreaming,
            Testcase::ClientCompressedStreaming,
            Testcase::ServerStreaming,
            Testcase::ServerCompressedStreaming,
            Testcase::PingPong,
            Testcase::EmptyStream,
            Testcase::ComputeEngineCreds,
            Testcase::JwtTokenCreds,
            Testcase::Oauth2AuthToken,
            Testcase::PerRpcCreds,
            Testcase::CustomMetadata,
            Testcase::StatusCodeAndMessage,
            Testcase::UnimplementedMethod,
            Testcase::UnimplementedService,
            Testcase::CancelAfterBegin,
            Testcase::CancelAfterFirstResponse,
            Testcase::TimeoutOnSleepingServer,
            Testcase::ConcurrentLargeUnary,
        ]
    }
}

/// Every test case, in the canonical order.
pub open spec fn all_testcases() -> Seq<Testcase> {
    seq![
        Testcase::EmptyUnary,
        Testcase::CacheableUnary,
        Testcase::LargeUnary,
        Testcase::ClientCompressedUnary,
        Testcase::ServerCompressedUnary,
        Testcase::ClientStreaming,
        Testcase::ClientCompressedStreaming,
        Testcase::ServerStreaming,
        Testcase::ServerCompressedStreaming,
        Testcase::PingPong,
        Testcase::EmptyStream,
        Testcase::ComputeEngineCreds,
        Testcase::JwtTokenCreds,
        Testcase::Oauth2AuthToken,
        Testcase::PerRpcCreds,
        Testcase::CustomMetadata,
        Testcase::StatusCodeAndMessage,
        Testcase::UnimplementedMethod,
        Testcase::UnimplementedService,
        Testcase::CancelAfterBegin,
        Testcase::CancelAfterFirstResponse,
        Testcase::TimeoutOnSleepingServer,
        Testcase::ConcurrentLargeUnary,
    ]
}

/// Each test case stands in the canonical list at its index.
pub proof fn lemma_all_testcases(t: Testcase)
    ensures
        all_testcases().len() == 23,
        0 <= t.index() < 23,
        all_testcases()[t.index()] == t,
{
}

/// The first test case, from position `k` of the canonical order on, named `name`.
pub open spec fn lookup_from(name: Seq<char>, k: int) -> Option<Testcase>
    decreases all_testcases().len() - k,
{
    if k < 0 || k >= all_testcases().len() {
        None
    } else if all_testcases()[k].label()@ == name {
        Some(all_testcases()[k])
    } else {
        lookup_from(name, k + 1)
    }
}

/// The test case named `name`, if any.
pub open spec fn lookup(name: Seq<char>) -> Option<Testcase> {
    lookup_from(name, 0)
}

/// Looks a test case up by its canonical name.
pub fn from_name(name: &str) -> (r: Option<Testcase>)
    ensures
        r == lookup(name@),
        match r {
            Some(t) => t.label()@ == name@,
            None => forall|t: Testcase| (#[trigger] t.label())@ != name@,
        },
{
    let all = Testcase::variants();
    let mut i: usize = 0;
    while i < all.len()
        invariant
            all@ == all_testcases(),
            i <= all@.len(),
            forall|j: int| 0 <= j < i ==> all@[j].label()@ != name@,
            lookup(name@) == lookup_from(name@, i as int),
        decreases all@.len() - i,
    {
        if str_eq(all[i].name(), name) {
            return Some(all[i]);
        }
        i = i + 1;
    }
    assert forall|t: Testcase| (#[trigger] t.label())@ != name@ by {
        lemma_all_testcases(t);
    }
    None
}

} // verus!
