use vstd::prelude::*;
use crate::assertion::TestAssertion;
use crate::testcase::{from_name, lookup, lookup_from, lemma_all_testcases, Testcase};

verus! {

/// A fault that stops a run before any test case is run.
#[derive(Clone, Debug)]
pub enum SetupError {
    /// No test case has this name.
    UnknownTestcase(String),
    /// The test case exists but this client does not support it.
    NotSupported(Testcase),
}

/// Whether `name` names a test case this client can run.
pub open spec fn runnable(name: Seq<char>) -> bool {
    &&& lookup(name) is Some
    &&& !lookup(name)->Some_0.needs_credentials()
}

/// Whether `name` names no test case at all.
pub open spec fn unknown(name: Seq<char>) -> bool {
    forall|t: Testcase| (#[trigger] t.label())@ != name
}

/// Resolves one requested name: a known test case that needs credentials is
/// refused as not supported, before anything is sent.
pub fn resolve(name: &str) -> (r: Result<Testcase, SetupError>)
    ensures
        match r {
            Ok(t) => lookup(name@) == Some(t) && t.label()@ == name@ && !t.needs_credentials(),
            Err(SetupError::UnknownTestcase(n)) => lookup(name@) is None && n@ == name@ && unknown(
                name@,
            ),
            Err(SetupError::NotSupported(t)) => lookup(name@) == Some(t) && t.label()@ == name@
                && t.needs_credentials(),
        },
{
    match from_name(name) {
        Some(t) => {
            if t.is_supported() {
                Ok(t)
            } else {
                Err(SetupError::NotSupported(t))
            }
        },
        None => Err(SetupError::UnknownTestcase(name.to_owned())),
    }
}

/// Resolves every requested name, in order; the first name that cannot be run
/// stops the resolution and is reported.
pub fn resolve_all(names: &Vec<String>) -> (r: Result<Vec<Testcase>, SetupError>)
    ensures
        r is Ok <==> forall|i: int| 0 <= i < names@.len() ==> runnable(#[trigger] names@[i]@),
        match r {
            Ok(v) => v@.len() == names@.len() && forall|i: int|
                0 <= i < names@.len() ==> (#[trigger] v@[i]).label()@ == names@[i]@
                    && !v@[i].needs_credentials(),
            Err(SetupError::UnknownTestcase(n)) => exists|i: int|
                0 <= i < names@.len() && #[trigger] names@[i]@ == n@ && unknown(n@) && forall|j: int|
                    0 <= j < i ==> runnable(#[trigger] names@[j]@),
            Err(SetupError::NotSupported(t)) => exists|i: int|
                0 <= i < names@.len() && #[trigger] names@[i]@ == t.label()@ && t.needs_credentials()
                    && forall|j: int| 0 <= j < i ==> runnable(#[trigger] names@[j]@),
        },
{
    let mut cases: Vec<Testcase> = Vec::new();
    let mut i: usize = 0;
    while i < names.len()
        invariant
            i <= names@.len(),
            cases@.len() == i,
            forall|j: int| 0 <= j < i ==> runnable(#[trigger] names@[j]@),
            forall|j: int|
                0 <= j < i ==> (#[trigger] cases@[j]).label()@ == names@[j]@
                    && !cases@[j].needs_credentials(),
        decreases names@.len() - i,
    {
        match resolve(names[i].as_str()) {
            Ok(t) => {
                cases.push(t);
            },
            Err(e) => {
                return Err(e);
            },
        }
        i = i + 1;
    }
    Ok(cases)
}

/// A run: the test cases asked for, in order, and the assertions of those
/// that have run. Test cases run one after the other, in the order asked for.
pub struct Run {
    pub cases: Vec<Testcase>,
    pub results: Vec<(Testcase, Vec<TestAssertion>)>,
}

impl Run {
    /// The results stand for a prefix of the test cases, in order.
    pub open spec fn wf(&self) -> bool {
        &&& self.results@.len() <= self.cases@.len()
        &&& forall|i: int| 0 <= i < self.results@.len() ==> (#[trigger] self.results@[i]).0 == self.cases@[i]
    }

    /// The test case to run next, if any is left.
    pub open spec fn spec_next(&self) -> Option<Testcase> {
        if self.results@.len() < self.cases@.len() {
            Some(self.cases@[self.results@.len() as int])
        } else {
            None
        }
    }

    /// Starts a run of the given test cases; nothing has run yet.
    pub fn new(cases: Vec<Testcase>) -> (r: Run)
        ensures
            r.wf(),
            r.cases@ == cases@,
            r.results@.len() == 0,
    {
        Run { cases, results: Vec::new() }
    }

    /// Resolves the requested names and starts a run of them. A name that
    /// names no test case, or one that needs credentials, stops the run before
    /// it starts.
    pub fn from_names(names: &Vec<String>) -> (r: Result<Run, SetupError>)
        ensures
            r is Ok <==> forall|i: int| 0 <= i < names@.len() ==> runnable(#[trigger] names@[i]@),
            r matches Ok(run) ==> run.wf() && run.results@.len() == 0 && run.cases@.len()
                == names@.len() && forall|i: int|
                0 <= i < names@.len() ==> (#[trigger] run.cases@[i]).label()@ == names@[i]@,
    {
        match resolve_all(names) {
            Ok(cases) => Ok(Run::new(cases)),
            Err(e) => Err(e),
        }
    }

    /// The test case to run next, if any is left.
    pub fn next_case(&self) -> (r: Option<Testcase>)
        requires
            self.wf(),
        ensures
            r == self.spec_next(),
    {
        if self.results.len() < self.cases.len() {
            Some(self.cases[self.results.len()])
        } else {
            None
        }
    }

    /// Records the assertions of the test case that ran next.
    pub fn record(&mut self, assertions: Vec<TestAssertion>)
        requires
            old(self).wf(),
            old(self).spec_next() is Some,
        ensures
            final(self).wf(),
            final(self).cases@ == old(self).cases@,
            final(self).results@ == old(self).results@.push(
                (old(self).spec_next()->Some_0, assertions),
            ),
    {
        let case = self.cases[self.results.len()];
        self.results.push((case, assertions));
    }

    /// Whether every test case has run.
    pub fn is_complete(&self) -> (r: bool)
        requires
            self.wf(),
        ensures
            r == (self.results@.len() == self.cases@.len()),
    {
        self.results.len() == self.cases.len()
    }
}

/// Lookup passes over a test case whose name differs.
proof fn lemma_lookup_skip(name: Seq<char>, u: Testcase)
    requires
        u.label()@ != name,
    ensures
        lookup_from(name, u.index()) == lookup_from(name, u.index() + 1),
{
    lemma_all_testcases(u);
}

/// Lookup stops at a test case with that name.
proof fn lemma_lookup_hit(u: Testcase)
    ensures
        lookup_from(u.label()@, u.index()) == Some(u),
{
    lemma_all_testcases(u);
}

proof fn lemma_lookup_compute_engine_creds()
    ensures
        lookup("compute_engine_creds"@) == Some(Testcase::ComputeEngineCreds),
{
    reveal_strlit("compute_engine_creds");
    reveal_strlit("empty_stream");
    assert("empty_stream"@.len() != "compute_engine_creds"@.len());
    reveal_strlit("ping_pong");
    assert("ping_pong"@.len() != "compute_engine_creds"@.len());
    reveal_strlit("server_compressed_streaming");
    assert("server_compressed_streaming"@.len() != "compute_engine_creds"@.len());
    reveal_strlit("server_streaming");
    assert("server_streaming"@.len() != "compute_engine_creds"@.len());
    reveal_strlit("client_compressed_streaming");
    assert("client_compressed_streaming"@.len() != "compute_engine_creds"@.len());
    reveal_strlit("client_streaming");
    assert("client_streaming"@.len() != "compute_engine_creds"@.len());
    reveal_strlit("server_compressed_unary");
    assert("server_compressed_unary"@.len() != "compute_engine_creds"@.len());
    reveal_strlit("client_compressed_unary");
    assert("client_compressed_unary"@.len() != "compute_engine_creds"@.len());
    reveal_strlit("large_unary");
    assert("large_unary"@.len() != "compute_engine_creds"@.len());
    reveal_strlit("cacheable_unary");
    assert("cacheable_unary"@.len() != "compute_engine_creds"@.len());
    reveal_strlit("empty_unary");
    assert("empty_unary"@.len() != "compute_engine_creds"@.len());
    lemma_lookup_hit(Testcase::ComputeEngineCreds);
    lemma_lookup_skip("compute_engine_creds"@, Testcase::EmptyStream);
    lemma_lookup_skip("compute_engine_creds"@, Testcase::PingPong);
    lemma_lookup_skip("compute_engine_creds"@, Testcase::ServerCompressedStreaming);
    lemma_lookup_skip("compute_engine_creds"@, Testcase::ServerStreaming);
    lemma_lookup_skip("compute_engine_creds"@, Testcase::ClientCompressedStreaming);
    lemma_lookup_skip("compute_engine_creds"@, Testcase::ClientStreaming);
    lemma_lookup_skip("compute_engine_creds"@, Testcase::ServerCompressedUnary);
    lemma_lookup_skip("compute_engine_creds"@, Testcase::ClientCompressedUnary);
    lemma_lookup_skip("compute_engine_creds"@, Testcase::LargeUnary);
    lemma_lookup_skip("compute_engine_creds"@, Testcase::CacheableUnary);
    lemma_lookup_skip("compute_engine_creds"@, Testcase::EmptyUnary);
}

proof fn lemma_lookup_jwt_token_creds()
    ensures
        lookup("jwt_token_creds"@) == Some(Testcase::JwtTokenCreds),
{
    reveal_strlit("jwt_token_creds");
    reveal_strlit("compute_engine_creds");
    assert("compute_engine_creds"@.len() != "jwt_token_creds"@.len());
    reveal_strlit("empty_stream");
    assert("empty_stream"@.len() != "jwt_token_creds"@.len());
    reveal_strlit("ping_pong");
    assert("ping_pong"@.len() != "jwt_token_creds"@.len());
    reveal_strlit("server_compressed_streaming");
    assert("server_compressed_streaming"@.len() != "jwt_token_creds"@.len());
    reveal_strlit("server_streaming");
    assert("server_streaming"@.len() != "jwt_token_creds"@.len());
    reveal_strlit("client_compressed_streaming");
    assert("client_compressed_streaming"@.len() != "jwt_token_creds"@.len());
    reveal_strlit("client_streaming");
    assert("client_streaming"@.len() != "jwt_token_creds"@.len());
    reveal_strlit("server_compressed_unary");
    assert("server_compressed_unary"@.len() != "jwt_token_creds"@.len());
    reveal_strlit("client_compressed_unary");
    assert("client_compressed_unary"@.len() != "jwt_token_creds"@.len());
    reveal_strlit("large_unary");
    assert("large_unary"@.len() != "jwt_token_creds"@.len());
    reveal_strlit("cacheable_unary");
    assert("cacheable_unary"@[0] != "jwt_token_creds"@[0]);
    reveal_strlit("empty_unary");
    assert("empty_unary"@.len() != "jwt_token_creds"@.len());
    lemma_lookup_hit(Testcase::JwtTokenCreds);
    lemma_lookup_skip("jwt_token_creds"@, Testcase::ComputeEngineCreds);
    lemma_lookup_skip("jwt_token_creds"@, Testcase::EmptyStream);
    lemma_lookup_skip("jwt_token_creds"@, Testcase::PingPong);
    lemma_lookup_skip("jwt_token_creds"@, Testcase::ServerCompressedStreaming);
    lemma_lookup_skip("jwt_token_creds"@, Testcase::ServerStreaming);
    lemma_lookup_skip("jwt_token_creds"@, Testcase::ClientCompressedStreaming);
    lemma_lookup_skip("jwt_token_creds"@, Testcase::ClientStreaming);
    lemma_lookup_skip("jwt_token_creds"@, Testcase::ServerCompressedUnary);
    lemma_lookup_skip("jwt_token_creds"@, Testcase::ClientCompressedUnary);
    lemma_lookup_skip("jwt_token_creds"@, Testcase::LargeUnary);
    lemma_lookup_skip("jwt_token_creds"@, Testcase::CacheableUnary);
    lemma_lookup_skip("jwt_token_creds"@, Testcase::EmptyUnary);
}

proof fn lemma_lookup_oauth2_auth_token()
    ensures
        lookup("oauth2_auth_token"@) == Some(Testcase::Oauth2AuthToken),
{
    reveal_strlit("oauth2_auth_token");
    reveal_strlit("jwt_token_creds");
    assert("jwt_token_creds"@.len() != "oauth2_auth_token"@.len());
    reveal_strlit("compute_engine_creds");
    assert("compute_engine_creds"@.len() != "oauth2_auth_token"@.len());
    reveal_strlit("empty_stream");
    assert("empty_stream"@.len() != "oauth2_auth_token"@.len());
    reveal_strlit("ping_pong");
    assert("ping_pong"@.len() != "oauth2_auth_token"@.len());
    reveal_strlit("server_compressed_streaming");
    assert("server_compressed_streaming"@.len() != "oauth2_auth_token"@.len());
    reveal_strlit("server_streaming");
    assert("server_streaming"@.len() != "oauth2_auth_token"@.len());
    reveal_strlit("client_compressed_streaming");
    assert("client_compressed_streaming"@.len() != "oauth2_auth_token"@.len());
    reveal_strlit("client_streaming");
    assert("client_streaming"@.len() != "oauth2_auth_token"@.len());
    reveal_strlit("server_compressed_unary");
    assert("server_compressed_unary"@.len() != "oauth2_auth_token"@.len());
    reveal_strlit("client_compressed_unary");
    assert("client_compressed_unary"@.len() != "oauth2_auth_token"@.len());
    reveal_strlit("large_unary");
    assert("large_unary"@.len() != "oauth2_auth_token"@.len());
    reveal_strlit("cacheable_unary");
    assert("cacheable_unary"@.len() != "oauth2_auth_token"@.len());
    reveal_strlit("empty_unary");
    assert("empty_unary"@.len() != "oauth2_auth_token"@.len());
    lemma_lookup_hit(Testcase::Oauth2AuthToken);
    lemma_lookup_skip("oauth2_auth_token"@, Testcase::JwtTokenCreds);
    lemma_lookup_skip("oauth2_auth_token"@, Testcase::ComputeEngineCreds);
    lemma_lookup_skip("oauth2_auth_token"@, Testcase::EmptyStream);
    lemma_lookup_skip("oauth2_auth_token"@, Testcase::PingPong);
    lemma_lookup_skip("oauth2_auth_token"@, Testcase::ServerCompressedStreaming);
    lemma_lookup_skip("oauth2_auth_token"@, Testcase::ServerStreaming);
    lemma_lookup_skip("oauth2_auth_token"@, Testcase::ClientCompressedStreaming);
    lemma_lookup_skip("oauth2_auth_token"@, Testcase::ClientStreaming);
    lemma_lookup_skip("oauth2_auth_token"@, Testcase::ServerCompressedUnary);
    lemma_lookup_skip("oauth2_auth_token"@, Testcase::ClientCompressedUnary);
    lemma_lookup_skip("oauth2_auth_token"@, Testcase::LargeUnary);
    lemma_lookup_skip("oauth2_auth_token"@, Testcase::CacheableUnary);
    lemma_lookup_skip("oauth2_auth_token"@, Testcase::EmptyUnary);
}

proof fn lemma_lookup_per_rpc_creds()
    ensures
        lookup("per_rpc_creds"@) == Some(Testcase::PerRpcCreds),
{
    reveal_strlit("per_rpc_creds");
    reveal_strlit("oauth2_auth_token");
    assert("oauth2_auth_token"@.len() != "per_rpc_creds"@.len());
    reveal_strlit("jwt_token_creds");
    assert("jwt_token_creds"@.len() != "per_rpc_creds"@.len());
    reveal_strlit("compute_engine_creds");
    assert("compute_engine_creds"@.len() != "per_rpc_creds"@.len());
    reveal_strlit("empty_stream");
    assert("empty_stream"@.len() != "per_rpc_creds"@.len());
    reveal_strlit("ping_pong");
    assert("ping_pong"@.len() != "per_rpc_creds"@.len());
    reveal_strlit("server_compressed_streaming");
    assert("server_compressed_streaming"@.len() != "per_rpc_creds"@.len());
    reveal_strlit("server_streaming");
    assert("server_streaming"@.len() != "per_rpc_creds"@.len());
    reveal_strlit("client_compressed_streaming");
    assert("client_compressed_streaming"@.len() != "per_rpc_creds"@.len());
    reveal_strlit("client_streaming");
    assert("client_streaming"@.len() != "per_rpc_creds"@.len());
    reveal_strlit("server_compressed_unary");
    assert("server_compressed_unary"@.len() != "per_rpc_creds"@.len());
    reveal_strlit("client_compressed_unary");
    assert("client_compressed_unary"@.len() != "per_rpc_creds"@.len());
    reveal_strlit("large_unary");
    assert("large_unary"@.len() != "per_rpc_creds"@.len());
    reveal_strlit("cacheable_unary");
    assert("cacheable_unary"@.len() != "per_rpc_creds"@.len());
    reveal_strlit("empty_unary");
    assert("empty_unary"@.len() != "per_rpc_creds"@.len());
    lemma_lookup_hit(Testcase::PerRpcCreds);
    lemma_lookup_skip("per_rpc_creds"@, Testcase::Oauth2AuthToken);
    lemma_lookup_skip("per_rpc_creds"@, Testcase::JwtTokenCreds);
    lemma_lookup_skip("per_rpc_creds"@, Testcase::ComputeEngineCreds);
    lemma_lookup_skip("per_rpc_creds"@, Testcase::EmptyStream);
    lemma_lookup_skip("per_rpc_creds"@, Testcase::PingPong);
    lemma_lookup_skip("per_rpc_creds"@, Testcase::ServerCompressedStreaming);
    lemma_lookup_skip("per_rpc_creds"@, Testcase::ServerStreaming);
    lemma_lookup_skip("per_rpc_creds"@, Testcase::ClientCompressedStreaming);
    lemma_lookup_skip("per_rpc_creds"@, Testcase::ClientStreaming);
    lemma_lookup_skip("per_rpc_creds"@, Testcase::ServerCompressedUnary);
    lemma_lookup_skip("per_rpc_creds"@, Testcase::ClientCompressedUnary);
    lemma_lookup_skip("per_rpc_creds"@, Testcase::LargeUnary);
    lemma_lookup_skip("per_rpc_creds"@, Testcase::CacheableUnary);
    lemma_lookup_skip("per_rpc_creds"@, Testcase::EmptyUnary);
}

/// A test case that needs credentials is never runnable: resolving its name
/// always ends in `NotSupported`, so a run that asks for it stops before any
/// call is made.
pub proof fn lemma_credentials_not_supported(t: Testcase)
    requires
        t.needs_credentials(),
    ensures
        lookup(t.label()@) == Some(t),
        !runnable(t.label()@),
{
    match t {
        Testcase::ComputeEngineCreds => lemma_lookup_compute_engine_creds(),
        Testcase::JwtTokenCreds => lemma_lookup_jwt_token_creds(),
        Testcase::Oauth2AuthToken => lemma_lookup_oauth2_auth_token(),
        _ => lemma_lookup_per_rpc_creds(),
    }
}

} // verus!
