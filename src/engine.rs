use vstd::prelude::*;
use vstd::string::*;
use crate::text::prefixed;

verus! {

/// Where the analysis engine lives and how to sign in to it.
#[derive(Debug, Clone)]
pub struct EngineConfig {
    pub base_url: String,
    pub user: String,
    pub token: String,
}

/// A configured value, or its fallback when none is set.
pub open spec fn or_default(v: Option<String>, fallback: Seq<char>) -> Seq<char> {
    match v {
        Some(s) => s@,
        None => fallback,
    }
}

fn setting(v: Option<String>, fallback: &str) -> (r: String)
    ensures
        r@ == or_default(v, fallback@),
{
    match v {
        Some(s) => s,
        None => String::from_str(fallback),
    }
}

impl EngineConfig {
    /// The engine's settings from the configured location and access token,
    /// each falling back to its default when unset. The account name is fixed.
    pub fn from_settings(base_url: Option<String>, token: Option<String>) -> (r: EngineConfig)
        ensures
            r.base_url@ == or_default(base_url, "http://sonarqube:9000"@),
            r.token@ == or_default(token, "admin"@),
            r.user@ == "admin"@,
    {
        EngineConfig {
            base_url: setting(base_url, "http://sonarqube:9000"),
            user: String::from_str("admin"),
            token: setting(token, "admin"),
        }
    }

    /// The task-activity endpoint.
    pub fn activity_url(&self) -> (r: String)
        ensures
            r@ == self.base_url@ + "/api/ce/activity"@,
    {
        self.base_url.clone().concat("/api/ce/activity")
    }

    /// The issue-search endpoint.
    pub fn issues_url(&self) -> (r: String)
        ensures
            r@ == self.base_url@ + "/api/issues/search"@,
    {
        self.base_url.clone().concat("/api/issues/search")
    }
}

fn param(name: &str, value: &str) -> (r: (String, String))
    ensures
        r.0@ == name@,
        r.1@ == value@,
{
    (String::from_str(name), String::from_str(value))
}

/// The query of the task-activity request: the job's component.
pub fn activity_query(job_id: &str) -> (r: Vec<(String, String)>)
    ensures
        r@.len() == 1,
        r@[0].0@ == "component"@,
        r@[0].1@ == job_id@,
{
    let mut q: Vec<(String, String)> = Vec::new();
    q.push(param("component", job_id));
    q
}

/// The query of the issue search: the job's component, the vulnerability
/// and security-hotspot kinds, and one page large enough for all findings.
pub fn issues_query(job_id: &str) -> (r: Vec<(String, String)>)
    ensures
        r@.len() == 3,
        r@[0].0@ == "componentKeys"@,
        r@[0].1@ == job_id@,
        r@[1].0@ == "types"@,
        r@[1].1@ == "VULNERABILITY,SECURITY_HOTSPOT"@,
        r@[2].0@ == "ps"@,
        r@[2].1@ == "500"@,
{
    let mut q: Vec<(String, String)> = Vec::new();
    q.push(param("componentKeys", job_id));
    q.push(param("types", "VULNERABILITY,SECURITY_HOTSPOT"));
    q.push(param("ps", "500"));
    q
}

/// The arguments of the scanning tool: the job token as project key, the
/// engine's location and access token, and the current directory as sources.
pub fn scanner_args(job_id: &str, config: &EngineConfig) -> (r: Vec<String>)
    ensures
        r@.len() == 4,
        r@[0]@ == "-Dsonar.projectKey="@ + job_id@,
        r@[1]@ == "-Dsonar.host.url="@ + config.base_url@,
        r@[2]@ == "-Dsonar.login="@ + config.token@,
        r@[3]@ == "-Dsonar.sources=."@,
{
    let mut args: Vec<String> = Vec::new();
    args.push(prefixed("-Dsonar.projectKey=", job_id));
    args.push(prefixed("-Dsonar.host.url=", config.base_url.as_str()));
    args.push(prefixed("-Dsonar.login=", config.token.as_str()));
    args.push(String::from_str("-Dsonar.sources=."));
    args
}

} // verus!
