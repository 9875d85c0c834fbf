use vstd::prelude::*;

verus! {

/// One security finding reported by the analysis engine.
#[derive(Debug, Clone)]
pub struct Issue {
    pub key: String,
    pub rule: String,
    pub severity: String,
    pub component: String,
    pub line: Option<u32>,
    pub message: String,
    /// Either a vulnerability or a security hotspot.
    pub issue_type: String,
}

/// The findings of one job and their number.
#[derive(Debug, Clone)]
pub struct AnalysisResult {
    pub vulnerabilities: Vec<Issue>,
    pub total_count: usize,
}

impl AnalysisResult {
    /// Wraps the findings together with their count.
    pub fn from_issues(issues: Vec<Issue>) -> (r: AnalysisResult)
        ensures
            r.vulnerabilities == issues,
            r.total_count == issues.len(),
    {
        let n = issues.len();
        AnalysisResult { vulnerabilities: issues, total_count: n }
    }
}

} // verus!
