//! The shape of the service's answer on the state of a session.

use vstd::prelude::*;

verus! {

#[derive(Debug, Clone)]
pub struct CatchSessionAnalyzingModuleStructureResult {
    pub status: String,
    pub structure: String,
}

#[derive(Debug, Clone)]
pub struct CatchSessionExtractingCandidatesResult {
    pub status: String,
    pub candidates: Vec<String>,
}

#[derive(Debug, Clone)]
pub struct CatchPlatformInfo {
    pub platform: String,
    pub architecture_description: String,
}

#[derive(Debug, Clone)]
pub struct CatchSessionAnalyzePlatformResult {
    pub status: String,
    pub platform_info: CatchPlatformInfo,
}

#[derive(Debug, Clone)]
pub struct CatchDiffFile {
    pub file_path: String,
    pub patch_content: String,
    pub modified_content: String,
    pub original_content: String,
}

#[derive(Debug, Clone)]
pub struct CatchSessionGeneratingDiffResult {
    pub files: Vec<CatchDiffFile>,
    pub status: String,
}

#[derive(Debug, Clone)]
pub struct CatchSessionResult {
    pub step: String,
    pub status: String,
}

#[derive(Debug, Clone)]
pub struct CatchSessionOutput {
    pub docs: Vec<String>,
    pub fetching_code: CatchSessionResult,
    pub indexing_code: CatchSessionResult,
    pub generating_diff: CatchSessionGeneratingDiffResult,
    pub generating_docs: CatchSessionResult,
    pub analyzing_platform: CatchSessionAnalyzePlatformResult,
    pub extracting_candidates: CatchSessionExtractingCandidatesResult,
    pub analyzing_module_structure: CatchSessionAnalyzingModuleStructureResult,
}

/// The state of a session as the service reports it. A session that no
/// invocation has claimed yet has none of the three fields.
#[derive(Debug, Clone)]
pub struct CatchSessionProcessInfo {
    pub id: Option<String>,
    pub status: Option<String>,
    pub output: Option<CatchSessionOutput>,
}

#[derive(Debug, Clone)]
pub struct CatchSessionStatusResponse {
    pub process: CatchSessionProcessInfo,
}

impl CatchSessionProcessInfo {
    /// No invocation has claimed the session: all three fields are absent.
    pub open spec fn unclaimed(&self) -> bool {
        self.id is None && self.status is None && self.output is None
    }

    /// Whether all three fields are absent.
    pub fn is_unclaimed(&self) -> (r: bool)
        ensures
            r == self.unclaimed(),
    {
        self.output.is_none() && self.status.is_none() && self.id.is_none()
    }
}

} // verus!
