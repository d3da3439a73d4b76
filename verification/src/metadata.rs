//! The build-environment metadata recorded inside a wheel: when it was
//! built, from which repository, under which CI run, and which whitelisted
//! environment variables were set.

use vstd::prelude::*;

verus! {

/// The repository a wheel was built from.
pub struct RepositoryInfo {
    /// The git remote URL of the repository.
    pub url: Option<String>,
    /// The commit hash of the repository at the time of wheel creation.
    pub commit: String,
}

/// Facts about a GitHub Actions run.
pub struct ActionsInfo {
    /// The GitHub Actions run ID.
    pub run_id: Option<String>,
    /// The GitHub Actions workflow name.
    pub workflow_name: Option<String>,
    /// The GitHub Actions workflow SHA.
    pub workflow_sha: Option<String>,
    /// The GitHub Actions job name.
    pub job_name: Option<String>,
    /// Runner name.
    pub runner_name: Option<String>,
}

/// Facts about the automation pipeline a wheel was built under.
pub struct AutomationInfo {
    /// Information specific to GitHub Actions.
    pub actions_info: Option<ActionsInfo>,
}

/// The build-environment metadata of one wheel.  The build time is carried
/// as its RFC 3339 text; the recorded variables keep their insertion order
/// as `(name, value)` pairs.
pub struct BuildEnvMetadata {
    pub build_time: String,
    pub git: Option<RepositoryInfo>,
    pub env_vars: Vec<(String, String)>,
    pub automation: Option<AutomationInfo>,
}

/// The pipeline facts recorded for a build: a GitHub Actions record built
/// from the given variables when the build runs under GitHub Actions, and
/// nothing otherwise.
pub fn pipeline_info_from_env(
    github_actions: bool,
    run_id: Option<String>,
    workflow_name: Option<String>,
    workflow_sha: Option<String>,
    job_name: Option<String>,
    runner_name: Option<String>,
) -> (r: Option<AutomationInfo>)
    ensures
        github_actions ==> (r matches Some(a) && (a.actions_info matches Some(ai) && ai.run_id
            == run_id && ai.workflow_name == workflow_name && ai.workflow_sha == workflow_sha
            && ai.job_name == job_name && ai.runner_name == runner_name)),
        !github_actions ==> r is None,
{
    if github_actions {
        Some(
            AutomationInfo {
                actions_info: Some(
                    ActionsInfo { run_id, workflow_name, workflow_sha, job_name, runner_name },
                ),
            },
        )
    } else {
        None
    }
}

/// The default whitelist of environment variables recorded in a wheel:
/// PyTorch/CUDA and ROCm build switches, GitHub Actions identifiers, and
/// build-system versions.
pub fn default_env_whitelist() -> (r: Vec<String>)
    ensures
        r@.len() == 27,
        r@[0]@ == "TORCH_CUDA_ARCH_LIST"@,
        r@[1]@ == "CUDA_VERSION"@,
        r@[2]@ == "CUDA_HOME"@,
        r@[3]@ == "CUDNN_VERSION"@,
        r@[4]@ == "BUILD_TYPE"@,
        r@[5]@ == "PYTORCH_BUILD_VERSION"@,
        r@[6]@ == "PYTORCH_BUILD_NUMBER"@,
        r@[7]@ == "CMAKE_ARGS"@,
        r@[8]@ == "EXTRA_CAFFE2_CMAKE_FLAGS"@,
        r@[9]@ == "PYTORCH_ROCM_ARCH"@,
        r@[10]@ == "GPU_ARCHS"@,
        r@[11]@ == "GITHUB_SHA"@,
        r@[12]@ == "GITHUB_REPOSITORY"@,
        r@[13]@ == "GITHUB_WORKFLOW"@,
        r@[14]@ == "GITHUB_JOB"@,
        r@[15]@ == "GITHUB_RUN_ID"@,
        r@[16]@ == "RUNNER_OS"@,
        r@[17]@ == "RUNNER_ARCH"@,
        r@[18]@ == "CMAKE_BUILD_TYPE"@,
        r@[19]@ == "PYTHON_VERSION"@,
        r@[20]@ == "SETUPTOOLS_VERSION"@,
        r@[21]@ == "PIP_VERSION"@,
        r@[22]@ == "CC"@,
        r@[23]@ == "CXX"@,
        r@[24]@ == "CFLAGS"@,
        r@[25]@ == "CXXFLAGS"@,
        r@[26]@ == "LDFLAGS"@,
{
    let mut v: Vec<String> = Vec::new();
    v.push(String::from_str("TORCH_CUDA_ARCH_LIST"));
    v.push(String::from_str("CUDA_VERSION"));
    v.push(String::from_str("CUDA_HOME"));
    v.push(String::from_str("CUDNN_VERSION"));
    v.push(String::from_str("BUILD_TYPE"));
    v.push(String::from_str("PYTORCH_BUILD_VERSION"));
    v.push(String::from_str("PYTORCH_BUILD_NUMBER"));
    v.push(String::from_str("CMAKE_ARGS"));
    v.push(String::from_str("EXTRA_CAFFE2_CMAKE_FLAGS"));
    v.push(String::from_str("PYTORCH_ROCM_ARCH"));
    v.push(String::from_str("GPU_ARCHS"));
    v.push(String::from_str("GITHUB_SHA"));
    v.push(String::from_str("GITHUB_REPOSITORY"));
    v.push(String::from_str("GITHUB_WORKFLOW"));
    v.push(String::from_str("GITHUB_JOB"));
    v.push(String::from_str("GITHUB_RUN_ID"));
    v.push(String::from_str("RUNNER_OS"));
    v.push(String::from_str("RUNNER_ARCH"));
    v.push(String::from_str("CMAKE_BUILD_TYPE"));
    v.push(String::from_str("PYTHON_VERSION"));
    v.push(String::from_str("SETUPTOOLS_VERSION"));
    v.push(String::from_str("PIP_VERSION"));
    v.push(String::from_str("CC"));
    v.push(String::from_str("CXX"));
    v.push(String::from_str("CFLAGS"));
    v.push(String::from_str("CXXFLAGS"));
    v.push(String::from_str("LDFLAGS"));
    v
}

} // verus!
