//! Command-line argument records and the small decisions drawn from them:
//! template selection, the force flag, and the default image reference.
use vstd::prelude::*;
use vstd::string::*;
use crate::text::{eq_ignore_ascii_case, str_eq_ci};

verus! {

/// The subcommands of the tool.
#[derive(Debug)]
pub enum Cli {
    Init(Args),
    Build(BuildArgs),
    Push(PushArgs),
    Pull(PullArgs),
    Container(ContainInitArgs),
}

/// Arguments of the scaffolding subcommand: a git URL for the template,
/// or a local path that replaces it.
#[derive(Debug, Clone)]
pub struct Args {
    pub git: String,
    pub path: Option<String>,
}

/// Arguments of the push subcommand.
#[derive(Debug, Clone)]
pub struct PushArgs {
    pub user_name: Option<String>,
    pub password: Option<String>,
    pub image: Option<String>,
}

/// Arguments of the build subcommand: an optional image reference and the
/// path of the instruction document.
#[derive(Debug, Clone)]
pub struct BuildArgs {
    pub image: Option<String>,
    pub config: String,
}

/// Arguments of the pull subcommand.
#[derive(Debug, Clone)]
pub struct PullArgs {
    pub user_name: Option<String>,
    pub password: Option<String>,
    pub image: String,
}

/// Arguments of the container-init subcommand.
#[derive(Debug, Clone)]
pub struct ContainInitArgs {
    pub user_name: Option<String>,
    pub password: Option<String>,
    pub image: String,
    pub force: String,
}

/// Where the project template comes from: a local path, when given,
/// replaces the git URL.
#[derive(Debug, Clone)]
pub struct TemplateSource {
    pub git: Option<String>,
    pub path: Option<String>,
}

impl Args {
    /// The template location handed to the scaffolding collaborator: the
    /// local path wins over the git URL when both are given.
    pub fn to_generate_args(self) -> (t: TemplateSource)
        ensures
            self.path is Some ==> t.git is None && t.path == self.path,
            self.path is None ==> t.path is None && (t.git matches Some(g) && g@ == self.git@),
    {
        if self.path.is_some() {
            TemplateSource { git: None, path: self.path }
        } else {
            TemplateSource { git: Some(self.git), path: None }
        }
    }
}

impl ContainInitArgs {
    /// Whether the force flag is set: its argument equals `TRUE` up to
    /// ASCII case.
    pub fn is_force(&self) -> (r: bool)
        ensures
            r == str_eq_ci(self.force@, "TRUE"@),
    {
        eq_ignore_ascii_case(self.force.as_str(), "TRUE")
    }
}

/// An image reference as the registry collaborator consumes it: registry
/// host, repository, and tag.
#[derive(Debug, Clone)]
pub struct ImageRef {
    pub registry: String,
    pub repository: String,
    pub tag: String,
}

/// The reference used when none is given: the fixed registry host, the
/// package name under the `hpmq_dev` project, and the package version as
/// the tag.
pub fn default_reference(name: String, version: String) -> (r: ImageRef)
    ensures
        r.registry@ == "repo.netfuse.cn"@,
        r.repository@ == "hpmq_dev/"@ + name@,
        r.tag@ == version@,
{
    let repository = String::from_str("hpmq_dev/").concat(name.as_str());
    ImageRef { registry: String::from_str("repo.netfuse.cn"), repository, tag: version }
}

/// The name and version drawn from the package metadata, when both are
/// present; `None` exactly when either is missing.
pub fn package_pair(name: Option<String>, version: Option<String>) -> (r: Option<(String, String)>)
    ensures
        r matches Some(p) ==> name matches Some(n) && version matches Some(v) && p.0 == n && p.1
            == v,
        r is None <==> name is None || version is None,
{
    match (name, version) {
        (Some(n), Some(v)) => Some((n, v)),
        _ => None,
    }
}

} // verus!
