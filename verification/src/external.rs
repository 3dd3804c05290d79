//! Deployment overrides read from `$DSH_HOME/desktop-config.json`.

use crate::text::{copy_opt_string, opt_view};
use vstd::prelude::*;

verus! {

/// Deployment overrides of the built-in download and mirror addresses. Every
/// field is optional; an absent field keeps the built-in default.
#[derive(Debug, Clone)]
pub struct ExternalConfig {
    /// npm registry used first by the `auto` strategy (e.g. an internal Verdaccio).
    pub npm_registry: Option<String>,
    /// GitHub relay prefix used first by the `auto` strategy.
    pub gh_mirror_prefix: Option<String>,
    /// Node download mirror prefix.
    pub node_mirror_base: Option<String>,
    /// pnpm download mirror prefix.
    pub pnpm_mirror_base: Option<String>,
    /// Direct prefix of the harness release downloads.
    pub dsh_core_url: Option<String>,
    /// Mirror prefix of the harness release downloads.
    pub dsh_mirror_core_url: Option<String>,
    /// Replacement of the ghfast.top relay prefix.
    pub ghfast_prefix: Option<String>,
    /// Replacement of the ghproxy relay prefix.
    pub ghproxy_prefix: Option<String>,
}

/// The overrides with their texts as character sequences.
pub struct ExternalConfigView {
    pub npm_registry: Option<Seq<char>>,
    pub gh_mirror_prefix: Option<Seq<char>>,
    pub node_mirror_base: Option<Seq<char>>,
    pub pnpm_mirror_base: Option<Seq<char>>,
    pub dsh_core_url: Option<Seq<char>>,
    pub dsh_mirror_core_url: Option<Seq<char>>,
    pub ghfast_prefix: Option<Seq<char>>,
    pub ghproxy_prefix: Option<Seq<char>>,
}

impl View for ExternalConfig {
    type V = ExternalConfigView;

    open spec fn view(&self) -> ExternalConfigView {
        ExternalConfigView {
            npm_registry: opt_view(&self.npm_registry),
            gh_mirror_prefix: opt_view(&self.gh_mirror_prefix),
            node_mirror_base: opt_view(&self.node_mirror_base),
            pnpm_mirror_base: opt_view(&self.pnpm_mirror_base),
            dsh_core_url: opt_view(&self.dsh_core_url),
            dsh_mirror_core_url: opt_view(&self.dsh_mirror_core_url),
            ghfast_prefix: opt_view(&self.ghfast_prefix),
            ghproxy_prefix: opt_view(&self.ghproxy_prefix),
        }
    }
}

/// The configuration with no override at all.
pub open spec fn empty_external_config() -> ExternalConfigView {
    ExternalConfigView {
        npm_registry: None,
        gh_mirror_prefix: None,
        node_mirror_base: None,
        pnpm_mirror_base: None,
        dsh_core_url: None,
        dsh_mirror_core_url: None,
        ghfast_prefix: None,
        ghproxy_prefix: None,
    }
}

impl Default for ExternalConfig {
    fn default() -> (cfg: ExternalConfig)
        ensures
            cfg@ == empty_external_config(),
    {
        ExternalConfig {
            npm_registry: None,
            gh_mirror_prefix: None,
            node_mirror_base: None,
            pnpm_mirror_base: None,
            dsh_core_url: None,
            dsh_mirror_core_url: None,
            ghfast_prefix: None,
            ghproxy_prefix: None,
        }
    }
}

/// npm registry override (used first by `auto`).
pub fn npm_registry_override(cfg: &ExternalConfig) -> (r: Option<String>)
    ensures
        opt_view(&r) == cfg@.npm_registry,
{
    copy_opt_string(&cfg.npm_registry)
}

/// GitHub relay prefix override (used first by `auto`).
pub fn gh_mirror_prefix_override(cfg: &ExternalConfig) -> (r: Option<String>)
    ensures
        opt_view(&r) == cfg@.gh_mirror_prefix,
{
    copy_opt_string(&cfg.gh_mirror_prefix)
}

/// Node download mirror override.
pub fn node_mirror_base_override(cfg: &ExternalConfig) -> (r: Option<String>)
    ensures
        opt_view(&r) == cfg@.node_mirror_base,
{
    copy_opt_string(&cfg.node_mirror_base)
}

/// pnpm download mirror override.
pub fn pnpm_mirror_base_override(cfg: &ExternalConfig) -> (r: Option<String>)
    ensures
        opt_view(&r) == cfg@.pnpm_mirror_base,
{
    copy_opt_string(&cfg.pnpm_mirror_base)
}

/// Direct harness release prefix override.
pub fn dsh_core_url_override(cfg: &ExternalConfig) -> (r: Option<String>)
    ensures
        opt_view(&r) == cfg@.dsh_core_url,
{
    copy_opt_string(&cfg.dsh_core_url)
}

/// Mirror harness release prefix override.
pub fn dsh_mirror_core_url_override(cfg: &ExternalConfig) -> (r: Option<String>)
    ensures
        opt_view(&r) == cfg@.dsh_mirror_core_url,
{
    copy_opt_string(&cfg.dsh_mirror_core_url)
}

/// ghfast.top relay prefix override.
pub fn ghfast_prefix_override(cfg: &ExternalConfig) -> (r: Option<String>)
    ensures
        opt_view(&r) == cfg@.ghfast_prefix,
{
    copy_opt_string(&cfg.ghfast_prefix)
}

/// ghproxy relay prefix override.
pub fn ghproxy_prefix_override(cfg: &ExternalConfig) -> (r: Option<String>)
    ensures
        opt_view(&r) == cfg@.ghproxy_prefix,
{
    copy_opt_string(&cfg.ghproxy_prefix)
}

} // verus!
