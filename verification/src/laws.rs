//! Properties that hold across the resolvers and the settings record.

use crate::accel::{
    spec_ghfast_prefix, spec_ghproxy_prefix, gh_mode, npm_mode, spec_accel_config, spec_auto_gh_prefix, spec_auto_npm_registry,
    spec_gh_mirror_prefix, spec_npm_registry_url, GHPROXY_PREFIX, NPM_MIRROR_REGISTRY,
    OFFICIAL_NPM_REGISTRY,
};
use crate::constants::DSH_MIRROR_PREFIX;
use crate::external::ExternalConfigView;
use crate::region::Region;
use crate::setting::{default_setting, SettingView};
use crate::constants::{STORE_DAT_DEV_FILE, STORE_DAT_FILE};
use crate::setting::spec_default_port;
use crate::text::{is_white_space, lemma_trim_end_prefix, lemma_trim_start_first, trim_start, lemma_trimmed_idempotent, or_empty, trimmed, with_trailing_slash};
use vstd::prelude::*;

verus! {

/// A text that ends with `/`.
pub open spec fn ends_with_slash(t: Seq<char>) -> bool {
    t.len() > 0 && t.last() == '/'
}

/// `r` is `t` when `t` already ends with `/`, and `t` followed by `/` otherwise.
pub open spec fn slash_form(r: Seq<char>, t: Seq<char>) -> bool {
    if t.len() > 0 && t.last() == '/' {
        r == t
    } else {
        r == t.push('/')
    }
}

/// Appending the trailing slash keeps the text as a prefix, ends with `/`,
/// leaves a text that already ends with `/` as it is, and a second application
/// changes nothing.
pub proof fn trailing_slash_law(s: Seq<char>)
    ensures
        ends_with_slash(with_trailing_slash(s)),
        with_trailing_slash(s).subrange(0, s.len() as int) == s,
        ends_with_slash(s) ==> with_trailing_slash(s) == s,
        with_trailing_slash(with_trailing_slash(s)) == with_trailing_slash(s),
        slash_form(with_trailing_slash(s), s),
{
    assert(s.push('/').subrange(0, s.len() as int) =~= s);
}

/// The built-in registries and relay prefixes all end with `/`.
pub proof fn builtin_addresses_end_with_slash()
    ensures
        ends_with_slash(OFFICIAL_NPM_REGISTRY@),
        ends_with_slash(NPM_MIRROR_REGISTRY@),
        ends_with_slash(DSH_MIRROR_PREFIX@),
        ends_with_slash(GHPROXY_PREFIX@),
{
    reveal_strlit("https://registry.npmjs.org/");
    reveal_strlit("https://registry.npmmirror.com/");
    reveal_strlit("https://ghfast.top/");
    reveal_strlit("https://ghproxy.com/");
}

/// The npm registry URL in effect always ends with `/`, whatever the
/// settings, the overrides and the region.
pub proof fn npm_registry_url_ends_with_slash(s: SettingView, ext: ExternalConfigView, region: Region)
    ensures
        ends_with_slash(spec_npm_registry_url(s, ext, region)),
{
    builtin_addresses_end_with_slash();
    if let Some(u) = ext.npm_registry {
        trailing_slash_law(u);
    }
    trailing_slash_law(trimmed(or_empty(s.npm_registry_custom)));
    if let Some(u) = ext.npm_registry {
        trailing_slash_law(trimmed(u));
    }
}

/// Every GitHub relay prefix in effect ends with `/`.
pub proof fn gh_mirror_prefix_ends_with_slash(s: SettingView, ext: ExternalConfigView, region: Region)
    ensures
        spec_gh_mirror_prefix(s, ext, region) matches Some(p) ==> ends_with_slash(p),
{
    builtin_addresses_end_with_slash();
    if let Some(p) = ext.gh_mirror_prefix {
        trailing_slash_law(p);
    }
    if let Some(p) = ext.ghfast_prefix {
        trailing_slash_law(p);
    }
    if let Some(p) = ext.ghproxy_prefix {
        trailing_slash_law(p);
    }
    trailing_slash_law(trimmed(or_empty(s.gh_accel_custom)));
}

/// The strategy names are pairwise distinct texts.
proof fn mode_names_distinct()
    ensures
        npm_mode::AUTO@ != npm_mode::OFFICIAL@,
        npm_mode::AUTO@ != npm_mode::NPM_MIRROR@,
        npm_mode::AUTO@ != npm_mode::CUSTOM@,
        npm_mode::AUTO@ != npm_mode::GOVERNANCE@,
        gh_mode::AUTO@ != gh_mode::NONE@,
        gh_mode::AUTO@ != gh_mode::GHFAST@,
        gh_mode::AUTO@ != gh_mode::GHPROXY@,
        gh_mode::AUTO@ != gh_mode::CUSTOM@,
{
    reveal_strlit("auto");
    reveal_strlit("official");
    reveal_strlit("npmmirror");
    reveal_strlit("custom");
    reveal_strlit("governance");
    reveal_strlit("none");
    reveal_strlit("ghfast");
    reveal_strlit("ghproxy");
    assert(npm_mode::AUTO@[0] != npm_mode::OFFICIAL@[0]);
    assert(npm_mode::AUTO@[0] != npm_mode::NPM_MIRROR@[0]);
    assert(npm_mode::AUTO@[0] != npm_mode::CUSTOM@[0]);
    assert(npm_mode::AUTO@[0] != npm_mode::GOVERNANCE@[0]);
    assert(gh_mode::AUTO@[0] != gh_mode::NONE@[0]);
    assert(gh_mode::AUTO@[0] != gh_mode::GHFAST@[0]);
    assert(gh_mode::AUTO@[0] != gh_mode::GHPROXY@[0]);
    assert(gh_mode::AUTO@[0] != gh_mode::CUSTOM@[0]);
}

/// An npm registry strategy that was never chosen behaves as `auto`, and
/// both resolve as the `auto` strategy does.
pub proof fn npm_unset_mode_is_auto(s: SettingView, ext: ExternalConfigView, region: Region)
    requires
        s.npm_registry_mode is None,
    ensures
        spec_npm_registry_url(s, ext, region) == spec_npm_registry_url(
            SettingView { npm_registry_mode: Some(npm_mode::AUTO@), ..s },
            ext,
            region,
        ),
        spec_npm_registry_url(s, ext, region) == spec_auto_npm_registry(ext, region),
{
    mode_names_distinct();
}

/// A GitHub relay strategy that was never chosen behaves as `auto`, and both
/// resolve as the `auto` strategy does.
pub proof fn gh_unset_mode_is_auto(s: SettingView, ext: ExternalConfigView, region: Region)
    requires
        s.gh_accel_mode is None,
    ensures
        spec_gh_mirror_prefix(s, ext, region) == spec_gh_mirror_prefix(
            SettingView { gh_accel_mode: Some(gh_mode::AUTO@), ..s },
            ext,
            region,
        ),
        spec_gh_mirror_prefix(s, ext, region) == spec_auto_gh_prefix(ext, region),
{
    mode_names_distinct();
}

/// The `custom` npm strategy with a blank (or absent) URL falls back to `auto`.
pub proof fn npm_blank_custom_falls_back_to_auto(s: SettingView, ext: ExternalConfigView, region: Region)
    requires
        s.npm_registry_mode == Some(npm_mode::CUSTOM@),
        trimmed(or_empty(s.npm_registry_custom)).len() == 0,
    ensures
        spec_npm_registry_url(s, ext, region) == spec_auto_npm_registry(ext, region),
{
    reveal_strlit("official");
    reveal_strlit("npmmirror");
    reveal_strlit("custom");
    assert(npm_mode::CUSTOM@[0] != npm_mode::OFFICIAL@[0]);
    assert(npm_mode::CUSTOM@[0] != npm_mode::NPM_MIRROR@[0]);
}

/// The `custom` GitHub strategy with a blank (or absent) prefix falls back to `auto`.
pub proof fn gh_blank_custom_falls_back_to_auto(s: SettingView, ext: ExternalConfigView, region: Region)
    requires
        s.gh_accel_mode == Some(gh_mode::CUSTOM@),
        trimmed(or_empty(s.gh_accel_custom)).len() == 0,
    ensures
        spec_gh_mirror_prefix(s, ext, region) == spec_auto_gh_prefix(ext, region),
{
    reveal_strlit("none");
    reveal_strlit("ghfast");
    reveal_strlit("ghproxy");
    reveal_strlit("custom");
    assert(gh_mode::CUSTOM@[0] != gh_mode::NONE@[0]);
    assert(gh_mode::CUSTOM@[0] != gh_mode::GHFAST@[0]);
    assert(gh_mode::CUSTOM@[0] != gh_mode::GHPROXY@[0]);
}

/// The governance strategy uses the `npmRegistry` override when it is set and
/// not blank, and falls back to `auto` otherwise.
pub proof fn npm_governance_uses_override(s: SettingView, ext: ExternalConfigView, region: Region)
    requires
        s.npm_registry_mode == Some(npm_mode::GOVERNANCE@),
    ensures
        ext.npm_registry is Some && trimmed(ext.npm_registry->0).len() > 0
            ==> spec_npm_registry_url(s, ext, region) == with_trailing_slash(
            trimmed(ext.npm_registry->0),
        ),
        !(ext.npm_registry is Some && trimmed(ext.npm_registry->0).len() > 0)
            ==> spec_npm_registry_url(
            s,
            ext,
            region,
        ) == spec_auto_npm_registry(ext, region),
{
    reveal_strlit("official");
    reveal_strlit("npmmirror");
    reveal_strlit("custom");
    reveal_strlit("governance");
    assert(npm_mode::GOVERNANCE@[0] != npm_mode::OFFICIAL@[0]);
    assert(npm_mode::GOVERNANCE@[0] != npm_mode::NPM_MIRROR@[0]);
    assert(npm_mode::GOVERNANCE@[0] != npm_mode::CUSTOM@[0]);
}

/// Under `auto`, an override from `desktop-config.json` comes before the
/// region: the region then changes nothing.
pub proof fn auto_override_beats_region(ext: ExternalConfigView)
    ensures
        ext.npm_registry is Some ==> spec_auto_npm_registry(ext, Region::Domestic)
            == spec_auto_npm_registry(ext, Region::Overseas),
        ext.gh_mirror_prefix is Some ==> spec_auto_gh_prefix(ext, Region::Domestic)
            == spec_auto_gh_prefix(ext, Region::Overseas),
{
}

/// Without overrides, `auto` picks the mirrors inside mainland China and the
/// official sources (a direct connection to GitHub) elsewhere.
pub proof fn auto_follows_region(ext: ExternalConfigView)
    requires
        ext.npm_registry is None,
        ext.gh_mirror_prefix is None,
        ext.ghfast_prefix is None,
    ensures
        spec_auto_npm_registry(ext, Region::Domestic) == NPM_MIRROR_REGISTRY@,
        spec_auto_npm_registry(ext, Region::Overseas) == OFFICIAL_NPM_REGISTRY@,
        spec_auto_gh_prefix(ext, Region::Domestic) == Some(DSH_MIRROR_PREFIX@),
        spec_auto_gh_prefix(ext, Region::Overseas) is None,
{
}

/// The front-end view shows a strategy never chosen as `auto`, shows an empty
/// relay prefix exactly when GitHub is reached directly, and always shows a
/// registry URL that ends with `/`.
pub proof fn accel_config_view_law(s: SettingView, ext: ExternalConfigView, region: Region)
    ensures
        s.npm_registry_mode is None ==> spec_accel_config(s, ext, region).npm_registry_mode
            == npm_mode::AUTO@,
        s.gh_accel_mode is None ==> spec_accel_config(s, ext, region).gh_accel_mode
            == gh_mode::AUTO@,
        (spec_accel_config(s, ext, region).gh_accel_prefix.len() == 0) <==> spec_gh_mirror_prefix(
            s,
            ext,
            region,
        ) is None,
        ends_with_slash(spec_accel_config(s, ext, region).npm_registry_url),
{
    gh_mirror_prefix_ends_with_slash(s, ext, region);
    npm_registry_url_ends_with_slash(s, ext, region);
}

/// A fresh settings record resolves both strategies as `auto`.
pub proof fn default_setting_is_auto(debug_build: bool, ext: ExternalConfigView, region: Region)
    ensures
        spec_npm_registry_url(default_setting(debug_build), ext, region) == spec_auto_npm_registry(
            ext,
            region,
        ),
        spec_gh_mirror_prefix(default_setting(debug_build), ext, region) == spec_auto_gh_prefix(
            ext,
            region,
        ),
        spec_accel_config(default_setting(debug_build), ext, region).npm_registry_mode
            == npm_mode::AUTO@,
        spec_accel_config(default_setting(debug_build), ext, region).gh_accel_mode
            == gh_mode::AUTO@,
{
}

/// White space around a custom registry URL or relay prefix does not matter:
/// the settings resolve as if the custom value were already trimmed.
pub proof fn custom_values_are_trimmed(s: SettingView, ext: ExternalConfigView, region: Region)
    ensures
        spec_npm_registry_url(s, ext, region) == spec_npm_registry_url(
            SettingView {
                npm_registry_custom: Some(trimmed(or_empty(s.npm_registry_custom))),
                ..s
            },
            ext,
            region,
        ),
        spec_gh_mirror_prefix(s, ext, region) == spec_gh_mirror_prefix(
            SettingView { gh_accel_custom: Some(trimmed(or_empty(s.gh_accel_custom))), ..s },
            ext,
            region,
        ),
{
    lemma_trimmed_idempotent(or_empty(s.npm_registry_custom));
    lemma_trimmed_idempotent(or_empty(s.gh_accel_custom));
}

/// Recording a commit hash makes it what is read back and leaves the rest of
/// the record (the release tag included) as it was; recording a release tag
/// does the same for the tag.
pub proof fn pkg_record_read_after_write(s: SettingView, commit: Seq<char>, tag: Seq<char>)
    ensures
        (SettingView { dsh_pkg_commit: Some(commit), ..s }).dsh_pkg_commit == Some(commit),
        (SettingView { dsh_pkg_commit: Some(commit), ..s }).dsh_pkg_tag == s.dsh_pkg_tag,
        (SettingView { dsh_pkg_tag: Some(tag), ..s }).dsh_pkg_tag == Some(tag),
        (SettingView { dsh_pkg_tag: Some(tag), ..s }).dsh_pkg_commit == s.dsh_pkg_commit,
        forall|ext: ExternalConfigView, region: Region|
            spec_npm_registry_url(SettingView { dsh_pkg_commit: Some(commit), ..s }, ext, region)
                == #[trigger] spec_npm_registry_url(s, ext, region),
{
}

/// The names of the strategies, and the built-in addresses, as the texts
/// they are.
proof fn names_are_texts()
    ensures
        npm_mode::AUTO@ == "auto"@,
        npm_mode::OFFICIAL@ == "official"@,
        npm_mode::NPM_MIRROR@ == "npmmirror"@,
        npm_mode::CUSTOM@ == "custom"@,
        npm_mode::GOVERNANCE@ == "governance"@,
        gh_mode::AUTO@ == "auto"@,
        gh_mode::NONE@ == "none"@,
        gh_mode::GHFAST@ == "ghfast"@,
        gh_mode::GHPROXY@ == "ghproxy"@,
        gh_mode::CUSTOM@ == "custom"@,
        OFFICIAL_NPM_REGISTRY@ == "https://registry.npmjs.org/"@,
        NPM_MIRROR_REGISTRY@ == "https://registry.npmmirror.com/"@,
        DSH_MIRROR_PREFIX@ == "https://ghfast.top/"@,
        GHPROXY_PREFIX@ == "https://ghproxy.com/"@,
        "official"@ != "npmmirror"@,
        "official"@ != "custom"@,
        "official"@ != "governance"@,
        "npmmirror"@ != "custom"@,
        "npmmirror"@ != "governance"@,
        "custom"@ != "governance"@,
        "none"@ != "ghfast"@,
        "none"@ != "ghproxy"@,
        "none"@ != "custom"@,
        "ghfast"@ != "ghproxy"@,
        "ghfast"@ != "custom"@,
        "ghproxy"@ != "custom"@,
{
    reveal_strlit("official");
    reveal_strlit("npmmirror");
    reveal_strlit("custom");
    reveal_strlit("governance");
    reveal_strlit("none");
    reveal_strlit("ghfast");
    reveal_strlit("ghproxy");
    assert("official"@[0] != "npmmirror"@[0]);
    assert("official"@[0] != "custom"@[0]);
    assert("official"@[0] != "governance"@[0]);
    assert("npmmirror"@[0] != "custom"@[0]);
    assert("npmmirror"@[0] != "governance"@[0]);
    assert("custom"@[0] != "governance"@[0]);
    assert("none"@[0] != "ghfast"@[0]);
    assert("none"@[0] != "ghproxy"@[0]);
    assert("none"@[0] != "custom"@[0]);
    assert("ghfast"@[2] != "ghproxy"@[2]);
    assert("ghfast"@[0] != "custom"@[0]);
    assert("ghproxy"@[0] != "custom"@[0]);
}

/// An npm strategy other than `official`, `npmmirror`, `custom` and
/// `governance` (including none chosen, `auto`, and an unknown name).
pub open spec fn npm_mode_is_auto_like(mode: Option<Seq<char>>) -> bool {
    &&& mode != Some("official"@)
    &&& mode != Some("npmmirror"@)
    &&& mode != Some("custom"@)
    &&& mode != Some("governance"@)
}

/// A GitHub strategy other than `none`, `ghfast`, `ghproxy` and `custom`
/// (including none chosen, `auto`, and an unknown name).
pub open spec fn gh_mode_is_auto_like(mode: Option<Seq<char>>) -> bool {
    &&& mode != Some("none"@)
    &&& mode != Some("ghfast"@)
    &&& mode != Some("ghproxy"@)
    &&& mode != Some("custom"@)
}

/// An explicit npm choice is taken as chosen, whatever the overrides and the
/// region: `official` gives the npmjs.org registry, `npmmirror` the npmmirror
/// registry, and `custom` with a non-blank URL gives that URL trimmed, with a
/// `/` appended unless it already ends with one.
pub proof fn npm_explicit_choice_is_taken(s: SettingView, ext: ExternalConfigView, region: Region)
    ensures
        s.npm_registry_mode == Some("official"@) ==> spec_npm_registry_url(s, ext, region)
            == "https://registry.npmjs.org/"@,
        s.npm_registry_mode == Some("npmmirror"@) ==> spec_npm_registry_url(s, ext, region)
            == "https://registry.npmmirror.com/"@,
        s.npm_registry_mode == Some("custom"@) && trimmed(or_empty(s.npm_registry_custom)).len()
            > 0 ==> slash_form(
            spec_npm_registry_url(s, ext, region),
            trimmed(or_empty(s.npm_registry_custom)),
        ),
{
    names_are_texts();
}

/// The npm registry under `auto` (or no choice, or an unknown name): the
/// `npmRegistry` override with a `/` appended unless it already ends with one,
/// and without an override npmmirror inside mainland China and npmjs.org
/// elsewhere.
pub proof fn npm_auto_resolution(s: SettingView, ext: ExternalConfigView, region: Region)
    requires
        npm_mode_is_auto_like(s.npm_registry_mode),
    ensures
        ext.npm_registry is Some ==> slash_form(
            spec_npm_registry_url(s, ext, region),
            ext.npm_registry->0,
        ),
        ext.npm_registry is None && region == Region::Domestic ==> spec_npm_registry_url(
            s,
            ext,
            region,
        ) == "https://registry.npmmirror.com/"@,
        ext.npm_registry is None && region == Region::Overseas ==> spec_npm_registry_url(
            s,
            ext,
            region,
        ) == "https://registry.npmjs.org/"@,
        spec_npm_registry_url(s, ext, region) == spec_npm_registry_url(
            SettingView { npm_registry_mode: None, ..s },
            ext,
            region,
        ),
{
    names_are_texts();
    if let Some(u) = ext.npm_registry {
        trailing_slash_law(u);
    }
}

/// `custom` with a blank or absent URL, and `governance` without a non-blank
/// `npmRegistry` override, resolve as if no strategy had been chosen;
/// `governance` with a non-blank override gives it trimmed, with a `/`
/// appended unless it already ends with one.
pub proof fn npm_fallbacks(s: SettingView, ext: ExternalConfigView, region: Region)
    ensures
        s.npm_registry_mode == Some("custom"@) && trimmed(or_empty(s.npm_registry_custom)).len()
            == 0 ==> spec_npm_registry_url(s, ext, region) == spec_npm_registry_url(
            SettingView { npm_registry_mode: None, ..s },
            ext,
            region,
        ),
        s.npm_registry_mode == Some("custom"@) && s.npm_registry_custom is None
            ==> spec_npm_registry_url(s, ext, region) == spec_npm_registry_url(
            SettingView { npm_registry_mode: None, ..s },
            ext,
            region,
        ),
        s.npm_registry_mode == Some("governance"@) && ext.npm_registry is Some && trimmed(
            ext.npm_registry->0,
        ).len() > 0 ==> slash_form(
            spec_npm_registry_url(s, ext, region),
            trimmed(ext.npm_registry->0),
        ),
        s.npm_registry_mode == Some("governance"@) && !(ext.npm_registry is Some && trimmed(
            ext.npm_registry->0,
        ).len() > 0) ==> spec_npm_registry_url(s, ext, region) == spec_npm_registry_url(
            SettingView { npm_registry_mode: None, ..s },
            ext,
            region,
        ),
{
    names_are_texts();
    assert(trimmed(Seq::<char>::empty()) =~= Seq::<char>::empty());
    trailing_slash_law(trimmed(or_empty(s.npm_registry_custom)));
    if let Some(u) = ext.npm_registry {
        trailing_slash_law(trimmed(u));
    }
}

/// An explicit GitHub choice is taken as chosen, whatever the region: `none`
/// is a direct connection; `ghfast` and `ghproxy` give their override with a
/// `/` appended unless it already ends with one, or else `https://ghfast.top/`
/// and `https://ghproxy.com/`; `custom` with a non-blank prefix gives it
/// trimmed, with a `/` appended unless it already ends with one, whatever the
/// `ghMirrorPrefix` override says.
pub proof fn gh_explicit_choice_is_taken(s: SettingView, ext: ExternalConfigView, region: Region)
    ensures
        s.gh_accel_mode == Some("none"@) ==> spec_gh_mirror_prefix(s, ext, region) is None,
        s.gh_accel_mode == Some("ghfast"@) && ext.ghfast_prefix is Some ==> spec_gh_mirror_prefix(
            s,
            ext,
            region,
        ) is Some && slash_form(
            spec_gh_mirror_prefix(s, ext, region)->0,
            ext.ghfast_prefix->0,
        ),
        s.gh_accel_mode == Some("ghfast"@) && ext.ghfast_prefix is None ==> spec_gh_mirror_prefix(
            s,
            ext,
            region,
        ) == Some("https://ghfast.top/"@),
        s.gh_accel_mode == Some("ghproxy"@) && ext.ghproxy_prefix is Some
            ==> spec_gh_mirror_prefix(s, ext, region) is Some && slash_form(
            spec_gh_mirror_prefix(s, ext, region)->0,
            ext.ghproxy_prefix->0,
        ),
        s.gh_accel_mode == Some("ghproxy"@) && ext.ghproxy_prefix is None
            ==> spec_gh_mirror_prefix(s, ext, region) == Some("https://ghproxy.com/"@),
        s.gh_accel_mode == Some("custom"@) && trimmed(or_empty(s.gh_accel_custom)).len() > 0
            ==> spec_gh_mirror_prefix(s, ext, region) is Some && slash_form(
            spec_gh_mirror_prefix(s, ext, region)->0,
            trimmed(or_empty(s.gh_accel_custom)),
        ),
        s.gh_accel_mode == Some("custom"@) && s.gh_accel_custom is None ==> spec_gh_mirror_prefix(
            s,
            ext,
            region,
        ) == spec_gh_mirror_prefix(SettingView { gh_accel_mode: None, ..s }, ext, region),
        s.gh_accel_mode == Some("custom"@) && trimmed(or_empty(s.gh_accel_custom)).len() == 0
            ==> spec_gh_mirror_prefix(s, ext, region) == spec_gh_mirror_prefix(
            SettingView { gh_accel_mode: None, ..s },
            ext,
            region,
        ),
{
    names_are_texts();
    assert(trimmed(Seq::<char>::empty()) =~= Seq::<char>::empty());
    if let Some(p) = ext.ghfast_prefix {
        trailing_slash_law(p);
    }
    if let Some(p) = ext.ghproxy_prefix {
        trailing_slash_law(p);
    }
    trailing_slash_law(trimmed(or_empty(s.gh_accel_custom)));
}

/// The GitHub relay under `auto` (or no choice, or an unknown name): the
/// `ghMirrorPrefix` override with a `/` appended unless it already ends with
/// one; without it, the ghfast relay (as `ghfast` would give) inside mainland
/// China and a direct connection elsewhere.
pub proof fn gh_auto_resolution(s: SettingView, ext: ExternalConfigView, region: Region)
    requires
        gh_mode_is_auto_like(s.gh_accel_mode),
    ensures
        ext.gh_mirror_prefix is Some ==> spec_gh_mirror_prefix(s, ext, region) is Some
            && slash_form(spec_gh_mirror_prefix(s, ext, region)->0, ext.gh_mirror_prefix->0),
        ext.gh_mirror_prefix is None && region == Region::Domestic ==> spec_gh_mirror_prefix(
            s,
            ext,
            region,
        ) == spec_gh_mirror_prefix(
            SettingView { gh_accel_mode: Some("ghfast"@), ..s },
            ext,
            region,
        ),
        ext.gh_mirror_prefix is None && ext.ghfast_prefix is None && region == Region::Domestic
            ==> spec_gh_mirror_prefix(s, ext, region) == Some("https://ghfast.top/"@),
        ext.gh_mirror_prefix is None && region == Region::Overseas ==> spec_gh_mirror_prefix(
            s,
            ext,
            region,
        ) is None,
        spec_gh_mirror_prefix(s, ext, region) == spec_gh_mirror_prefix(
            SettingView { gh_accel_mode: None, ..s },
            ext,
            region,
        ),
{
    names_are_texts();
    if let Some(p) = ext.gh_mirror_prefix {
        trailing_slash_law(p);
    }
}

/// The front-end view agrees with the resolvers: its registry URL is the one
/// `npm_registry_url` gives, its relay prefix the one `gh_mirror_prefix` gives
/// (empty for a direct connection); the chosen strategies and custom values
/// are shown as recorded, with `auto` for no strategy and empty for no value.
pub proof fn accel_config_agrees_with_resolvers(s: SettingView, ext: ExternalConfigView, region: Region)
    ensures
        spec_accel_config(s, ext, region).npm_registry_url == spec_npm_registry_url(s, ext, region),
        spec_gh_mirror_prefix(s, ext, region) is Some ==> spec_accel_config(
            s,
            ext,
            region,
        ).gh_accel_prefix == spec_gh_mirror_prefix(s, ext, region)->0,
        spec_gh_mirror_prefix(s, ext, region) is None ==> spec_accel_config(
            s,
            ext,
            region,
        ).gh_accel_prefix == Seq::<char>::empty(),
        s.npm_registry_mode is Some ==> spec_accel_config(s, ext, region).npm_registry_mode
            == s.npm_registry_mode->0,
        s.npm_registry_mode is None ==> spec_accel_config(s, ext, region).npm_registry_mode
            == "auto"@,
        s.gh_accel_mode is Some ==> spec_accel_config(s, ext, region).gh_accel_mode
            == s.gh_accel_mode->0,
        s.gh_accel_mode is None ==> spec_accel_config(s, ext, region).gh_accel_mode == "auto"@,
        s.npm_registry_custom is Some ==> spec_accel_config(s, ext, region).npm_registry_custom
            == s.npm_registry_custom->0,
        s.npm_registry_custom is None ==> spec_accel_config(s, ext, region).npm_registry_custom
            == Seq::<char>::empty(),
        s.gh_accel_custom is Some ==> spec_accel_config(s, ext, region).gh_accel_custom
            == s.gh_accel_custom->0,
        s.gh_accel_custom is None ==> spec_accel_config(s, ext, region).gh_accel_custom
            == Seq::<char>::empty(),
{
    names_are_texts();
}

/// The fresh settings record: not installed, auto-start on, `zh-CN`, no
/// package record, the command-line link on, guide not done, no preset hash,
/// not migrated, the `web` profile, automatic core, no manual port, and no
/// acceleration strategy chosen; port 3081 for a debug build and 3080 for a
/// release build. The two builds differ in the port alone.
pub proof fn fresh_setting_law(debug_build: bool)
    ensures
        default_setting(debug_build).installed == false,
        default_setting(debug_build).auto_start == true,
        default_setting(debug_build).language == "zh-CN"@,
        default_setting(debug_build).dsh_pkg_commit is None,
        default_setting(debug_build).dsh_pkg_tag is None,
        default_setting(debug_build).cli_link_enabled == true,
        default_setting(debug_build).preinstall_done == false,
        default_setting(debug_build).preset_hash is None,
        default_setting(debug_build).dsh_home_migrated == false,
        default_setting(debug_build).active_profile == "web"@,
        default_setting(debug_build).active_core is None,
        default_setting(debug_build).manual_port is None,
        default_setting(debug_build).npm_registry_mode is None,
        default_setting(debug_build).npm_registry_custom is None,
        default_setting(debug_build).gh_accel_mode is None,
        default_setting(debug_build).gh_accel_custom is None,
        default_setting(true).port == 3081,
        default_setting(false).port == 3080,
        (SettingView { port: 0, ..default_setting(true) }) == (SettingView {
            port: 0,
            ..default_setting(false)
        }),
{
}

/// Debug builds serve on 3081 and release builds on 3080, and the two keep
/// their records in different store files.
pub proof fn build_defaults_law()
    ensures
        spec_default_port(true) == 3081,
        spec_default_port(false) == 3080,
        STORE_DAT_DEV_FILE@ != STORE_DAT_FILE@,
{
    reveal_strlit("store.dat");
    reveal_strlit("store.dev.dat");
    assert(STORE_DAT_DEV_FILE@.len() != STORE_DAT_FILE@.len());
}

/// Trimming leaves no white space at either end, leaves a text without white
/// space at its ends as it is, and turns a text of white space alone into the
/// empty text.
pub proof fn trimming_law(s: Seq<char>)
    ensures
        trimmed(s).len() > 0 ==> !is_white_space(trimmed(s)[0]) && !is_white_space(
            trimmed(s).last(),
        ),
        trimmed(s).len() <= s.len(),
        (s.len() == 0 || (!is_white_space(s[0]) && !is_white_space(s.last()))) ==> trimmed(s)
            == s,
        (forall|i: int| 0 <= i < s.len() ==> is_white_space(#[trigger] s[i])) ==> trimmed(s).len()
            == 0,
{
    let a = trim_start(s);
    lemma_trim_start_first(s);
    lemma_trim_end_prefix(a);
    lemma_trim_start_suffix(s);
    if trimmed(s).len() > 0 {
        assert(trimmed(s)[0] == a[0]);
    }
    if forall|i: int| 0 <= i < s.len() ==> is_white_space(#[trigger] s[i]) {
        lemma_all_white_space_trims_away(s);
    }
}

/// Removing leading white space leaves a suffix of the text.
proof fn lemma_trim_start_suffix(s: Seq<char>)
    ensures
        trim_start(s).len() <= s.len(),
        trim_start(s) == s.subrange(s.len() - trim_start(s).len(), s.len() as int),
    decreases s.len(),
{
    if s.len() > 0 && is_white_space(s[0]) {
        lemma_trim_start_suffix(s.drop_first());
        assert(s.drop_first().subrange(
            s.drop_first().len() - trim_start(s).len(),
            s.drop_first().len() as int,
        ) =~= s.subrange(s.len() - trim_start(s).len(), s.len() as int));
    } else {
        assert(s.subrange(0, s.len() as int) =~= s);
    }
}

/// A text of white space alone has nothing left after its leading white space.
proof fn lemma_all_white_space_trims_away(s: Seq<char>)
    requires
        forall|i: int| 0 <= i < s.len() ==> is_white_space(#[trigger] s[i]),
    ensures
        trim_start(s).len() == 0,
    decreases s.len(),
{
    if s.len() > 0 {
        assert(is_white_space(s[0]));
        assert forall|i: int| 0 <= i < s.drop_first().len() implies is_white_space(
            #[trigger] s.drop_first()[i],
        ) by {
            assert(s.drop_first()[i] == s[i + 1]);
        }
        lemma_all_white_space_trims_away(s.drop_first());
    }
}

} // verus!
