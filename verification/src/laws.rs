//! What the machine guarantees across steps: each law is stated over the
//! transition relation [`step_spec`] and proved once and for all.

use vstd::prelude::*;
use crate::error::ProvisionError;
use crate::platform::{Arch, Os, expected_asset_name, platform_supported};
use crate::provision::{
    Action, Event, InstallationStatus, Phase, Provisioner, Transition, has_asset, step_spec,
};

verus! {

/// Law: once a step has resolved a path, a following request resolves the
/// very same path at once — no status announcement, no host call of any
/// kind (in particular, no further release discovery), no state change.
pub proof fn lemma_idempotent_cache_hit(
    pre: Provisioner,
    event: Event,
    mid: Provisioner,
    first: Transition,
    post: Provisioner,
    second: Transition,
)
    requires
        step_spec(pre, event, mid, first),
        first.action is Resolved,
        step_spec(mid, Event::Begin, post, second),
    ensures
        second.announce is None,
        second.action is Resolved,
        second.action->Resolved_path == first.action->Resolved_path,
        post == mid,
{
}

/// Law: a regular file already at the computed path ends the attempt
/// there: the step resolves that very path, commands no host call at all
/// (so no download), and records the path for the rest of the process.
pub proof fn lemma_disk_cache_precedence(pre: Provisioner, post: Provisioner, t: Transition)
    requires
        pre.phase is AwaitingCacheProbe,
        step_spec(pre, Event::FileProbed { present: true }, post, t),
    ensures
        t.announce is None,
        t.action is Resolved,
        t.action->Resolved_path == pre.phase->AwaitingCacheProbe_binary_path,
        post.cached_binary_path == Some(pre.phase->AwaitingCacheProbe_binary_path),
        post.phase is Idle,
{
}

/// Law: when the download reported success but no regular file is at the
/// target path, the attempt fails with the verification error, announces
/// the `Failed` status with its fixed message, and leaves the in-memory
/// cache exactly as it was (unpopulated on any failure path).
pub proof fn lemma_download_verification_failure(pre: Provisioner, post: Provisioner, t: Transition)
    requires
        pre.phase is AwaitingVerifyProbe,
        step_spec(pre, Event::FileProbed { present: false }, post, t),
    ensures
        t.announce matches Some(InstallationStatus::Failed(m)) && m@
            == "Failed to download language server"@,
        t.action matches Action::Failed { error } && error == ProvisionError::DownloadVerification,
        post.cached_binary_path == pre.cached_binary_path,
        post.phase is Idle,
{
}

/// Law: no failure populates the in-memory cache: a failed step leaves the
/// cache exactly as it was and returns the machine to its idle phase, so
/// the next request re-attempts resolution from the start.
pub proof fn lemma_failure_leaves_cache_unchanged(
    pre: Provisioner,
    event: Event,
    post: Provisioner,
    t: Transition,
)
    requires
        step_spec(pre, event, post, t),
        t.action is Failed,
    ensures
        post.cached_binary_path == pre.cached_binary_path,
        post.phase is Idle,
{
}

/// Law: a release that lacks the expected asset for a supported platform
/// fails with the asset-not-found error, never the unsupported-platform
/// one; an unsupported platform fails with the unsupported-platform error,
/// whatever the release holds.
pub proof fn lemma_asset_absence_distinct_from_unsupported(
    pre: Provisioner,
    os: Os,
    arch: Arch,
    post: Provisioner,
    t: Transition,
)
    requires
        pre.phase is AwaitingPlatform,
        step_spec(pre, Event::PlatformDetected { os, arch }, post, t),
    ensures
        platform_supported(os, arch) && !has_asset(
            pre.phase->AwaitingPlatform_release.assets@,
            expected_asset_name(os, arch),
        ) ==> (t.action matches Action::Failed { error } && error matches
            ProvisionError::AssetNotFound { asset_name } && asset_name@ == expected_asset_name(
            os,
            arch,
        )),
        !platform_supported(os, arch) ==> (t.action matches Action::Failed { error }
            && error matches ProvisionError::UnsupportedPlatform { os: o, arch: a } && o == os && a
            == arch),
{
}

} // verus!
