//! Shared helpers for build-related subcommands.
//!
//! [`resolve_build_config`] merges the manifest's `[profile]` with CLI
//! overrides (`--release`, `--cxx-standard`, sanitizer flags, `--pedantic`,
//! `--backend`) into a concrete `(Backend, Flags)` pair. Keeping this in one
//! place means `build`, `run`, and `check` can never drift apart.

use vstd::prelude::*;
use crate::backend::{flags_for, opt_manifest, opt_str, resolve_backend, Backend, Flags, FlagsModel};
use crate::error::{CastleError, ErrorModel};
use crate::manifest::{default_profile, Profile, ProfileModel};
use crate::project::{Project, ProjectModel};
use crate::text::{contains, contains_str, str_eq};

verus! {

/// The profile a project's manifest gives (the default profile without one).
pub open spec fn base_profile(project: ProjectModel) -> ProfileModel {
    match project.manifest {
        Some(m) => m.profile,
        None => default_profile(),
    }
}

/// The profile after the `--release`/`--debug` overlay: release forces `-O2`
/// and drops debug info, debug forces `-O0` with debug info; `None` for any
/// other profile name.
pub open spec fn overlay_profile(base: ProfileModel, profile_cli: Option<Seq<char>>) -> Option<
    ProfileModel,
> {
    match profile_cli {
        None => Some(base),
        Some(p) => if p == "release"@ {
            Some(
                ProfileModel {
                    opt_level: "2"@,
                    debug_info: false,
                    warnings_as_errors: base.warnings_as_errors,
                    pedantic: base.pedantic,
                    sanitizer: base.sanitizer,
                },
            )
        } else if p == "debug"@ {
            Some(
                ProfileModel {
                    opt_level: "0"@,
                    debug_info: true,
                    warnings_as_errors: base.warnings_as_errors,
                    pedantic: base.pedantic,
                    sanitizer: base.sanitizer,
                },
            )
        } else {
            None
        },
    }
}

/// The profile with `pedantic` set where the CLI says so.
pub open spec fn with_pedantic(p: ProfileModel, pedantic_override: Option<bool>) -> ProfileModel {
    match pedantic_override {
        Some(b) => ProfileModel {
            opt_level: p.opt_level,
            debug_info: p.debug_info,
            warnings_as_errors: p.warnings_as_errors,
            pedantic: b,
            sanitizer: p.sanitizer,
        },
        None => p,
    }
}

/// The C++ standard: CLI override > manifest > 23.
pub open spec fn effective_standard(project: ProjectModel, cxx_override: Option<u32>) -> u32 {
    match cxx_override {
        Some(n) => n,
        None => match project.manifest {
            Some(m) => m.package.cxx_standard,
            None => 23,
        },
    }
}

/// What `resolve_build_config` gives: an invalid profile name is reported
/// first, then an invalid backend; otherwise the backend and the flags of
/// the overlaid profile.
pub open spec fn build_config(
    project: ProjectModel,
    profile_cli: Option<Seq<char>>,
    cxx_override: Option<u32>,
    sanitizer_override: Option<Seq<char>>,
    pedantic_override: Option<bool>,
    backend_override: Option<Seq<char>>,
) -> Result<(Backend, FlagsModel), ErrorModel> {
    match overlay_profile(base_profile(project), profile_cli) {
        None => Err(ErrorModel::InvalidValue { field: "profile"@, value: profile_cli->Some_0 }),
        Some(p) => {
            let flags = flags_for(
                with_pedantic(p, pedantic_override),
                effective_standard(project, cxx_override),
                sanitizer_override,
            );
            match resolve_backend(project.manifest, backend_override) {
                Ok(b) => Ok((b, flags)),
                Err(e) => Err(e),
            }
        },
    }
}

/// The model of a `(Backend, Flags)` result.
pub open spec fn config_result(r: Result<(Backend, Flags), CastleError>) -> Result<
    (Backend, FlagsModel),
    ErrorModel,
> {
    match r {
        Ok((b, f)) => Ok((b, f@)),
        Err(e) => Err(e@),
    }
}

/// A copy of a profile.
fn copy_profile(p: &Profile) -> (r: Profile)
    ensures
        r@ == p@,
{
    Profile {
        opt_level: p.opt_level.clone(),
        debug_info: p.debug_info,
        warnings_as_errors: p.warnings_as_errors,
        pedantic: p.pedantic,
        sanitizer: match &p.sanitizer {
            Some(s) => Some(s.clone()),
            None => None,
        },
    }
}

/// Merge manifest defaults with CLI overrides.
///
/// - `profile_cli`: `"debug"` or `"release"`.
/// - `cxx_override`: e.g. `Some(26)`.
/// - `sanitizer_override`: e.g. `Some("address")` (already chosen by the CLI).
/// - `pedantic_override`: `--pedantic` on the CLI.
/// - `backend_override`: `--backend clang|cmake`.
pub fn resolve_build_config(
    project: &Project,
    profile_cli: Option<&str>,
    cxx_override: Option<u32>,
    sanitizer_override: Option<&str>,
    pedantic_override: Option<bool>,
    backend_override: Option<&str>,
) -> (r: Result<(Backend, Flags), CastleError>)
    ensures
        config_result(r) == build_config(
            project@,
            opt_str(profile_cli),
            cxx_override,
            opt_str(sanitizer_override),
            pedantic_override,
            opt_str(backend_override),
        ),
{
    let mut profile = match &project.manifest {
        Some(m) => copy_profile(&m.profile),
        None => Profile::default(),
    };

    if let Some(p) = profile_cli {
        if str_eq(p, "release") {
            profile.opt_level = "2".to_owned();
            profile.debug_info = false;
        } else if str_eq(p, "debug") {
            profile.opt_level = "0".to_owned();
            profile.debug_info = true;
        } else {
            return Err(CastleError::InvalidValue { field: "profile".to_owned(), value: p.to_owned() });
        }
    }

    if let Some(ped) = pedantic_override {
        profile.pedantic = ped;
    }

    let cxx = match cxx_override {
        Some(n) => n,
        None => match &project.manifest {
            Some(m) => m.package.cxx_standard,
            None => 23,
        },
    };

    let flags = Flags::from(&profile, cxx, sanitizer_override);
    let manifest_ref = match &project.manifest {
        Some(m) => Some(m),
        None => None,
    };
    assert(opt_manifest(manifest_ref) == project@.manifest);
    match Backend::resolve(manifest_ref, backend_override) {
        Ok(backend) => Ok((backend, flags)),
        Err(e) => Err(e),
    }
}

/// The minimum clang major version for a C++ standard.
pub open spec fn min_clang_spec(cxx_standard: u32) -> u32 {
    if cxx_standard <= 20 {
        14
    } else if cxx_standard == 23 {
        18
    } else {
        19
    }
}

/// The minimum clang major version Castle requires for a given standard:
/// 14 up to C++20, 18 for C++23, 19 otherwise.
pub fn min_clang_for(cxx_standard: u32) -> (r: u32)
    ensures
        r == min_clang_spec(cxx_standard),
{
    if cxx_standard <= 20 {
        14
    } else if cxx_standard == 23 {
        18
    } else {
        19
    }
}

/// What `validate_project_name` gives: a name must be non-empty, ASCII,
/// without spaces, and a single directory name (no `/`, `\` or `..`).
pub open spec fn validate_name_spec(name: Seq<char>) -> Result<(), ErrorModel> {
    if name.len() == 0 {
        Err(ErrorModel::InvalidProjectName("project must have a name"@))
    } else if !vstd::utf8::is_ascii_chars(name) || contains(name, " "@) {
        Err(
            ErrorModel::InvalidProjectName(
                "project can't contain spaces or non-ASCII characters"@,
            ),
        )
    } else if contains(name, "/"@) || contains(name, "\\"@) || contains(name, ".."@) {
        Err(ErrorModel::InvalidProjectName("project name must be a single directory name"@))
    } else {
        Ok(())
    }
}

/// Validate a project name: non-empty, ASCII, no spaces, no path separators.
pub fn validate_project_name(name: &str) -> (r: Result<(), CastleError>)
    ensures
        crate::error::result_model(r) == validate_name_spec(name@),
{
    if name.unicode_len() == 0 {
        return Err(CastleError::InvalidProjectName("project must have a name".to_owned()));
    }
    if !name.is_ascii() || contains_str(name, " ") {
        return Err(
            CastleError::InvalidProjectName(
                "project can't contain spaces or non-ASCII characters".to_owned(),
            ),
        );
    }
    if contains_str(name, "/") || contains_str(name, "\\") || contains_str(name, "..") {
        return Err(
            CastleError::InvalidProjectName(
                "project name must be a single directory name".to_owned(),
            ),
        );
    }
    Ok(())
}

} // verus!
