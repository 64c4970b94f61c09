//! The `castle.toml` manifest: its types, their models and their defaults.
//!
//! Every field has a default, so a project with no manifest (or a partial
//! one) still builds. Reading and parsing the file is done by the front end,
//! which fills these types.

use vstd::prelude::*;

verus! {

/// The top-level manifest.
#[derive(Debug, Clone)]
pub struct Manifest {
    /// `[package]` metadata.
    pub package: Package,
    /// `[profile]` build settings.
    pub profile: Profile,
    /// Optional top-level `backend = "clang" | "cmake"`.
    pub backend: Option<String>,
}

/// `[package]`: identity and standard.
#[derive(Debug, Clone)]
pub struct Package {
    /// The project (and output binary) name.
    pub name: String,
    /// Semantic version, informational.
    pub version: String,
    /// Default C++ standard (23).
    pub cxx_standard: u32,
}

/// `[profile]`: the settings that compiler flags are derived from.
#[derive(Debug, Clone)]
pub struct Profile {
    /// Optimization level: `"0"`, `"1"`, `"2"`, `"3"`, `"s"`.
    pub opt_level: String,
    /// Emit `-g` debug info in non-release builds.
    pub debug_info: bool,
    /// Treat warnings as errors (`-Werror`).
    pub warnings_as_errors: bool,
    /// Enable `-Wpedantic`.
    pub pedantic: bool,
    /// Optional sanitizer: `"address"`, `"thread"`, `"undefined"`, `"memory"`.
    pub sanitizer: Option<String>,
}

/// Model of a [`Package`].
pub struct PackageModel {
    pub name: Seq<char>,
    pub version: Seq<char>,
    pub cxx_standard: u32,
}

/// Model of a [`Profile`].
pub struct ProfileModel {
    pub opt_level: Seq<char>,
    pub debug_info: bool,
    pub warnings_as_errors: bool,
    pub pedantic: bool,
    pub sanitizer: Option<Seq<char>>,
}

/// Model of a [`Manifest`].
pub struct ManifestModel {
    pub package: PackageModel,
    pub profile: ProfileModel,
    pub backend: Option<Seq<char>>,
}

impl View for Package {
    type V = PackageModel;

    open spec fn view(&self) -> PackageModel {
        PackageModel {
            name: self.name@,
            version: self.version@,
            cxx_standard: self.cxx_standard,
        }
    }
}

impl View for Profile {
    type V = ProfileModel;

    open spec fn view(&self) -> ProfileModel {
        ProfileModel {
            opt_level: self.opt_level@,
            debug_info: self.debug_info,
            warnings_as_errors: self.warnings_as_errors,
            pedantic: self.pedantic,
            sanitizer: self.sanitizer.deep_view(),
        }
    }
}

impl View for Manifest {
    type V = ManifestModel;

    open spec fn view(&self) -> ManifestModel {
        ManifestModel {
            package: self.package@,
            profile: self.profile@,
            backend: self.backend.deep_view(),
        }
    }
}

/// The default `[package]`: named `bin`, version `0.1.0`, C++23.
pub open spec fn default_package() -> PackageModel {
    PackageModel { name: "bin"@, version: "0.1.0"@, cxx_standard: 23 }
}

/// The default `[profile]`: `-O0`, debug info, no `-Werror`, `-Wpedantic`,
/// no sanitizer.
pub open spec fn default_profile() -> ProfileModel {
    ProfileModel {
        opt_level: "0"@,
        debug_info: true,
        warnings_as_errors: false,
        pedantic: true,
        sanitizer: None,
    }
}

/// The default manifest: default package and profile, no backend.
pub open spec fn default_manifest() -> ManifestModel {
    ManifestModel { package: default_package(), profile: default_profile(), backend: None }
}

impl Default for Package {
    fn default() -> (p: Self)
        ensures
            p@ == default_package(),
    {
        Package { name: "bin".to_owned(), version: "0.1.0".to_owned(), cxx_standard: 23 }
    }
}

impl Default for Profile {
    fn default() -> (p: Self)
        ensures
            p@ == default_profile(),
    {
        Profile {
            opt_level: "0".to_owned(),
            debug_info: true,
            warnings_as_errors: false,
            pedantic: true,
            sanitizer: None,
        }
    }
}

impl Default for Manifest {
    fn default() -> (m: Self)
        ensures
            m@ == default_manifest(),
    {
        Manifest { package: Package::default(), profile: Profile::default(), backend: None }
    }
}

} // verus!
