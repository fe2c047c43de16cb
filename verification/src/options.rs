//! The option records handed to the operations, one per subcommand.
//!
//! A record is well formed when each of its paths is absolute.

use vstd::prelude::*;
use crate::path::path_is_absolute;
use crate::text::string_view;

verus! {

/// What `init` is run with.
#[derive(Debug, Clone, PartialEq, Eq)]
pub struct InitOptions {
    /// Where the project is created.
    pub project_path: String,
    /// The kind of project, as given: `place` or `model`.
    pub kind: Option<String>,
}

/// What `serve` is run with.
#[derive(Debug, Clone, PartialEq, Eq)]
pub struct ServeOptions {
    /// The project to serve.
    pub project_path: String,
    /// The port to listen on, where one was given.
    pub port: Option<u16>,
}

/// What `build` is run with.
#[derive(Debug, Clone, PartialEq, Eq)]
pub struct BuildOptions {
    /// The project to build.
    pub project_path: String,
    /// Where the result is written.
    pub output_file: String,
    /// The kind of output. No argument sets it: it is always `None`.
    pub output_kind: Option<String>,
}

/// What `upload` is run with.
#[derive(Debug, Clone, PartialEq, Eq)]
pub struct UploadOptions {
    /// The project to upload.
    pub project_path: String,
    /// The credential, exactly as it was given.
    pub security_cookie: String,
    /// The asset to upload to.
    pub asset_id: u64,
    /// The kind of asset, as given: `place` or `model`.
    pub kind: Option<String>,
}

/// An [`InitOptions`] as plain values.
pub struct InitOptionsView {
    pub project_path: Seq<char>,
    pub kind: Option<Seq<char>>,
}

/// A [`ServeOptions`] as plain values.
pub struct ServeOptionsView {
    pub project_path: Seq<char>,
    pub port: Option<u16>,
}

/// A [`BuildOptions`] as plain values.
pub struct BuildOptionsView {
    pub project_path: Seq<char>,
    pub output_file: Seq<char>,
    pub output_kind: Option<Seq<char>>,
}

/// An [`UploadOptions`] as plain values.
pub struct UploadOptionsView {
    pub project_path: Seq<char>,
    pub security_cookie: Seq<char>,
    pub asset_id: u64,
    pub kind: Option<Seq<char>>,
}

impl View for InitOptions {
    type V = InitOptionsView;

    open spec fn view(&self) -> InitOptionsView {
        InitOptionsView { project_path: self.project_path@, kind: string_view(self.kind) }
    }
}

impl View for ServeOptions {
    type V = ServeOptionsView;

    open spec fn view(&self) -> ServeOptionsView {
        ServeOptionsView { project_path: self.project_path@, port: self.port }
    }
}

impl View for BuildOptions {
    type V = BuildOptionsView;

    open spec fn view(&self) -> BuildOptionsView {
        BuildOptionsView {
            project_path: self.project_path@,
            output_file: self.output_file@,
            output_kind: string_view(self.output_kind),
        }
    }
}

impl View for UploadOptions {
    type V = UploadOptionsView;

    open spec fn view(&self) -> UploadOptionsView {
        UploadOptionsView {
            project_path: self.project_path@,
            security_cookie: self.security_cookie@,
            asset_id: self.asset_id,
            kind: string_view(self.kind),
        }
    }
}

impl InitOptionsView {
    /// The project path is absolute.
    pub open spec fn well_formed(self) -> bool {
        path_is_absolute(self.project_path)
    }
}

impl ServeOptionsView {
    /// The project path is absolute.
    pub open spec fn well_formed(self) -> bool {
        path_is_absolute(self.project_path)
    }
}

impl BuildOptionsView {
    /// Both paths are absolute and no output kind is set.
    pub open spec fn well_formed(self) -> bool {
        &&& path_is_absolute(self.project_path)
        &&& path_is_absolute(self.output_file)
        &&& self.output_kind is None
    }
}

impl UploadOptionsView {
    /// The project path is absolute.
    pub open spec fn well_formed(self) -> bool {
        path_is_absolute(self.project_path)
    }
}

} // verus!
