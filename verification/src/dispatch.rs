//! The dispatcher: from a selected subcommand and its matched arguments to
//! the option record that the operation is run with, or to the reason why
//! it is not run.
//!
//! Numbers are validated first; paths are resolved after that, and every
//! path that goes into a record has been found absolute.

use vstd::prelude::*;
use vstd::string::StringExecFns;
use crate::matches::{lookup, Matches};
use crate::number::{parse_u16, parse_u64, parse_unsigned};
use crate::options::{
    BuildOptions, BuildOptionsView, InitOptions, InitOptionsView, ServeOptions, ServeOptionsView,
    UploadOptions, UploadOptionsView,
};
use crate::path::{is_absolute, make_path_absolute, path_is_absolute, resolved};
use crate::schema::{lemma_required_arguments, Subcommand};
use crate::text::{string_view, text_view};

verus! {

/// Why no operation is run.
#[derive(Debug, Clone, PartialEq, Eq)]
pub enum Failure {
    /// The value given as the port is not an unsigned 16-bit integer.
    InvalidPort(String),
    /// The value given as the asset id is not an unsigned 64-bit integer.
    InvalidAssetId(String),
    /// A path had to be joined onto the current directory, which is not
    /// known.
    NoCurrentDir,
    /// Resolving gave this path, which is not absolute.
    NotAbsolute(String),
}

/// A [`Failure`] as plain values.
pub enum FailureView {
    InvalidPort(Seq<char>),
    InvalidAssetId(Seq<char>),
    NoCurrentDir,
    NotAbsolute(Seq<char>),
}

impl View for Failure {
    type V = FailureView;

    open spec fn view(&self) -> FailureView {
        match self {
            Failure::InvalidPort(value) => FailureView::InvalidPort(value@),
            Failure::InvalidAssetId(value) => FailureView::InvalidAssetId(value@),
            Failure::NoCurrentDir => FailureView::NoCurrentDir,
            Failure::NotAbsolute(path) => FailureView::NotAbsolute(path@),
        }
    }
}

/// How the process ends: its exit status, and the line to log at error
/// severity before it ends, if there is one.
#[derive(Debug, Clone, PartialEq, Eq)]
pub struct Exit {
    pub status: i32,
    pub error: Option<String>,
}

/// An [`Exit`] as plain values.
pub struct ExitView {
    pub status: i32,
    pub error: Option<Seq<char>>,
}

impl View for Exit {
    type V = ExitView;

    open spec fn view(&self) -> ExitView {
        ExitView { status: self.status, error: string_view(self.error) }
    }
}

/// What is to be done for one command line.
#[derive(Debug, Clone, PartialEq, Eq)]
pub enum Action {
    /// A required argument is missing: the command line is rejected as the
    /// argument parser rejects it, and nothing is run.
    Usage,
    /// No subcommand was selected: the help text is shown.
    Help,
    /// Run `init` with this record.
    Init(InitOptions),
    /// Run `serve` with this record.
    Serve(ServeOptions),
    /// Run `build` with this record.
    Build(BuildOptions),
    /// Run `upload` with this record.
    Upload(UploadOptions),
    /// Run nothing, for this reason.
    Abort(Failure),
}

/// An [`Action`] as plain values.
pub enum ActionView {
    Usage,
    Help,
    Init(InitOptionsView),
    Serve(ServeOptionsView),
    Build(BuildOptionsView),
    Upload(UploadOptionsView),
    Abort(FailureView),
}

impl View for Action {
    type V = ActionView;

    open spec fn view(&self) -> ActionView {
        match self {
            Action::Usage => ActionView::Usage,
            Action::Help => ActionView::Help,
            Action::Init(options) => ActionView::Init(options@),
            Action::Serve(options) => ActionView::Serve(options@),
            Action::Build(options) => ActionView::Build(options@),
            Action::Upload(options) => ActionView::Upload(options@),
            Action::Abort(failure) => ActionView::Abort(failure@),
        }
    }
}

/// The view of a result whose two sides have views.
pub open spec fn result_view<T: View, E: View>(r: Result<T, E>) -> Result<T::V, E::V> {
    match r {
        Ok(value) => Ok(value@),
        Err(error) => Err(error@),
    }
}

impl FailureView {
    /// The line that names the failure.
    pub open spec fn message(self) -> Seq<char> {
        match self {
            FailureView::InvalidPort(value) => "Invalid port "@ + value,
            FailureView::InvalidAssetId(value) => "Invalid place ID "@ + value,
            FailureView::NoCurrentDir => "The current directory could not be determined"@,
            FailureView::NotAbsolute(path) => "Not an absolute path: "@ + path,
        }
    }

    /// How the process ends after the failure. A value that is not a number
    /// ends it with status 1 and the failure's line; a failure of the
    /// environment ends it at once, with no status fixed here.
    pub open spec fn exit(self) -> Option<ExitView> {
        match self {
            FailureView::InvalidPort(_) | FailureView::InvalidAssetId(_) => Some(
                ExitView { status: 1, error: Some(self.message()) },
            ),
            FailureView::NoCurrentDir | FailureView::NotAbsolute(_) => None,
        }
    }
}

impl ActionView {
    /// The operation that the action runs, if it runs one.
    pub open spec fn operation(self) -> Option<Subcommand> {
        match self {
            ActionView::Init(_) => Some(Subcommand::Init),
            ActionView::Serve(_) => Some(Subcommand::Serve),
            ActionView::Build(_) => Some(Subcommand::Build),
            ActionView::Upload(_) => Some(Subcommand::Upload),
            ActionView::Usage | ActionView::Help | ActionView::Abort(_) => None,
        }
    }

    /// How the process ends where the action alone decides it: showing the
    /// help text ends it with status 0, a failure as the failure says. Where
    /// an operation is run its outcome decides, and a rejected command line
    /// ends as the argument parser ends it.
    pub open spec fn exit(self) -> Option<ExitView> {
        match self {
            ActionView::Help => Some(ExitView { status: 0, error: None }),
            ActionView::Abort(failure) => failure.exit(),
            _ => None,
        }
    }

    /// Every path in the record that the action holds is absolute.
    pub open spec fn well_formed(self) -> bool {
        match self {
            ActionView::Init(options) => options.well_formed(),
            ActionView::Serve(options) => options.well_formed(),
            ActionView::Build(options) => options.well_formed(),
            ActionView::Upload(options) => options.well_formed(),
            _ => true,
        }
    }
}

/// How the process ends after an operation: with status 0 and nothing
/// logged where it succeeded, with status 1 and its error logged as it is
/// where it failed.
pub open spec fn spec_report(outcome: Result<(), Seq<char>>) -> ExitView {
    match outcome {
        Ok(_) => ExitView { status: 0, error: None },
        Err(message) => ExitView { status: 1, error: Some(message) },
    }
}

/// A resolved path is accepted where it is absolute.
pub open spec fn anchored(path: Option<Seq<char>>) -> Result<Seq<char>, FailureView> {
    match path {
        None => Err(FailureView::NoCurrentDir),
        Some(p) => if path_is_absolute(p) {
            Ok(p)
        } else {
            Err(FailureView::NotAbsolute(p))
        },
    }
}

/// The project path: the given path resolved, or the current directory
/// where none was given.
pub open spec fn project_path(given: Option<Seq<char>>, current_dir: Option<Seq<char>>) -> Result<
    Seq<char>,
    FailureView,
> {
    anchored(
        match given {
            Some(value) => resolved(value, current_dir),
            None => current_dir,
        },
    )
}

/// The port: none where none was given, else the number that the given
/// value denotes.
pub open spec fn port_of(given: Option<Seq<char>>) -> Result<Option<u16>, FailureView> {
    match given {
        None => Ok(None),
        Some(value) => match parse_unsigned(value, u16::MAX as nat) {
            Some(n) => Ok(Some(n as u16)),
            None => Err(FailureView::InvalidPort(value)),
        },
    }
}

/// The asset id: the number that the given value denotes.
pub open spec fn asset_id_of(value: Seq<char>) -> Result<u64, FailureView> {
    match parse_unsigned(value, u64::MAX as nat) {
        Some(n) => Ok(n as u64),
        None => Err(FailureView::InvalidAssetId(value)),
    }
}

/// What `init` is run with.
pub open spec fn spec_start_init(
    values: Map<Seq<char>, Seq<char>>,
    current_dir: Option<Seq<char>>,
) -> Result<InitOptionsView, FailureView> {
    match project_path(lookup(values, "PATH"@), current_dir) {
        Ok(path) => Ok(InitOptionsView { project_path: path, kind: lookup(values, "kind"@) }),
        Err(failure) => Err(failure),
    }
}

/// What `serve` is run with.
pub open spec fn spec_start_serve(
    values: Map<Seq<char>, Seq<char>>,
    current_dir: Option<Seq<char>>,
) -> Result<ServeOptionsView, FailureView> {
    match port_of(lookup(values, "port"@)) {
        Err(failure) => Err(failure),
        Ok(port) => match project_path(lookup(values, "PROJECT"@), current_dir) {
            Ok(path) => Ok(ServeOptionsView { project_path: path, port }),
            Err(failure) => Err(failure),
        },
    }
}

/// What `build` is run with.
pub open spec fn spec_start_build(
    values: Map<Seq<char>, Seq<char>>,
    current_dir: Option<Seq<char>>,
) -> Result<BuildOptionsView, FailureView>
    recommends
        values.contains_key("output"@),
{
    match project_path(lookup(values, "PROJECT"@), current_dir) {
        Err(failure) => Err(failure),
        Ok(path) => match anchored(resolved(values["output"@], current_dir)) {
            Ok(output) => Ok(
                BuildOptionsView { project_path: path, output_file: output, output_kind: None },
            ),
            Err(failure) => Err(failure),
        },
    }
}

/// What `upload` is run with.
pub open spec fn spec_start_upload(
    values: Map<Seq<char>, Seq<char>>,
    current_dir: Option<Seq<char>>,
) -> Result<UploadOptionsView, FailureView>
    recommends
        values.contains_key("cookie"@),
        values.contains_key("asset_id"@),
{
    match asset_id_of(values["asset_id"@]) {
        Err(failure) => Err(failure),
        Ok(asset_id) => match project_path(lookup(values, "PROJECT"@), current_dir) {
            Ok(path) => Ok(
                UploadOptionsView {
                    project_path: path,
                    security_cookie: values["cookie"@],
                    asset_id,
                    kind: lookup(values, "kind"@),
                },
            ),
            Err(failure) => Err(failure),
        },
    }
}

/// What is to be done for a command line that selected `subcommand` and
/// gave it `values`.
pub open spec fn spec_dispatch(
    subcommand: Option<Subcommand>,
    values: Map<Seq<char>, Seq<char>>,
    current_dir: Option<Seq<char>>,
) -> ActionView {
    match subcommand {
        None => ActionView::Help,
        Some(selected) => if !selected.spec_accepts(values) {
            ActionView::Usage
        } else {
            match selected {
                Subcommand::Init => match spec_start_init(values, current_dir) {
                    Ok(options) => ActionView::Init(options),
                    Err(failure) => ActionView::Abort(failure),
                },
                Subcommand::Serve => match spec_start_serve(values, current_dir) {
                    Ok(options) => ActionView::Serve(options),
                    Err(failure) => ActionView::Abort(failure),
                },
                Subcommand::Build => match spec_start_build(values, current_dir) {
                    Ok(options) => ActionView::Build(options),
                    Err(failure) => ActionView::Abort(failure),
                },
                Subcommand::Upload => match spec_start_upload(values, current_dir) {
                    Ok(options) => ActionView::Upload(options),
                    Err(failure) => ActionView::Abort(failure),
                },
            }
        },
    }
}

/// Accepts a resolved path where it is absolute.
fn anchor(path: Option<String>) -> (r: Result<String, Failure>)
    ensures
        result_view(r) == anchored(string_view(path)),
{
    match path {
        None => Err(Failure::NoCurrentDir),
        Some(p) => {
            if is_absolute(p.as_str()) {
                Ok(p)
            } else {
                Err(Failure::NotAbsolute(p))
            }
        },
    }
}

/// Resolves the project path: the given path, or the current directory
/// where none was given.
fn resolve_project(given: Option<&str>, current_dir: Option<&str>) -> (r: Result<String, Failure>)
    ensures
        result_view(r) == project_path(text_view(given), text_view(current_dir)),
{
    match given {
        Some(value) => anchor(make_path_absolute(value, current_dir)),
        None => match current_dir {
            Some(dir) => anchor(Some(dir.to_owned())),
            None => anchor(None),
        },
    }
}

/// An owned copy of an optional text.
fn owned(text: Option<&str>) -> (r: Option<String>)
    ensures
        string_view(r) == text_view(text),
{
    match text {
        Some(t) => Some(t.to_owned()),
        None => None,
    }
}

/// Builds the record that `init` is run with.
///
/// The project is created at the given path, resolved against
/// `current_dir`, or at `current_dir` where no path was given; the kind is
/// passed on as it was given.
pub fn start_init(sub_matches: &Matches, current_dir: Option<&str>) -> (r: Result<
    InitOptions,
    Failure,
>)
    ensures
        result_view(r) == spec_start_init(sub_matches@, text_view(current_dir)),
        r matches Ok(options) ==> options@.well_formed(),
{
    let project_path = match resolve_project(sub_matches.value_of("PATH"), current_dir) {
        Ok(path) => path,
        Err(failure) => {
            return Err(failure);
        },
    };
    let kind = owned(sub_matches.value_of("kind"));
    Ok(InitOptions { project_path, kind })
}

/// Builds the record that `serve` is run with.
///
/// A port that is not an unsigned 16-bit integer is a failure that names
/// the value, whatever else was given.
pub fn start_serve(sub_matches: &Matches, current_dir: Option<&str>) -> (r: Result<
    ServeOptions,
    Failure,
>)
    ensures
        result_view(r) == spec_start_serve(sub_matches@, text_view(current_dir)),
        r matches Ok(options) ==> options@.well_formed(),
{
    let port = match sub_matches.value_of("port") {
        Some(value) => match parse_u16(value) {
            Some(port) => Some(port),
            None => {
                return Err(Failure::InvalidPort(value.to_owned()));
            },
        },
        None => None,
    };
    let project_path = match resolve_project(sub_matches.value_of("PROJECT"), current_dir) {
        Ok(path) => path,
        Err(failure) => {
            return Err(failure);
        },
    };
    Ok(ServeOptions { project_path, port })
}

/// Builds the record that `build` is run with.
///
/// The output, which the schema requires and which must have been given,
/// is resolved like the project path; the output kind is left unset.
pub fn start_build(sub_matches: &Matches, current_dir: Option<&str>) -> (r: Result<
    BuildOptions,
    Failure,
>)
    requires
        sub_matches@.contains_key("output"@),
    ensures
        result_view(r) == spec_start_build(sub_matches@, text_view(current_dir)),
        r matches Ok(options) ==> options@.well_formed(),
{
    let project_path = match resolve_project(sub_matches.value_of("PROJECT"), current_dir) {
        Ok(path) => path,
        Err(failure) => {
            return Err(failure);
        },
    };
    let output = match sub_matches.value_of("output") {
        Some(value) => value,
        None => "",
    };
    let output_file = match anchor(make_path_absolute(output, current_dir)) {
        Ok(path) => path,
        Err(failure) => {
            return Err(failure);
        },
    };
    Ok(BuildOptions { project_path, output_file, output_kind: None })
}

/// Builds the record that `upload` is run with.
///
/// The cookie and the asset id, which the schema requires, must have been
/// given. An asset id that is not an unsigned 64-bit integer is a failure
/// that names the value, whatever else was given. The cookie is passed on
/// exactly as it was given.
pub fn start_upload(sub_matches: &Matches, current_dir: Option<&str>) -> (r: Result<
    UploadOptions,
    Failure,
>)
    requires
        sub_matches@.contains_key("cookie"@),
        sub_matches@.contains_key("asset_id"@),
    ensures
        result_view(r) == spec_start_upload(sub_matches@, text_view(current_dir)),
        r matches Ok(options) ==> options@.well_formed(),
{
    let given_id = match sub_matches.value_of("asset_id") {
        Some(value) => value,
        None => "",
    };
    let asset_id = match parse_u64(given_id) {
        Some(id) => id,
        None => {
            return Err(Failure::InvalidAssetId(given_id.to_owned()));
        },
    };
    let project_path = match resolve_project(sub_matches.value_of("PROJECT"), current_dir) {
        Ok(path) => path,
        Err(failure) => {
            return Err(failure);
        },
    };
    let security_cookie = match sub_matches.value_of("cookie") {
        Some(value) => value.to_owned(),
        None => String::new(),
    };
    let kind = owned(sub_matches.value_of("kind"));
    Ok(UploadOptions { project_path, security_cookie, asset_id, kind })
}

/// Decides what is to be done for one command line.
///
/// Without a subcommand the help text is shown. A subcommand whose
/// required arguments are not all given is rejected before any record is
/// built. Otherwise the subcommand's record is built, and the action is to
/// run its operation with that record, or to run nothing where building
/// it failed.
pub fn dispatch(subcommand: Option<Subcommand>, matches: &Matches, current_dir: Option<&str>) -> (r:
    Action)
    ensures
        r@ == spec_dispatch(subcommand, matches@, text_view(current_dir)),
        r@.well_formed(),
{
    let selected = match subcommand {
        Some(selected) => selected,
        None => {
            return Action::Help;
        },
    };
    if !selected.accepts(matches) {
        return Action::Usage;
    }
    proof {
        lemma_required_arguments(selected, matches@);
    }
    match selected {
        Subcommand::Init => match start_init(matches, current_dir) {
            Ok(options) => Action::Init(options),
            Err(failure) => Action::Abort(failure),
        },
        Subcommand::Serve => match start_serve(matches, current_dir) {
            Ok(options) => Action::Serve(options),
            Err(failure) => Action::Abort(failure),
        },
        Subcommand::Build => match start_build(matches, current_dir) {
            Ok(options) => Action::Build(options),
            Err(failure) => Action::Abort(failure),
        },
        Subcommand::Upload => match start_upload(matches, current_dir) {
            Ok(options) => Action::Upload(options),
            Err(failure) => Action::Abort(failure),
        },
    }
}

impl Failure {
    /// The line that names the failure.
    pub fn message(&self) -> (r: String)
        ensures
            r@ == self@.message(),
    {
        match self {
            Failure::InvalidPort(value) => String::from_str("Invalid port ").concat(value.as_str()),
            Failure::InvalidAssetId(value) => String::from_str("Invalid place ID ").concat(
                value.as_str(),
            ),
            Failure::NoCurrentDir => String::from_str(
                "The current directory could not be determined",
            ),
            Failure::NotAbsolute(path) => String::from_str("Not an absolute path: ").concat(
                path.as_str(),
            ),
        }
    }

    /// How the process ends after the failure: `None` where it ends at
    /// once, with no status fixed here.
    pub fn exit(&self) -> (r: Option<Exit>)
        ensures
            exit_view(r) == self@.exit(),
    {
        match self {
            Failure::InvalidPort(_) | Failure::InvalidAssetId(_) => Some(
                Exit { status: 1, error: Some(self.message()) },
            ),
            Failure::NoCurrentDir | Failure::NotAbsolute(_) => None,
        }
    }
}

/// The view of an optional exit.
pub open spec fn exit_view(exit: Option<Exit>) -> Option<ExitView> {
    match exit {
        Some(e) => Some(e@),
        None => None,
    }
}

impl Action {
    /// How the process ends where the action alone decides it; `None`
    /// where an operation is to be run, where the command line is rejected,
    /// and where the environment failed.
    pub fn exit(&self) -> (r: Option<Exit>)
        ensures
            exit_view(r) == self@.exit(),
    {
        match self {
            Action::Help => Some(Exit { status: 0, error: None }),
            Action::Abort(failure) => failure.exit(),
            _ => None,
        }
    }
}

/// Turns the outcome of an operation into the way the process ends.
///
/// Success ends it with status 0 and logs nothing. Any failure ends it
/// with status 1, after its message is logged unchanged.
pub fn report(outcome: Result<(), String>) -> (r: Exit)
    ensures
        r@ == spec_report(
            match outcome {
                Ok(_) => Ok(()),
                Err(message) => Err(message@),
            },
        ),
{
    match outcome {
        Ok(_) => Exit { status: 0, error: None },
        Err(message) => Exit { status: 1, error: Some(message) },
    }
}

/// A port that does not denote an unsigned 16-bit integer stops `serve`:
/// whatever else was given and whatever the current directory is, the
/// operation is not run, and the process ends with status 1 after a line
/// that names the value.
pub proof fn lemma_invalid_port_stops_serve(
    values: Map<Seq<char>, Seq<char>>,
    current_dir: Option<Seq<char>>,
    port: Seq<char>,
)
    requires
        lookup(values, "port"@) == Some(port),
        parse_unsigned(port, u16::MAX as nat) is None,
    ensures
        spec_dispatch(Some(Subcommand::Serve), values, current_dir) == ActionView::Abort(
            FailureView::InvalidPort(port),
        ),
        spec_dispatch(Some(Subcommand::Serve), values, current_dir).operation() is None,
        spec_dispatch(Some(Subcommand::Serve), values, current_dir).exit() == Some(
            ExitView { status: 1, error: Some("Invalid port "@ + port) },
        ),
{
    lemma_required_arguments(Subcommand::Serve, values);
}

/// An asset id that does not denote an unsigned 64-bit integer stops
/// `upload`: whatever else was given and whatever the current directory
/// is, the operation is not run. Where the cookie was given too, the
/// process ends with status 1 after a line that names the value; where it
/// was not, the command line is rejected for that.
pub proof fn lemma_invalid_asset_id_stops_upload(
    values: Map<Seq<char>, Seq<char>>,
    current_dir: Option<Seq<char>>,
    asset_id: Seq<char>,
)
    requires
        lookup(values, "asset_id"@) == Some(asset_id),
        parse_unsigned(asset_id, u64::MAX as nat) is None,
    ensures
        spec_start_upload(values, current_dir) == Err::<UploadOptionsView, FailureView>(
            FailureView::InvalidAssetId(asset_id),
        ),
        spec_dispatch(Some(Subcommand::Upload), values, current_dir).operation() is None,
        values.contains_key("cookie"@) ==> spec_dispatch(
            Some(Subcommand::Upload),
            values,
            current_dir,
        ) == ActionView::Abort(FailureView::InvalidAssetId(asset_id)),
        values.contains_key("cookie"@) ==> spec_dispatch(
            Some(Subcommand::Upload),
            values,
            current_dir,
        ).exit() == Some(ExitView { status: 1, error: Some("Invalid place ID "@ + asset_id) }),
        !values.contains_key("cookie"@) ==> spec_dispatch(
            Some(Subcommand::Upload),
            values,
            current_dir,
        ) == ActionView::Usage,
{
    lemma_required_arguments(Subcommand::Upload, values);
}

/// Without an output, `build` is rejected before any record is built: no
/// operation is run.
pub proof fn lemma_build_without_output_is_rejected(
    values: Map<Seq<char>, Seq<char>>,
    current_dir: Option<Seq<char>>,
)
    requires
        !values.contains_key("output"@),
    ensures
        spec_dispatch(Some(Subcommand::Build), values, current_dir) == ActionView::Usage,
        spec_dispatch(Some(Subcommand::Build), values, current_dir).operation() is None,
{
    lemma_required_arguments(Subcommand::Build, values);
}

/// Without a subcommand the help text is shown and the process ends with
/// status 0: no operation is run, and neither the arguments nor the current
/// directory bear on it.
pub proof fn lemma_no_subcommand_shows_help(
    values: Map<Seq<char>, Seq<char>>,
    current_dir: Option<Seq<char>>,
)
    ensures
        spec_dispatch(None, values, current_dir) == ActionView::Help,
        spec_dispatch(None, values, current_dir).operation() is None,
        spec_dispatch(None, values, current_dir).exit() == Some(
            ExitView { status: 0, error: None },
        ),
{
}

/// A record holds a number only where the value given for it denotes that
/// number, and holds the cookie and the kind exactly as they were given.
pub proof fn lemma_records_hold_what_was_given(
    values: Map<Seq<char>, Seq<char>>,
    current_dir: Option<Seq<char>>,
)
    ensures
        spec_start_init(values, current_dir) matches Ok(options) ==> options.kind == lookup(
            values,
            "kind"@,
        ),
        spec_start_serve(values, current_dir) matches Ok(options) ==> {
            &&& options.port is None <==> !values.contains_key("port"@)
            &&& options.port matches Some(port) ==> parse_unsigned(
                values["port"@],
                u16::MAX as nat,
            ) == Some(port as nat)
        },
        spec_start_upload(values, current_dir) matches Ok(options) ==> {
            &&& parse_unsigned(values["asset_id"@], u64::MAX as nat) == Some(
                options.asset_id as nat,
            )
            &&& options.security_cookie == values["cookie"@]
            &&& options.kind == lookup(values, "kind"@)
        },
{
}

/// An operation is run only with a record whose paths are all absolute, and
/// only the operation of the subcommand that was selected.
pub proof fn lemma_runs_selected_with_absolute_paths(
    subcommand: Option<Subcommand>,
    values: Map<Seq<char>, Seq<char>>,
    current_dir: Option<Seq<char>>,
)
    ensures
        spec_dispatch(subcommand, values, current_dir).well_formed(),
        spec_dispatch(subcommand, values, current_dir).operation() is Some ==> spec_dispatch(
            subcommand,
            values,
            current_dir,
        ).operation() == subcommand,
{
}

} // verus!
