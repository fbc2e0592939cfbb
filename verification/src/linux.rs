//! The desktops of Linux and other Unix systems.
//!
//! An operation is a short exchange with its caller. [`get`],
//! [`set_from_path`], [`set_from_url`] and [`set_mode`] pick the backend for
//! the desktop in use and return the first [`Step`]: either the end of the
//! operation, or an [`Action`] for the caller to perform together with what
//! the operation is [`Pending`] on. The caller performs the action and hands
//! the [`Reply`] to [`resume`], which returns the next step.

pub mod dconf;
pub mod gnome;
pub mod kde;
pub mod laws;
pub mod lxde;
pub mod scheduled;
pub mod xfce;

use crate::error::{text_result, unit_result, Error, ErrorView};
use crate::linux::dconf::Store;
use crate::mode::Mode;
use crate::normalize::{strip_file_uri, stripped, unquote, unquoted};
use crate::process::{
    get_stdout, run, run_result, stdout_result, str_from_utf8, Command, CommandView, Output,
    OutputView, NO_EXIT_CODE,
};
use vstd::utf8::{decode_utf8, valid_utf8};
use crate::text::{same, text_view, trim, trimmed};
use vstd::prelude::*;
use vstd::string::*;

verus! {

/// The environment variable that holds the identity of the desktop. Where it is not set,
/// the identity is the empty string.
pub const DESKTOP_VARIABLE: &'static str = "XDG_CURRENT_DESKTOP";

/// The environment variable that holds the name of the desktop session.
pub const SESSION_VARIABLE: &'static str = "DESKTOP_SESSION";

/// The viewer that is tried first on a desktop that is not recognized.
pub const SWAYBG: &'static str = "swaybg";

/// The viewer that is tried where the first cannot be started.
pub const FEH: &'static str = "feh";

/// What an operation fails with when its caller answers an action with a reply of the
/// wrong kind.
pub const UNEXPECTED_REPLY: &'static str = "unexpected reply";

/// The families of desktops that are told apart.
#[derive(Clone, Copy, Debug, PartialEq, Eq, Structural)]
pub enum Backend {
    Gnome,
    Kde,
    Cinnamon,
    Mate,
    Xfce,
    Lxde,
    Deepin,
}

/// Outside work that an operation asks of its caller.
#[derive(Debug, PartialEq, Eq)]
pub enum Action {
    /// Run the command, wait for it to end and collect its standard output. The reply is
    /// `Exited`, or `Failed` where the command could not be started.
    Run(Command),
    /// Start the command with its standard streams detached and do not wait for it. The
    /// reply is `Launched`, or `Failed` where the command could not be started.
    Spawn(Command),
    /// Read the file at this path below the user's configuration directory. The reply is
    /// `Contents`; `Missing` where there is no such file; or `Failed` where there is no
    /// such directory or the file cannot be read.
    ReadConfig(String),
}

/// The model of an [`Action`].
pub enum ActionView {
    Run(CommandView),
    Spawn(CommandView),
    ReadConfig(Seq<char>),
}

impl View for Action {
    type V = ActionView;

    open spec fn view(&self) -> ActionView {
        match self {
            Action::Run(command) => ActionView::Run(command@),
            Action::Spawn(command) => ActionView::Spawn(command@),
            Action::ReadConfig(path) => ActionView::ReadConfig(path@),
        }
    }
}

/// What came of an [`Action`].
#[derive(Debug, PartialEq, Eq)]
pub enum Reply {
    /// The command ran and ended.
    Exited(Output),
    /// The command was started.
    Launched,
    /// The bytes of the file.
    Contents(Vec<u8>),
    /// There is no such file.
    Missing,
    /// The action could not be performed.
    Failed(Error),
}

/// The model of a [`Reply`].
pub enum ReplyView {
    Exited(OutputView),
    Launched,
    Contents(Seq<u8>),
    Missing,
    Failed(ErrorView),
}

impl View for Reply {
    type V = ReplyView;

    open spec fn view(&self) -> ReplyView {
        match self {
            Reply::Exited(output) => ReplyView::Exited(output@),
            Reply::Launched => ReplyView::Launched,
            Reply::Contents(bytes) => ReplyView::Contents(bytes@),
            Reply::Missing => ReplyView::Missing,
            Reply::Failed(error) => ReplyView::Failed(error@),
        }
    }
}

/// What an operation does with the reply to the action it asked for.
#[derive(Debug, PartialEq, Eq)]
pub enum Pending {
    /// The output of `command` is the stored picture, as a quoted path or URI.
    Value { command: String },
    /// The text is Plasma's configuration file.
    KdeConfig,
    /// The text is the configuration file of the LXDE session.
    LxdeConfig,
    /// The output lists XFCE's properties; the first that holds a picture is read next.
    XfceImages,
    /// The output is the value of an XFCE property that holds a picture.
    XfceImage,
    /// The output lists XFCE's properties; each that ends with `key` is set to `value`.
    /// Where none does, the operation fails rather than end with nothing set.
    XfceTargets { key: String, value: String },
    /// An XFCE property was set; `properties` are still to be set to `value`.
    XfceWrites { properties: Vec<String>, value: String },
    /// The output is GNOME's colour scheme; the picture at `path` is stored for it next.
    ColorScheme { path: String },
    /// `command` was run for its effect; the operation is done where it succeeded.
    Effect { command: String },
    /// The first viewer was started with the picture at `path`.
    FirstViewer { path: String },
    /// The second viewer was run.
    SecondViewer,
}

/// The model of a [`Pending`].
pub enum PendingView {
    Value { command: Seq<char> },
    KdeConfig,
    LxdeConfig,
    XfceImages,
    XfceImage,
    XfceTargets { key: Seq<char>, value: Seq<char> },
    XfceWrites { properties: Seq<Seq<char>>, value: Seq<char> },
    ColorScheme { path: Seq<char> },
    Effect { command: Seq<char> },
    FirstViewer { path: Seq<char> },
    SecondViewer,
}

impl View for Pending {
    type V = PendingView;

    open spec fn view(&self) -> PendingView {
        match self {
            Pending::Value { command } => PendingView::Value { command: command@ },
            Pending::KdeConfig => PendingView::KdeConfig,
            Pending::LxdeConfig => PendingView::LxdeConfig,
            Pending::XfceImages => PendingView::XfceImages,
            Pending::XfceImage => PendingView::XfceImage,
            Pending::XfceTargets { key, value } => PendingView::XfceTargets {
                key: key@,
                value: value@,
            },
            Pending::XfceWrites { properties, value } => PendingView::XfceWrites {
                properties: properties.deep_view(),
                value: value@,
            },
            Pending::ColorScheme { path } => PendingView::ColorScheme { path: path@ },
            Pending::Effect { command } => PendingView::Effect { command: command@ },
            Pending::FirstViewer { path } => PendingView::FirstViewer { path: path@ },
            Pending::SecondViewer => PendingView::SecondViewer,
        }
    }
}

/// Where an operation stands.
#[derive(Debug, PartialEq, Eq)]
pub enum Step {
    /// The caller performs the action and calls [`resume`] with the pending state and the
    /// reply.
    Perform(Action, Pending),
    /// A `get` is over: this is the path of the picture.
    Found(String),
    /// A `set` is over: the desktop was told.
    Done,
    /// The operation is over and failed.
    Failed(Error),
}

/// The model of a [`Step`].
pub enum StepView {
    Perform(ActionView, PendingView),
    Found(Seq<char>),
    Done,
    Failed(ErrorView),
}

impl View for Step {
    type V = StepView;

    open spec fn view(&self) -> StepView {
        match self {
            Step::Perform(action, pending) => StepView::Perform(action@, pending@),
            Step::Found(path) => StepView::Found(path@),
            Step::Done => StepView::Done,
            Step::Failed(error) => StepView::Failed(error@),
        }
    }
}

/// The backend for the desktop that identifies itself as `desktop`. GNOME-compliance is
/// asked first; after that the identity has to be one of six names, letter for letter.
pub open spec fn backend_of(desktop: Seq<char>) -> Option<Backend> {
    if gnome::compliant(desktop) {
        Some(Backend::Gnome)
    } else if desktop == "KDE"@ {
        Some(Backend::Kde)
    } else if desktop == "X-Cinnamon"@ {
        Some(Backend::Cinnamon)
    } else if desktop == "MATE"@ {
        Some(Backend::Mate)
    } else if desktop == "XFCE"@ {
        Some(Backend::Xfce)
    } else if desktop == "LXDE"@ {
        Some(Backend::Lxde)
    } else if desktop == "Deepin"@ {
        Some(Backend::Deepin)
    } else {
        None
    }
}

/// The error for a reply of the wrong kind.
pub open spec fn unexpected() -> ErrorView {
    ErrorView::Other(UNEXPECTED_REPLY@)
}

/// The step that ends a `get` with `result`.
pub open spec fn found(result: Result<Seq<char>, ErrorView>) -> StepView {
    match result {
        Ok(path) => StepView::Found(path),
        Err(error) => StepView::Failed(error),
    }
}

/// The step that ends a `set` with `result`.
pub open spec fn done(result: Result<(), ErrorView>) -> StepView {
    match result {
        Ok(_) => StepView::Done,
        Err(error) => StepView::Failed(error),
    }
}

/// The step that runs `command` and then does what `pending` says.
pub open spec fn run_then(command: CommandView, pending: PendingView) -> StepView {
    StepView::Perform(ActionView::Run(command), pending)
}

/// The step that reads the configuration file at `path` and then does what `pending` says.
pub open spec fn read_then(path: Seq<char>, pending: PendingView) -> StepView {
    StepView::Perform(ActionView::ReadConfig(path), pending)
}

/// The step that runs `command` for its effect.
pub open spec fn effect(command: CommandView) -> StepView {
    run_then(command, PendingView::Effect { command: command.program })
}

/// The step that runs `command` for the stored picture.
pub open spec fn value(command: CommandView) -> StepView {
    run_then(command, PendingView::Value { command: command.program })
}

/// What the output of a command that prints a stored picture means: without the white
/// space around it, it is a quoted string; what stands between the quotes, without a
/// leading `file://`, is the path.
pub open spec fn parse_dconf_result(stdout: Seq<char>) -> Result<Seq<char>, ErrorView> {
    match unquoted(trimmed(stdout)) {
        Ok(text) => Ok(stripped(text)),
        Err(kind) => Err(ErrorView::Enquote(kind)),
    }
}

/// The standard output of the command named `command`, as `reply` reports it.
pub open spec fn stdout_of(command: Seq<char>, reply: ReplyView) -> Result<Seq<char>, ErrorView> {
    match reply {
        ReplyView::Exited(output) => stdout_result(command, output),
        ReplyView::Failed(error) => Err(error),
        _ => Err(unexpected()),
    }
}

/// Whether the command named `command` succeeded, as `reply` reports it.
pub open spec fn completion_of(command: Seq<char>, reply: ReplyView) -> Result<(), ErrorView> {
    match reply {
        ReplyView::Exited(output) => run_result(command, output),
        ReplyView::Failed(error) => Err(error),
        _ => Err(unexpected()),
    }
}

/// The configuration file of the desktop named `desktop`, as `reply` reports it. A
/// desktop whose file is missing has no picture.
pub open spec fn contents_of(desktop: Seq<char>, reply: ReplyView) -> Result<Seq<u8>, ErrorView> {
    match reply {
        ReplyView::Contents(bytes) => Ok(bytes),
        ReplyView::Missing => Err(ErrorView::NoImage(desktop)),
        ReplyView::Failed(error) => Err(error),
        _ => Err(unexpected()),
    }
}

/// The command that starts the first viewer.
pub open spec fn swaybg_command(path: Seq<char>) -> CommandView {
    CommandView { program: SWAYBG@, args: seq!["-i"@, path] }
}

/// The command that runs the second viewer.
pub open spec fn feh_command(path: Seq<char>) -> CommandView {
    CommandView { program: FEH@, args: seq!["--bg-fill"@, path] }
}

/// `result` with a leading `file://` removed from the path.
pub open spec fn strip_found(result: Result<Seq<char>, ErrorView>) -> Result<
    Seq<char>,
    ErrorView,
> {
    match result {
        Ok(path) => Ok(stripped(path)),
        Err(error) => Err(error),
    }
}

/// What the configuration file of an LXDE session holds, given the bytes of the file. The
/// file is decoded as a whole: one that is not UTF-8 is a failure.
pub open spec fn lxde_result(config: Seq<u8>) -> Result<Seq<char>, ErrorView> {
    if valid_utf8(config) {
        lxde::get_result(lxde::ini_parsed(lxde::without_mark(decode_utf8(config))))
    } else {
        Err(ErrorView::InvalidUtf8(config))
    }
}

/// The step that sets the first of `properties` to `value` and keeps the others for
/// later, or ends the operation where none is left.
pub open spec fn xfce_writes(properties: Seq<Seq<char>>, value: Seq<char>) -> StepView {
    if properties.len() == 0 {
        StepView::Done
    } else {
        run_then(
            xfce::write_command(properties[0], value),
            PendingView::XfceWrites { properties: properties.skip(1), value },
        )
    }
}

/// The step that lists XFCE's properties, to set each that ends with `key` to `value`.
pub open spec fn xfce_targets(key: Seq<char>, value: Seq<char>) -> StepView {
    run_then(xfce::list_command(), PendingView::XfceTargets { key, value })
}

/// The first step of [`get`].
pub open spec fn get_step(desktop: Seq<char>, session: Option<Seq<char>>) -> StepView {
    match backend_of(desktop) {
        Some(Backend::Gnome) => value(gnome::get_command()),
        Some(Backend::Kde) => read_then(kde::CONFIG_FILE@, PendingView::KdeConfig),
        Some(Backend::Cinnamon) => value(dconf::get_command(Store::Cinnamon)),
        Some(Backend::Mate) => value(dconf::get_command(Store::Mate)),
        Some(Backend::Xfce) => run_then(xfce::list_command(), PendingView::XfceImages),
        Some(Backend::Lxde) => read_then(lxde::config_path_of(session), PendingView::LxdeConfig),
        Some(Backend::Deepin) => value(dconf::get_command(Store::Deepin)),
        None => StepView::Failed(ErrorView::UnsupportedDesktop),
    }
}

/// The first step of [`set_from_path`]. A path that is not valid Unicode cannot be handed
/// to any desktop.
pub open spec fn set_from_path_step(desktop: Seq<char>, path: Option<Seq<char>>) -> StepView {
    match path {
        Some(path) => set_path_step(desktop, path),
        None => StepView::Failed(ErrorView::InvalidPath),
    }
}

/// The first step of [`set_from_path`] for a path that is valid Unicode.
pub open spec fn set_path_step(desktop: Seq<char>, path: Seq<char>) -> StepView {
    match backend_of(desktop) {
        Some(Backend::Gnome) => run_then(
            gnome::color_scheme_command(),
            PendingView::ColorScheme { path },
        ),
        Some(Backend::Kde) => effect(kde::set_command(path)),
        Some(Backend::Cinnamon) => effect(dconf::set_command(Store::Cinnamon, path)),
        Some(Backend::Mate) => effect(dconf::set_command(Store::Mate, path)),
        Some(Backend::Xfce) => xfce_targets(xfce::IMAGE_PROPERTY@, path),
        Some(Backend::Lxde) => effect(lxde::set_command(path)),
        Some(Backend::Deepin) => effect(dconf::set_command(Store::Deepin, path)),
        None => StepView::Perform(
            ActionView::Spawn(swaybg_command(path)),
            PendingView::FirstViewer { path },
        ),
    }
}

/// The first step of [`set_from_url`], given what came of the download.
pub open spec fn set_from_url_step(
    desktop: Seq<char>,
    downloaded: Result<Seq<char>, ErrorView>,
) -> StepView {
    match downloaded {
        Ok(path) => set_path_step(desktop, path),
        Err(error) => StepView::Failed(error),
    }
}

/// The first step of [`set_mode`].
pub open spec fn set_mode_step(desktop: Seq<char>, mode: Mode) -> StepView {
    match backend_of(desktop) {
        Some(Backend::Gnome) => effect(gnome::set_mode_command(mode)),
        Some(Backend::Kde) => effect(kde::set_mode_command(mode)),
        Some(Backend::Cinnamon) => effect(dconf::set_mode_command(Store::Cinnamon, mode)),
        Some(Backend::Mate) => effect(dconf::set_mode_command(Store::Mate, mode)),
        Some(Backend::Xfce) => xfce_targets(xfce::STYLE_PROPERTY@, xfce::style(mode)),
        Some(Backend::Lxde) => effect(lxde::set_mode_command(mode)),
        Some(Backend::Deepin) => effect(dconf::set_mode_command(Store::Deepin, mode)),
        None => StepView::Failed(ErrorView::UnsupportedDesktop),
    }
}

/// The step after `reply`, for an operation that was pending on `pending`.
pub open spec fn resume_step(pending: PendingView, reply: ReplyView) -> StepView {
    match pending {
        PendingView::Value { command } => match stdout_of(command, reply) {
            Ok(stdout) => found(parse_dconf_result(stdout)),
            Err(error) => StepView::Failed(error),
        },
        PendingView::KdeConfig => match contents_of(kde::NAME@, reply) {
            Ok(config) => found(kde::get_result(config)),
            Err(error) => StepView::Failed(error),
        },
        PendingView::LxdeConfig => match contents_of(lxde::NAME@, reply) {
            Ok(config) => found(strip_found(lxde_result(config))),
            Err(error) => StepView::Failed(error),
        },
        PendingView::XfceImages => match stdout_of(xfce::XFCONF_QUERY@, reply) {
            Ok(listing) => {
                let properties = xfce::properties_in(listing, xfce::IMAGE_PROPERTY@);
                if properties.len() == 0 {
                    StepView::Failed(ErrorView::XfceNoDesktops)
                } else {
                    run_then(xfce::read_command(properties[0]), PendingView::XfceImage)
                }
            },
            Err(error) => StepView::Failed(error),
        },
        PendingView::XfceImage => match stdout_of(xfce::XFCONF_QUERY@, reply) {
            Ok(stdout) => StepView::Found(stripped(trimmed(stdout))),
            Err(error) => StepView::Failed(error),
        },
        PendingView::XfceTargets { key, value } => match stdout_of(xfce::XFCONF_QUERY@, reply) {
            Ok(listing) => {
                let properties = xfce::properties_in(listing, key);
                if properties.len() == 0 {
                    StepView::Failed(ErrorView::XfceNoDesktops)
                } else {
                    xfce_writes(properties, value)
                }
            },
            Err(error) => StepView::Failed(error),
        },
        PendingView::XfceWrites { properties, value } => match completion_of(
            xfce::XFCONF_QUERY@,
            reply,
        ) {
            Ok(_) => xfce_writes(properties, value),
            Err(error) => StepView::Failed(error),
        },
        PendingView::ColorScheme { path } => match stdout_of(gnome::GSETTINGS@, reply) {
            Ok(scheme) => effect(gnome::set_command(path, scheme)),
            Err(error) => StepView::Failed(error),
        },
        PendingView::Effect { command } => done(completion_of(command, reply)),
        PendingView::FirstViewer { path } => match reply {
            ReplyView::Launched => StepView::Done,
            ReplyView::Failed(_) => run_then(feh_command(path), PendingView::SecondViewer),
            _ => StepView::Failed(unexpected()),
        },
        PendingView::SecondViewer => match reply {
            ReplyView::Exited(output) => done(run_result(FEH@, output)),
            ReplyView::Failed(_) => StepView::Failed(
                ErrorView::CommandFailed { command: FEH@, code: NO_EXIT_CODE },
            ),
            _ => StepView::Failed(unexpected()),
        },
    }
}

/// Picks the backend for the desktop that identifies itself as `desktop`; none where the
/// desktop is not recognized.
pub fn classify(desktop: &str) -> (backend: Option<Backend>)
    ensures
        backend == backend_of(desktop@),
{
    if gnome::is_compliant(desktop) {
        Some(Backend::Gnome)
    } else if same(desktop, "KDE") {
        Some(Backend::Kde)
    } else if same(desktop, "X-Cinnamon") {
        Some(Backend::Cinnamon)
    } else if same(desktop, "MATE") {
        Some(Backend::Mate)
    } else if same(desktop, "XFCE") {
        Some(Backend::Xfce)
    } else if same(desktop, "LXDE") {
        Some(Backend::Lxde)
    } else if same(desktop, "Deepin") {
        Some(Backend::Deepin)
    } else {
        None
    }
}

fn unexpected_reply() -> (error: Error)
    ensures
        error@ == unexpected(),
{
    Error::other(UNEXPECTED_REPLY)
}

fn found_step(result: Result<String, Error>) -> (step: Step)
    ensures
        step@ == found(text_result(result)),
{
    match result {
        Ok(path) => Step::Found(path),
        Err(error) => Step::Failed(error),
    }
}

fn done_step(result: Result<(), Error>) -> (step: Step)
    ensures
        step@ == done(unit_result(result)),
{
    match result {
        Ok(_) => Step::Done,
        Err(error) => Step::Failed(error),
    }
}

fn effect_step(command: Command) -> (step: Step)
    ensures
        step@ == effect(command@),
{
    let name = command.program.clone();
    Step::Perform(Action::Run(command), Pending::Effect { command: name })
}

fn value_step(command: Command) -> (step: Step)
    ensures
        step@ == value(command@),
{
    let name = command.program.clone();
    Step::Perform(Action::Run(command), Pending::Value { command: name })
}

fn xfce_targets_step(key: &str, value: &str) -> (step: Step)
    ensures
        step@ == xfce_targets(key@, value@),
{
    Step::Perform(
        Action::Run(xfce::list()),
        Pending::XfceTargets { key: key.to_owned(), value: value.to_owned() },
    )
}

fn xfce_writes_step(properties: Vec<String>, value: String) -> (step: Step)
    ensures
        step@ == xfce_writes(properties.deep_view(), value@),
{
    let mut rest = properties;
    if rest.len() == 0 {
        Step::Done
    } else {
        let ghost all = rest.deep_view();
        let first = rest.remove(0);
        assert(rest.deep_view() =~= all.skip(1));
        let command = xfce::write(first.as_str(), value.as_str());
        Step::Perform(Action::Run(command), Pending::XfceWrites { properties: rest, value })
    }
}

fn reply_stdout(command: &str, reply: Reply) -> (r: Result<String, Error>)
    ensures
        text_result(r) == stdout_of(command@, reply@),
{
    match reply {
        Reply::Exited(output) => get_stdout(command, output),
        Reply::Failed(error) => Err(error),
        _ => Err(unexpected_reply()),
    }
}

fn reply_completion(command: &str, reply: Reply) -> (r: Result<(), Error>)
    ensures
        unit_result(r) == completion_of(command@, reply@),
{
    match reply {
        Reply::Exited(output) => run(command, &output),
        Reply::Failed(error) => Err(error),
        _ => Err(unexpected_reply()),
    }
}

fn reply_contents(desktop: &'static str, reply: Reply) -> (r: Result<Vec<u8>, Error>)
    ensures
        match r {
            Ok(bytes) => contents_of(desktop@, reply@) == Ok::<Seq<u8>, ErrorView>(bytes@),
            Err(error) => contents_of(desktop@, reply@) == Err::<Seq<u8>, ErrorView>(error@),
        },
{
    match reply {
        Reply::Contents(bytes) => Ok(bytes),
        Reply::Missing => Err(Error::NoImage(desktop)),
        Reply::Failed(error) => Err(error),
        _ => Err(unexpected_reply()),
    }
}

/// The command that starts the first viewer with the picture at `path`.
pub fn swaybg(path: &str) -> (c: Command)
    ensures
        c@ == swaybg_command(path@),
{
    let c = Command::new(SWAYBG).arg("-i").arg(path);
    assert(c@.args =~= swaybg_command(path@).args);
    c
}

/// The command that has the second viewer show the picture at `path`.
pub fn feh(path: &str) -> (c: Command)
    ensures
        c@ == feh_command(path@),
{
    let c = Command::new(FEH).arg("--bg-fill").arg(path);
    assert(c@.args =~= feh_command(path@).args);
    c
}

/// Reads the output of a command that prints a stored picture: trims it, takes it out of
/// its quotes and removes a leading `file://`. Fails with `Enquote` where the output is
/// not a quoted string.
pub fn parse_dconf(stdout: &str) -> (r: Result<String, Error>)
    ensures
        text_result(r) == parse_dconf_result(stdout@),
{
    let value = trim(stdout);
    match unquote(value.as_str()) {
        Ok(text) => Ok(strip_file_uri(text.as_str())),
        Err(error) => Err(error),
    }
}

/// Begins to find the picture of the desktop that identifies itself as `desktop`.
/// `session` is the name of the desktop session, if the environment has one; only LXDE
/// reads it. Fails with `UnsupportedDesktop` where the desktop is not recognized.
pub fn get(desktop: &str, session: Option<&str>) -> (step: Step)
    ensures
        step@ == get_step(desktop@, text_view(session)),
{
    match classify(desktop) {
        Some(Backend::Gnome) => value_step(gnome::get()),
        Some(Backend::Kde) => Step::Perform(
            Action::ReadConfig(kde::CONFIG_FILE.to_owned()),
            Pending::KdeConfig,
        ),
        Some(Backend::Cinnamon) => value_step(dconf::get(Store::Cinnamon)),
        Some(Backend::Mate) => value_step(dconf::get(Store::Mate)),
        Some(Backend::Xfce) => Step::Perform(Action::Run(xfce::list()), Pending::XfceImages),
        Some(Backend::Lxde) => Step::Perform(
            Action::ReadConfig(lxde::config_path(session)),
            Pending::LxdeConfig,
        ),
        Some(Backend::Deepin) => value_step(dconf::get(Store::Deepin)),
        None => Step::Failed(Error::UnsupportedDesktop),
    }
}

/// Begins to make the file at `path` the picture of the desktop that identifies itself as
/// `desktop`. `path` is the path as text, or nothing where the path is not valid Unicode;
/// the operation then fails with `InvalidPath`. On a desktop that is not recognized, a
/// viewer is started to show the picture.
pub fn set_from_path(desktop: &str, path: Option<&str>) -> (step: Step)
    ensures
        step@ == set_from_path_step(desktop@, text_view(path)),
{
    match path {
        Some(path) => set_path(desktop, path),
        None => Step::Failed(Error::InvalidPath),
    }
}

fn set_path(desktop: &str, path: &str) -> (step: Step)
    ensures
        step@ == set_path_step(desktop@, path@),
{
    match classify(desktop) {
        Some(Backend::Gnome) => Step::Perform(
            Action::Run(gnome::color_scheme()),
            Pending::ColorScheme { path: path.to_owned() },
        ),
        Some(Backend::Kde) => effect_step(kde::set(path)),
        Some(Backend::Cinnamon) => effect_step(dconf::set(Store::Cinnamon, path)),
        Some(Backend::Mate) => effect_step(dconf::set(Store::Mate, path)),
        Some(Backend::Xfce) => xfce_targets_step(xfce::IMAGE_PROPERTY, path),
        Some(Backend::Lxde) => effect_step(lxde::set(path)),
        Some(Backend::Deepin) => effect_step(dconf::set(Store::Deepin, path)),
        None => Step::Perform(
            Action::Spawn(swaybg(path)),
            Pending::FirstViewer { path: path.to_owned() },
        ),
    }
}

/// Begins to make a downloaded picture the picture of the desktop. `downloaded` is what
/// came of the download: the path of the file it was saved to, or why it failed.
pub fn set_from_url(desktop: &str, downloaded: Result<String, Error>) -> (step: Step)
    ensures
        step@ == set_from_url_step(desktop@, text_result(downloaded)),
{
    match downloaded {
        Ok(path) => set_path(desktop, path.as_str()),
        Err(error) => Step::Failed(error),
    }
}

/// Begins to make `mode` the layout of the picture on the desktop that identifies itself
/// as `desktop`. Fails with `UnsupportedDesktop` where the desktop is not recognized.
pub fn set_mode(desktop: &str, mode: Mode) -> (step: Step)
    ensures
        step@ == set_mode_step(desktop@, mode),
{
    match classify(desktop) {
        Some(Backend::Gnome) => effect_step(gnome::set_mode(mode)),
        Some(Backend::Kde) => effect_step(kde::set_mode(mode)),
        Some(Backend::Cinnamon) => effect_step(dconf::set_mode(Store::Cinnamon, mode)),
        Some(Backend::Mate) => effect_step(dconf::set_mode(Store::Mate, mode)),
        Some(Backend::Xfce) => xfce_targets_step(xfce::STYLE_PROPERTY, xfce::style_of(mode)),
        Some(Backend::Lxde) => effect_step(lxde::set_mode(mode)),
        Some(Backend::Deepin) => effect_step(dconf::set_mode(Store::Deepin, mode)),
        None => Step::Failed(Error::UnsupportedDesktop),
    }
}

/// Continues an operation: `pending` is what the last step was pending on, `reply` what
/// came of its action. A reply of a kind that the action cannot have ends the operation
/// with an `Other` error.
pub fn resume(pending: Pending, reply: Reply) -> (step: Step)
    ensures
        step@ == resume_step(pending@, reply@),
{
    match pending {
        Pending::Value { command } => match reply_stdout(command.as_str(), reply) {
            Ok(stdout) => found_step(parse_dconf(stdout.as_str())),
            Err(error) => Step::Failed(error),
        },
        Pending::KdeConfig => match reply_contents(kde::NAME, reply) {
            Ok(config) => found_step(kde::get(config.as_slice())),
            Err(error) => Step::Failed(error),
        },
        Pending::LxdeConfig => match reply_contents(lxde::NAME, reply) {
            Ok(config) => match str_from_utf8(config.as_slice()) {
                Some(text) => match lxde::get(text) {
                    Ok(path) => Step::Found(strip_file_uri(path.as_str())),
                    Err(error) => Step::Failed(error),
                },
                None => Step::Failed(Error::InvalidUtf8(config)),
            },
            Err(error) => Step::Failed(error),
        },
        Pending::XfceImages => match reply_stdout(xfce::XFCONF_QUERY, reply) {
            Ok(listing) => {
                let properties = xfce::properties(listing.as_str(), xfce::IMAGE_PROPERTY);
                if properties.len() == 0 {
                    Step::Failed(Error::XfceNoDesktops)
                } else {
                    Step::Perform(
                        Action::Run(xfce::read(properties[0].as_str())),
                        Pending::XfceImage,
                    )
                }
            },
            Err(error) => Step::Failed(error),
        },
        Pending::XfceImage => match reply_stdout(xfce::XFCONF_QUERY, reply) {
            Ok(stdout) => {
                let value = trim(stdout.as_str());
                Step::Found(strip_file_uri(value.as_str()))
            },
            Err(error) => Step::Failed(error),
        },
        Pending::XfceTargets { key, value } => match reply_stdout(xfce::XFCONF_QUERY, reply) {
            Ok(listing) => {
                let properties = xfce::properties(listing.as_str(), key.as_str());
                if properties.len() == 0 {
                    Step::Failed(Error::XfceNoDesktops)
                } else {
                    xfce_writes_step(properties, value)
                }
            },
            Err(error) => Step::Failed(error),
        },
        Pending::XfceWrites { properties, value } => match reply_completion(
            xfce::XFCONF_QUERY,
            reply,
        ) {
            Ok(_) => xfce_writes_step(properties, value),
            Err(error) => Step::Failed(error),
        },
        Pending::ColorScheme { path } => match reply_stdout(gnome::GSETTINGS, reply) {
            Ok(scheme) => effect_step(gnome::set(path.as_str(), scheme.as_str())),
            Err(error) => Step::Failed(error),
        },
        Pending::Effect { command } => done_step(reply_completion(command.as_str(), reply)),
        Pending::FirstViewer { path } => match reply {
            Reply::Launched => Step::Done,
            Reply::Failed(_) => Step::Perform(Action::Run(feh(path.as_str())), Pending::SecondViewer),
            _ => Step::Failed(unexpected_reply()),
        },
        Pending::SecondViewer => match reply {
            Reply::Exited(output) => done_step(run(FEH, &output)),
            Reply::Failed(_) => Step::Failed(
                Error::CommandFailed { command: FEH.to_owned(), code: NO_EXIT_CODE },
            ),
            _ => Step::Failed(unexpected_reply()),
        },
    }
}

} // verus!
