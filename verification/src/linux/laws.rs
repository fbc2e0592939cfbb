//! What holds of the dispatch and of every operation, whatever the desktop,
//! the mode, the path and the replies.

use crate::error::ErrorView;
use crate::linux::{
    backend_of, feh_command, get_step, gnome, kde, lxde, parse_dconf_result, resume_step,
    run_then, set_from_path_step, set_mode_step, swaybg_command, xfce, ActionView, Backend,
    PendingView, ReplyView, StepView, FEH,
};
use crate::mode::Mode;
use crate::linux::dconf::{self, Store};
use crate::normalize::{
    lemma_enquoted_shape, lemma_strip_of_uri, lemma_stripped_of_absolute,
    lemma_unquote_of_enquoted, quoted_uri, stripped, unquoted, FILE_SCHEME, QUOTE,
};
use crate::process::OutputView;
use crate::text::{
    contains, is_white_space, lemma_byte_line_end_is, lemma_trimmed_of_line,
    lemma_trimmed_of_tight, occurs_at, trimmed, LINE_FEED,
};
use vstd::utf8::{decode_utf8, valid_utf8};
use vstd::prelude::*;
use vstd::string::*;

verus! {

/// Dispatch is a function of the identity alone: the same identity always selects the
/// same backend, and is always judged GNOME-compliant or not in the same way.
pub proof fn lemma_same_identity_same_backend(first: Seq<char>, second: Seq<char>)
    requires
        first == second,
    ensures
        gnome::compliant(first) == gnome::compliant(second),
        backend_of(first) == backend_of(second),
{
}

/// GNOME-compliance is decided before any name is compared: a compliant identity selects
/// the GNOME backend whatever else it says.
pub proof fn lemma_compliant_selects_gnome(desktop: Seq<char>)
    requires
        gnome::compliant(desktop),
    ensures
        backend_of(desktop) == Some(Backend::Gnome),
{
}

/// An unset identity, which reads as the empty string, selects no backend.
pub proof fn lemma_empty_identity_is_unrecognized()
    ensures
        backend_of(Seq::<char>::empty()) == None::<Backend>,
{
    reveal_strlit("GNOME");
    reveal_strlit("Unity");
    reveal_strlit("Pantheon");
    reveal_strlit("KDE");
    reveal_strlit("X-Cinnamon");
    reveal_strlit("MATE");
    reveal_strlit("XFCE");
    reveal_strlit("LXDE");
    reveal_strlit("Deepin");
    let empty = Seq::<char>::empty();
    assert("GNOME"@.len() == 5);
    assert forall|i: int| !occurs_at(empty, "GNOME"@, i) by {}
    assert(!contains(empty, "GNOME"@));
    assert("Unity"@.len() == 5);
    assert("Pantheon"@.len() == 8);
    assert("KDE"@.len() == 3);
    assert("X-Cinnamon"@.len() == 10);
    assert("MATE"@.len() == 4);
    assert("XFCE"@.len() == 4);
    assert("LXDE"@.len() == 4);
    assert("Deepin"@.len() == 6);
}

/// No identity shorter than `GNOME` mentions it.
proof fn lemma_short_identity_has_no_gnome(desktop: Seq<char>)
    requires
        desktop.len() < 5,
    ensures
        !contains(desktop, "GNOME"@),
{
    reveal_strlit("GNOME");
    assert("GNOME"@.len() == 5);
    assert forall|i: int| !occurs_at(desktop, "GNOME"@, i) by {}
}

/// No identity without a capital `G` mentions `GNOME`.
proof fn lemma_identity_without_g_has_no_gnome(desktop: Seq<char>)
    requires
        forall|i: int| 0 <= i < desktop.len() ==> desktop[i] != 'G',
    ensures
        !contains(desktop, "GNOME"@),
{
    reveal_strlit("GNOME");
    assert("GNOME"@.len() == 5);
    assert forall|i: int| !occurs_at(desktop, "GNOME"@, i) by {
        if 0 <= i && i + 5 <= desktop.len() {
            assert(desktop.subrange(i, i + 5)[0] == desktop[i]);
            assert("GNOME"@[0] == 'G');
        }
    }
}

/// Each of the six names selects its own backend: none of them is GNOME-compliant.
pub proof fn lemma_names_select_their_backends()
    ensures
        backend_of("KDE"@) == Some(Backend::Kde),
        backend_of("X-Cinnamon"@) == Some(Backend::Cinnamon),
        backend_of("MATE"@) == Some(Backend::Mate),
        backend_of("XFCE"@) == Some(Backend::Xfce),
        backend_of("LXDE"@) == Some(Backend::Lxde),
        backend_of("Deepin"@) == Some(Backend::Deepin),
{
    reveal_strlit("Unity");
    reveal_strlit("Pantheon");
    reveal_strlit("KDE");
    reveal_strlit("X-Cinnamon");
    reveal_strlit("MATE");
    reveal_strlit("XFCE");
    reveal_strlit("LXDE");
    reveal_strlit("Deepin");
    assert("Unity"@.len() == 5 && "Unity"@[0] == 'U');
    assert("Pantheon"@.len() == 8);
    assert("KDE"@.len() == 3);
    assert("X-Cinnamon"@.len() == 10);
    assert("MATE"@.len() == 4 && "MATE"@[0] == 'M');
    assert("XFCE"@.len() == 4 && "XFCE"@[0] == 'X');
    assert("LXDE"@.len() == 4 && "LXDE"@[0] == 'L');
    assert("Deepin"@.len() == 6);
    lemma_short_identity_has_no_gnome("KDE"@);
    lemma_short_identity_has_no_gnome("MATE"@);
    lemma_short_identity_has_no_gnome("XFCE"@);
    lemma_short_identity_has_no_gnome("LXDE"@);
    lemma_identity_without_g_has_no_gnome("X-Cinnamon"@);
    lemma_identity_without_g_has_no_gnome("Deepin"@);
}

/// Every backend has a token for every mode: none of the tables leaves a mode out.
pub proof fn lemma_every_mode_has_a_token(mode: Mode)
    ensures
        gnome::mode_name(mode).len() > 0,
        kde::fill_mode(mode).len() > 0,
        lxde::mode_name(mode).len() > 0,
        xfce::style(mode).len() > 0,
{
    reveal_strlit("centered");
    reveal_strlit("zoom");
    reveal_strlit("scaled");
    reveal_strlit("spanned");
    reveal_strlit("stretched");
    reveal_strlit("wallpaper");
    reveal_strlit("center");
    reveal_strlit("crop");
    reveal_strlit("fit");
    reveal_strlit("screen");
    reveal_strlit("stretch");
    reveal_strlit("tile");
    reveal_strlit("0");
    reveal_strlit("1");
    reveal_strlit("2");
    reveal_strlit("3");
    reveal_strlit("4");
    reveal_strlit("5");
    reveal_strlit("6");
}

/// For every desktop and every mode, `set_mode` either asks for a command to be run or
/// fails with `UnsupportedDesktop`, and it fails exactly where the desktop is not
/// recognized. It never ends without having asked for anything.
pub proof fn lemma_set_mode_acts_or_is_unsupported(desktop: Seq<char>, mode: Mode)
    ensures
        match set_mode_step(desktop, mode) {
            StepView::Perform(ActionView::Run(_), _) => backend_of(desktop) is Some,
            StepView::Failed(error) => error == ErrorView::UnsupportedDesktop && backend_of(
                desktop,
            ) is None,
            _ => false,
        },
{
}

/// For every desktop, `get` either asks for something to be run or read or fails with
/// `UnsupportedDesktop`, and it fails exactly where the desktop is not recognized.
pub proof fn lemma_get_acts_or_is_unsupported(desktop: Seq<char>, session: Option<Seq<char>>)
    ensures
        match get_step(desktop, session) {
            StepView::Perform(_, _) => backend_of(desktop) is Some,
            StepView::Failed(error) => error == ErrorView::UnsupportedDesktop && backend_of(
                desktop,
            ) is None,
            _ => false,
        },
{
}

/// `set_from_path` fails at once with `InvalidPath` where the path is not valid Unicode.
/// Otherwise it always asks for something: on a recognized desktop for a command to be
/// run, on any other for the first viewer to be started.
pub proof fn lemma_set_from_path_acts(desktop: Seq<char>, path: Option<Seq<char>>)
    ensures
        path is None ==> set_from_path_step(desktop, path) == StepView::Failed(
            ErrorView::InvalidPath,
        ),
        path matches Some(p) ==> match set_from_path_step(desktop, path) {
            StepView::Perform(ActionView::Run(_), _) => backend_of(desktop) is Some,
            StepView::Perform(ActionView::Spawn(command), pending) => backend_of(desktop) is None
                && command == swaybg_command(p) && pending == (PendingView::FirstViewer {
                path: p,
            }),
            _ => false,
        },
{
}

/// Whatever comes back, the step after the first step of `set_mode` ends the operation
/// with success or with a failure, or, on XFCE alone, asks for the next command. It ends
/// with success only after a command that exited with code zero.
pub proof fn lemma_set_mode_goes_on(desktop: Seq<char>, mode: Mode, reply: ReplyView)
    ensures
        set_mode_step(desktop, mode) matches StepView::Perform(_, pending) ==> {
            let next = resume_step(pending, reply);
            &&& next is Done || next is Failed || (next is Perform && backend_of(desktop) == Some(
                Backend::Xfce,
            ))
            &&& next is Done ==> (reply matches ReplyView::Exited(output) && output.success())
        },
{
}

/// On XFCE an operation that sets something never ends with nothing set: where the
/// listing names no property to set, it fails with `XfceNoDesktops`, and otherwise it
/// asks for the first property to be set.
pub proof fn lemma_xfce_sets_or_fails(key: Seq<char>, value: Seq<char>, reply: ReplyView)
    ensures
        !(resume_step(PendingView::XfceTargets { key, value }, reply) is Done),
        !(resume_step(PendingView::XfceTargets { key, value }, reply) is Found),
{
}

/// A command that was run for its effect ends the operation: with success if and only if
/// it exited with code zero, and otherwise with a failure.
pub proof fn lemma_effect_ends(command: Seq<char>, reply: ReplyView)
    ensures
        resume_step(PendingView::Effect { command }, reply) is Done || resume_step(
            PendingView::Effect { command },
            reply,
        ) is Failed,
        resume_step(PendingView::Effect { command }, reply) is Done <==> (reply matches ReplyView::Exited(
            output,
        ) && output.success()),
        reply matches ReplyView::Exited(output) ==> (!output.success() ==> resume_step(
            PendingView::Effect { command },
            reply,
        ) == StepView::Failed(
            ErrorView::CommandFailed { command, code: output.reported_code() },
        )),
{
}

/// On a desktop that is not recognized the viewers are tried in a fixed order: the
/// operation is done once the first is started; where it cannot be started the second is
/// run; and where the second cannot be started either, or does not exit with code zero,
/// the operation fails with `CommandFailed`, which names the second viewer.
pub proof fn lemma_viewers_in_order(path: Seq<char>, first: ReplyView, second: ReplyView)
    requires
        first is Launched || first is Failed,
        second is Exited || second is Failed,
    ensures
        first is Launched ==> resume_step(PendingView::FirstViewer { path }, first)
            == StepView::Done,
        first is Failed ==> resume_step(PendingView::FirstViewer { path }, first) == run_then(
            feh_command(path),
            PendingView::SecondViewer,
        ),
        resume_step(PendingView::SecondViewer, second) is Done <==> (second matches ReplyView::Exited(
            output,
        ) && output.success()),
        !(resume_step(PendingView::SecondViewer, second) is Done) ==> (resume_step(
            PendingView::SecondViewer,
            second,
        ) matches StepView::Failed(ErrorView::CommandFailed { command, .. }) && command == FEH@),
{
}

/// What `set_from_path` writes is the quoted `file://` URI of the path: on GNOME and on
/// the desktops that are driven through `dconf` the last argument of the command, on KDE
/// the value in the script.
pub proof fn lemma_set_writes_the_quoted_uri(store: Store, path: Seq<char>, scheme: Seq<char>)
    ensures
        dconf::set_command(store, path).args.last() == quoted_uri(path),
        gnome::set_command(path, scheme).args.last() == quoted_uri(path),
        kde::set_command(path) == kde::eval_command(kde::script("Image"@, quoted_uri(path))),
{
}

/// Round trip on GNOME, Cinnamon, MATE and Deepin: where the store hands back, within
/// white space, the value that `set_from_path` wrote for `path`, `get` finds `path`.
pub proof fn lemma_stored_value_reads_as_path(stdout: Seq<char>, path: Seq<char>)
    requires
        trimmed(stdout) == quoted_uri(path),
    ensures
        parse_dconf_result(stdout) == Ok::<Seq<char>, ErrorView>(path),
{
    lemma_unquote_of_enquoted(QUOTE, FILE_SCHEME@ + path);
    lemma_strip_of_uri(path);
}

/// Round trip on GNOME, Cinnamon, MATE and Deepin, step by step: where the command that
/// reads the store succeeds and prints the written value on a line of its own, the
/// operation ends with the path that was set.
pub proof fn lemma_round_trip_on_a_store(command: Seq<char>, path: Seq<char>, output: OutputView)
    requires
        output.success(),
        valid_utf8(output.stdout),
        decode_utf8(output.stdout) == quoted_uri(path) + seq!['\n'],
    ensures
        resume_step(PendingView::Value { command }, ReplyView::Exited(output))
            == StepView::Found(path),
{
    let value = quoted_uri(path);
    lemma_enquoted_shape(QUOTE, FILE_SCHEME@ + path);
    assert(!is_white_space(QUOTE));
    lemma_trimmed_of_line(value);
    lemma_stored_value_reads_as_path(value + seq!['\n'], path);
}

/// Round trip on KDE: where Plasma's configuration begins with the line that holds the
/// `file://` URI of `path`, `get` finds `path`, whatever bytes follow that line. The path
/// does not end with white space.
pub proof fn lemma_round_trip_on_kde(path: Seq<char>, line: Seq<u8>, rest: Seq<u8>)
    requires
        forall|i: int| 0 <= i < line.len() ==> line[i] != LINE_FEED,
        valid_utf8(line),
        decode_utf8(line) == kde::IMAGE_KEY@ + (FILE_SCHEME@ + path),
        path.len() > 0 ==> !is_white_space(path.last()),
        rest.len() > 0 ==> rest[0] == LINE_FEED,
    ensures
        resume_step(PendingView::KdeConfig, ReplyView::Contents(line + rest)) == StepView::Found(
            path,
        ),
{
    reveal_strlit("Image=");
    reveal_strlit("file://");
    let uri = FILE_SCHEME@ + path;
    let text = kde::IMAGE_KEY@ + uri;
    let config = line + rest;
    assert(kde::IMAGE_KEY@.len() == 6);
    assert(FILE_SCHEME@.len() == 7);
    assert forall|k: int| 0 <= k < line.len() implies config[k] != LINE_FEED by {
        assert(config[k] == line[k]);
    }
    lemma_byte_line_end_is(config, line.len() as int);
    assert(config.take(line.len() as int) =~= line);
    assert(text.subrange(0, 6) =~= kde::IMAGE_KEY@);
    assert(text.subrange(6, text.len() as int) =~= uri);
    assert(uri[0] == 'f');
    assert(uri.last() == if path.len() > 0 { path.last() } else { '/' });
    lemma_trimmed_of_tight(uri);
    lemma_strip_of_uri(path);
    assert(kde::image_of(text) == Some(path));
    assert(kde::find_image(config) == Ok::<Seq<char>, ErrorView>(path));
}

/// Round trip on LXDE: where the session's configuration holds `path`, an absolute path,
/// under `wallpaper`, `get` finds `path`.
pub proof fn lemma_round_trip_on_lxde(
    path: Seq<char>,
    config: Seq<u8>,
    values: Map<(Seq<char>, Seq<char>), Seq<char>>,
)
    requires
        path.len() > 0,
        path[0] == '/',
        valid_utf8(config),
        lxde::ini_parsed(lxde::without_mark(decode_utf8(config))) == Ok::<
            Map<(Seq<char>, Seq<char>), Seq<char>>,
            crate::error::IniFaultView,
        >(values),
        values.contains_key((lxde::SECTION@, lxde::WALLPAPER_KEY@)),
        values[(lxde::SECTION@, lxde::WALLPAPER_KEY@)] == path,
    ensures
        resume_step(PendingView::LxdeConfig, ReplyView::Contents(config)) == StepView::Found(path),
{
    lemma_stripped_of_absolute(path);
}

/// Round trip on XFCE: where the property that was set to `path`, an absolute path that
/// does not end with white space, is printed on a line of its own, `get` finds `path`.
pub proof fn lemma_round_trip_on_xfce(path: Seq<char>, output: OutputView)
    requires
        path.len() > 0,
        path[0] == '/',
        !is_white_space(path.last()),
        output.success(),
        valid_utf8(output.stdout),
        decode_utf8(output.stdout) == path + seq!['\n'],
    ensures
        resume_step(PendingView::XfceImage, ReplyView::Exited(output)) == StepView::Found(path),
{
    lemma_trimmed_of_line(path);
    lemma_stripped_of_absolute(path);
}

/// Whatever the desktop, a path that `get` finds is what is left of some text once a
/// leading `file://` is removed.
pub proof fn lemma_found_path_is_stripped(pending: PendingView, reply: ReplyView)
    requires
        resume_step(pending, reply) is Found,
    ensures
        exists|stored: Seq<char>|
            resume_step(pending, reply) == StepView::Found(#[trigger] stripped(stored)),
{
    match pending {
        PendingView::Value { command } => {
            let stdout = crate::linux::stdout_of(command, reply)->Ok_0;
            let stored = unquoted(trimmed(stdout))->Ok_0;
            assert(resume_step(pending, reply) == StepView::Found(stripped(stored)));
        },
        PendingView::KdeConfig => {
            let config = crate::linux::contents_of(kde::NAME@, reply)->Ok_0;
            kde::lemma_found_image_is_stripped(config);
        },
        PendingView::LxdeConfig => {
            let config = crate::linux::contents_of(lxde::NAME@, reply)->Ok_0;
            let stored = crate::linux::lxde_result(config)->Ok_0;
            assert(resume_step(pending, reply) == StepView::Found(stripped(stored)));
        },
        PendingView::XfceImage => {
            let stdout = crate::linux::stdout_of(xfce::XFCONF_QUERY@, reply)->Ok_0;
            assert(resume_step(pending, reply) == StepView::Found(stripped(trimmed(stdout))));
        },
        _ => {},
    }
}

} // verus!
