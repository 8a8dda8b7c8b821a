//! Command-line options of the launcher and the logging choices that follow from them.
use vstd::prelude::*;

use crate::text::{contains_str, copy_opt, has_substring, str_equals};

verus! {

/// Options given on the command line.
#[derive(Debug, PartialEq, Eq)]
pub struct CliOptions {
    /// How many times `--debug` was given (1: debug output, 2 or more: trace output).
    pub force_debug: u8,
    /// `--run-game`: launch the game right away if it is ready.
    pub run_game: bool,
    /// `--just-run-game`: as `--run-game`, also while a pre-download is available.
    pub just_run_game: bool,
    /// `--no-verbose-tracing`: no tracing output on stdout.
    pub no_verbose_tracing: bool,
    /// `--session <NAME>`: the session to switch to before starting.
    pub session: Option<String>,
}

/// The mathematical content of [`CliOptions`].
pub struct OptionsModel {
    pub force_debug: nat,
    pub run_game: bool,
    pub just_run_game: bool,
    pub no_verbose_tracing: bool,
    pub session: Option<Seq<char>>,
}

impl View for CliOptions {
    type V = OptionsModel;

    open spec fn view(&self) -> OptionsModel {
        OptionsModel {
            force_debug: self.force_debug as nat,
            run_game: self.run_game,
            just_run_game: self.just_run_game,
            no_verbose_tracing: self.no_verbose_tracing,
            session: match self.session {
                Some(s) => Some(s@),
                None => None,
            },
        }
    }
}

impl Clone for CliOptions {
    fn clone(&self) -> (r: CliOptions)
        ensures
            r == *self,
    {
        CliOptions {
            force_debug: self.force_debug,
            run_game: self.run_game,
            just_run_game: self.just_run_game,
            no_verbose_tracing: self.no_verbose_tracing,
            session: copy_opt(&self.session),
        }
    }
}

impl Default for CliOptions {
    fn default() -> (r: CliOptions)
        ensures
            r@ == no_options(),
    {
        CliOptions {
            force_debug: 0,
            run_game: false,
            just_run_game: false,
            no_verbose_tracing: false,
            session: None,
        }
    }
}

/// What the command line asks for.
#[derive(Debug, PartialEq, Eq)]
pub enum CliCommand {
    /// `-h` or `--help` was given: print the usage text and exit.
    ShowHelp,
    /// Start the launcher with these options.
    Run(CliOptions),
}

/// The options when nothing is given.
pub open spec fn no_options() -> OptionsModel {
    OptionsModel {
        force_debug: 0,
        run_game: false,
        just_run_game: false,
        no_verbose_tracing: false,
        session: None,
    }
}

/// The arguments as character sequences.
pub open spec fn args_view(args: Seq<String>) -> Seq<Seq<char>> {
    args.map_values(|s: String| s@)
}

/// Reads `args` from left to right into `acc`. The first component tells whether help was
/// asked for (reading stops there); the second is what was read up to that point. `--session`
/// takes the next argument as its value; unknown arguments are skipped.
pub open spec fn parse_from(args: Seq<Seq<char>>, acc: OptionsModel) -> (bool, OptionsModel)
    decreases args.len(),
{
    if args.len() == 0 {
        (false, acc)
    } else {
        let a = args[0];
        let rest = args.drop_first();
        if a == "-h"@ || a == "--help"@ {
            (true, acc)
        } else if a == "--debug"@ {
            parse_from(rest, OptionsModel { force_debug: acc.force_debug + 1, ..acc })
        } else if a == "--run-game"@ {
            parse_from(rest, OptionsModel { run_game: true, ..acc })
        } else if a == "--just-run-game"@ {
            parse_from(rest, OptionsModel { just_run_game: true, ..acc })
        } else if a == "--no-verbose-tracing"@ {
            parse_from(rest, OptionsModel { no_verbose_tracing: true, ..acc })
        } else if a == "--session"@ {
            if rest.len() > 0 {
                parse_from(rest.drop_first(), OptionsModel { session: Some(rest[0]), ..acc })
            } else {
                (false, acc)
            }
        } else {
            parse_from(rest, acc)
        }
    }
}

/// Whether `a` is one of the arguments that the parser recognises.
pub open spec fn is_known_arg(a: Seq<char>) -> bool {
    a == "-h"@ || a == "--help"@ || a == "--debug"@ || a == "--run-game"@ || a
        == "--just-run-game"@ || a == "--no-verbose-tracing"@ || a == "--session"@
}

/// Parses the command-line arguments (without the program name).
///
/// `-h`/`--help` anywhere (but as the value of `--session`) asks for help; `--debug` may be
/// repeated; `--session` takes the next argument as its value and is ignored when it is last;
/// every other argument is ignored.
pub fn parse_args(args: &Vec<String>) -> (r: CliCommand)
    requires
        parse_from(args_view(args@), no_options()).1.force_debug <= 255,
    ensures
        (r is ShowHelp) == parse_from(args_view(args@), no_options()).0,
        r matches CliCommand::Run(o) ==> o@ == parse_from(args_view(args@), no_options()).1,
{
    let ghost all = args_view(args@);
    let mut opts = CliOptions::default();
    let mut i: usize = 0;
    let n = args.len();
    assert(all.skip(0) =~= all);
    while i < n
        invariant
            n == args@.len(),
            i <= n,
            all == args_view(args@),
            parse_from(all.skip(i as int), opts@) == parse_from(all, no_options()),
            parse_from(all, no_options()).1.force_debug <= 255,
        decreases n - i,
    {
        let ghost rest = all.skip(i as int);
        assert(rest[0] == args@[i as int]@);
        assert(rest.drop_first() =~= all.skip(i + 1));
        let arg = args[i].as_str();
        proof {
            lemma_parse_keeps_debug_bound(rest, opts@);
        }
        if str_equals(arg, "-h") || str_equals(arg, "--help") {
            return CliCommand::ShowHelp;
        } else if str_equals(arg, "--debug") {
            opts.force_debug = opts.force_debug + 1;
        } else if str_equals(arg, "--run-game") {
            opts.run_game = true;
        } else if str_equals(arg, "--just-run-game") {
            opts.just_run_game = true;
        } else if str_equals(arg, "--no-verbose-tracing") {
            opts.no_verbose_tracing = true;
        } else if str_equals(arg, "--session") {
            if i + 1 < n {
                assert(rest.drop_first()[0] == args@[i + 1]@);
                assert(rest.drop_first().drop_first() =~= all.skip(i + 2));
                opts.session = Some(args[i + 1].clone());
                i = i + 1;
            } else {
                assert(rest.drop_first().len() == 0);
                assert(all.skip(i + 1).len() == 0);
            }
        }
        i = i + 1;
    }
    assert(all.skip(n as int).len() == 0);
    CliCommand::Run(opts)
}

/// Reading never lowers the `--debug` count, so the count at the stop bounds the count at
/// every earlier point.
proof fn lemma_parse_keeps_debug_bound(args: Seq<Seq<char>>, acc: OptionsModel)
    ensures
        acc.force_debug <= parse_from(args, acc).1.force_debug,
        args.len() > 0 && args[0] == "--debug"@ && !(args[0] == "-h"@) && !(args[0] == "--help"@)
            ==> acc.force_debug + 1 <= parse_from(args, acc).1.force_debug,
    decreases args.len(),
{
    if args.len() > 0 {
        let a = args[0];
        let rest = args.drop_first();
        lemma_parse_keeps_debug_bound(rest, OptionsModel { force_debug: acc.force_debug + 1, ..acc });
        lemma_parse_keeps_debug_bound(rest, OptionsModel { run_game: true, ..acc });
        lemma_parse_keeps_debug_bound(rest, OptionsModel { just_run_game: true, ..acc });
        lemma_parse_keeps_debug_bound(rest, OptionsModel { no_verbose_tracing: true, ..acc });
        lemma_parse_keeps_debug_bound(rest, acc);
        if rest.len() > 0 {
            lemma_parse_keeps_debug_bound(
                rest.drop_first(),
                OptionsModel { session: Some(rest[0]), ..acc },
            );
        }
    }
}

/// An argument that the parser does not recognise, put in front of the others, changes
/// nothing: it is skipped and the rest is read as if it were alone.
pub proof fn law_unknown_argument_ignored(unknown: Seq<char>, rest: Seq<Seq<char>>)
    requires
        !is_known_arg(unknown),
    ensures
        parse_from(seq![unknown] + rest, no_options()) == parse_from(rest, no_options()),
{
    assert((seq![unknown] + rest).drop_first() =~= rest);
}

/// Asking for help stops the reading: whatever follows `--help` is not looked at.
pub proof fn law_help_stops_reading(after: Seq<Seq<char>>, acc: OptionsModel)
    ensures
        parse_from(seq!["--help"@], acc).0,
        parse_from(seq!["--help"@] + after, acc) == parse_from(seq!["--help"@], acc),
{
    assert((seq!["--help"@] + after)[0] == "--help"@);
}

proof fn lemma_tail_contains(args: Seq<Seq<char>>, x: Seq<char>)
    requires
        args.len() > 0,
    ensures
        args.drop_first().contains(x) ==> args.contains(x),
        args.len() > 1 && args.drop_first().drop_first().contains(x) ==> args.contains(x),
{
    if args.drop_first().contains(x) {
        let k = choose|k: int| 0 <= k < args.drop_first().len() && args.drop_first()[k] == x;
        assert(args[k + 1] == x);
    }
    if args.len() > 1 && args.drop_first().drop_first().contains(x) {
        let k = choose|k: int|
            0 <= k < args.drop_first().drop_first().len() && args.drop_first().drop_first()[k]
                == x;
        assert(args[k + 2] == x);
    }
}

/// Each option comes only from its own argument, and once set it stays set: reading `args`
/// from `acc` turns `run_game`, `just_run_game` or `no_verbose_tracing` on only when
/// `--run-game`, `--just-run-game` or `--no-verbose-tracing` is among the arguments; raises
/// the `--debug` count only when `--debug` is among them; and changes the session only when
/// `--session` is among them. Nothing that was set is unset.
pub proof fn law_each_option_from_its_own_argument(args: Seq<Seq<char>>, acc: OptionsModel)
    ensures
        ({
            let r = parse_from(args, acc).1;
            &&& r.run_game ==> acc.run_game || args.contains("--run-game"@)
            &&& r.just_run_game ==> acc.just_run_game || args.contains("--just-run-game"@)
            &&& r.no_verbose_tracing ==> acc.no_verbose_tracing || args.contains(
                "--no-verbose-tracing"@,
            )
            &&& r.force_debug >= acc.force_debug
            &&& r.force_debug > acc.force_debug ==> args.contains("--debug"@)
            &&& r.session != acc.session ==> args.contains("--session"@)
            &&& acc.run_game ==> r.run_game
            &&& acc.just_run_game ==> r.just_run_game
            &&& acc.no_verbose_tracing ==> r.no_verbose_tracing
        }),
    decreases args.len(),
{
    if args.len() > 0 {
        let rest = args.drop_first();
        lemma_tail_contains(args, "--run-game"@);
        lemma_tail_contains(args, "--just-run-game"@);
        lemma_tail_contains(args, "--no-verbose-tracing"@);
        lemma_tail_contains(args, "--debug"@);
        lemma_tail_contains(args, "--session"@);
        assert(args[0] == args[0]);
        law_each_option_from_its_own_argument(rest, OptionsModel { force_debug: acc.force_debug + 1, ..acc });
        law_each_option_from_its_own_argument(rest, OptionsModel { run_game: true, ..acc });
        law_each_option_from_its_own_argument(rest, OptionsModel { just_run_game: true, ..acc });
        law_each_option_from_its_own_argument(rest, OptionsModel { no_verbose_tracing: true, ..acc });
        law_each_option_from_its_own_argument(rest, acc);
        if rest.len() > 0 {
            law_each_option_from_its_own_argument(
                rest.drop_first(),
                OptionsModel { session: Some(rest[0]), ..acc },
            );
        }
    }
}

/// A flag that comes first is read: `--run-game`, `--just-run-game`, `--no-verbose-tracing`
/// first turn their own option on, `--debug` first counts once at least, and help is asked
/// for only when `-h` or `--help` is among the arguments.
pub proof fn law_flag_in_front_is_read(args: Seq<Seq<char>>, acc: OptionsModel)
    requires
        args.len() > 0,
    ensures
        args[0] == "--run-game"@ ==> parse_from(args, acc).1.run_game,
        args[0] == "--just-run-game"@ ==> parse_from(args, acc).1.just_run_game,
        args[0] == "--no-verbose-tracing"@ ==> parse_from(args, acc).1.no_verbose_tracing,
        args[0] == "--debug"@ ==> parse_from(args, acc).1.force_debug >= acc.force_debug + 1,
{
    reveal_strlit("--run-game");
    reveal_strlit("--just-run-game");
    reveal_strlit("--no-verbose-tracing");
    reveal_strlit("--debug");
    reveal_strlit("-h");
    reveal_strlit("--help");
    assert("--run-game"@.len() == 10);
    assert("--just-run-game"@.len() == 15);
    assert("--no-verbose-tracing"@.len() == 20);
    assert("--debug"@.len() == 7);
    assert("-h"@.len() == 2);
    assert("--help"@.len() == 6);
    let rest = args.drop_first();
    law_each_option_from_its_own_argument(rest, OptionsModel { run_game: true, ..acc });
    law_each_option_from_its_own_argument(rest, OptionsModel { just_run_game: true, ..acc });
    law_each_option_from_its_own_argument(rest, OptionsModel { no_verbose_tracing: true, ..acc });
    law_each_option_from_its_own_argument(rest, OptionsModel { force_debug: acc.force_debug + 1, ..acc });
}

/// Help is asked for only when `-h` or `--help` is among the arguments.
pub proof fn law_help_only_when_asked(args: Seq<Seq<char>>, acc: OptionsModel)
    ensures
        parse_from(args, acc).0 ==> args.contains("-h"@) || args.contains("--help"@),
    decreases args.len(),
{
    if args.len() > 0 {
        let rest = args.drop_first();
        lemma_tail_contains(args, "-h"@);
        lemma_tail_contains(args, "--help"@);
        assert(args[0] == args[0]);
        law_help_only_when_asked(rest, OptionsModel { force_debug: acc.force_debug + 1, ..acc });
        law_help_only_when_asked(rest, OptionsModel { run_game: true, ..acc });
        law_help_only_when_asked(rest, OptionsModel { just_run_game: true, ..acc });
        law_help_only_when_asked(rest, OptionsModel { no_verbose_tracing: true, ..acc });
        law_help_only_when_asked(rest, acc);
        if rest.len() > 0 {
            law_help_only_when_asked(rest.drop_first(), OptionsModel { session: Some(rest[0]), ..acc });
        }
    }
}

/// `--session` takes the argument after it as the session name; it stays the session unless a
/// later `--session` comes.
pub proof fn law_session_takes_next_argument(name: Seq<char>, rest: Seq<Seq<char>>, acc: OptionsModel)
    requires
        !rest.contains("--session"@),
    ensures
        parse_from(seq!["--session"@, name] + rest, acc).1.session == Some(name),
{
    reveal_strlit("--session");
    reveal_strlit("--run-game");
    reveal_strlit("--just-run-game");
    reveal_strlit("--no-verbose-tracing");
    reveal_strlit("--debug");
    reveal_strlit("-h");
    reveal_strlit("--help");
    assert("--session"@.len() == 9);
    assert("--run-game"@.len() == 10);
    assert("--just-run-game"@.len() == 15);
    assert("--no-verbose-tracing"@.len() == 20);
    assert("--debug"@.len() == 7);
    assert("-h"@.len() == 2);
    assert("--help"@.len() == 6);
    let args = seq!["--session"@, name] + rest;
    assert(args[0] == "--session"@);
    assert(args.drop_first()[0] == name);
    assert(args.drop_first().drop_first() =~= rest);
    law_each_option_from_its_own_argument(rest, OptionsModel { session: Some(name), ..acc });
}

/// How much the launcher logs.
#[derive(Debug, Clone, Copy, PartialEq, Eq)]
pub enum LogLevel {
    Warn,
    Debug,
    Trace,
}

/// The log level: without `--debug`, debug output in debug builds and warnings otherwise;
/// one `--debug` gives debug output, two or more give trace output.
pub fn select_log_level(force_debug: u8, app_debug: bool) -> (r: LogLevel)
    ensures
        force_debug == 0 && app_debug ==> r == LogLevel::Debug,
        force_debug == 0 && !app_debug ==> r == LogLevel::Warn,
        force_debug == 1 ==> r == LogLevel::Debug,
        force_debug >= 2 ==> r == LogLevel::Trace,
{
    if force_debug == 0 {
        if app_debug {
            LogLevel::Debug
        } else {
            LogLevel::Warn
        }
    } else if force_debug == 1 {
        LogLevel::Debug
    } else {
        LogLevel::Trace
    }
}

/// Whether a log event from `target` is kept: events of the noisy networking and graphics
/// crates are dropped.
pub open spec fn keeps_target(target: Seq<char>) -> bool {
    !has_substring(target, "rustls"@) && !has_substring(target, "reqwest"@) && !has_substring(
        target,
        "h2"@,
    ) && !has_substring(target, "hyper"@) && !has_substring(target, "wgpu"@)
}

/// Filters out log events whose target names `rustls`, `reqwest`, `h2`, `hyper` or `wgpu`.
pub fn filter_noisy_crates(target: &str) -> (r: bool)
    ensures
        r == keeps_target(target@),
{
    !contains_str(target, "rustls") && !contains_str(target, "reqwest") && !contains_str(
        target,
        "h2",
    ) && !contains_str(target, "hyper") && !contains_str(target, "wgpu")
}

/// Whether an event goes to stdout: its target is not noisy and verbose tracing is on.
pub fn keep_stdout_event(target: &str, no_verbose_tracing: bool) -> (r: bool)
    ensures
        r == (keeps_target(target@) && !no_verbose_tracing),
{
    filter_noisy_crates(target) && !no_verbose_tracing
}

/// `name` is one of the targets whose events are dropped.
pub open spec fn is_noisy_name(name: Seq<char>) -> bool {
    name == "rustls"@ || name == "reqwest"@ || name == "h2"@ || name == "hyper"@ || name == "wgpu"@
}

/// An event whose target contains `rustls`, `reqwest`, `h2`, `hyper` or `wgpu` anywhere (here at
/// position `at`) is dropped, from the log file and from stdout alike.
pub proof fn law_noisy_target_dropped(target: Seq<char>, name: Seq<char>, at: int, no_verbose_tracing: bool)
    requires
        is_noisy_name(name),
        0 <= at,
        at + name.len() <= target.len(),
        target.subrange(at, at + name.len()) == name,
    ensures
        !keeps_target(target),
        !(keeps_target(target) && !no_verbose_tracing),
{
    assert(has_substring(target, name));
}

/// An event whose target contains none of the noisy names is kept in the log file, and on
/// stdout unless verbose tracing is off.
pub proof fn law_quiet_target_kept(target: Seq<char>)
    requires
        forall|name: Seq<char>, at: int|
            is_noisy_name(name) && 0 <= at && at + name.len() <= target.len() ==> #[trigger] target.subrange(
                at,
                at + name.len(),
            ) != name,
    ensures
        keeps_target(target),
{
    assert(is_noisy_name("rustls"@));
    assert(is_noisy_name("reqwest"@));
    assert(is_noisy_name("h2"@));
    assert(is_noisy_name("hyper"@));
    assert(is_noisy_name("wgpu"@));
}

} // verus!
