//! From the supervisor's own command line to the daemon's.

use crate::state::ArgMode;
use vstd::prelude::*;
use vstd::string::StringExecFns;

verus! {

/// The flag that selects the Picoprobe mode.
pub open spec fn picoprobe_flag() -> Seq<char> {
    "--picoprobe-mode"@
}

/// The flag that selects the general RP2040 mode.
pub open spec fn general_flag() -> Seq<char> {
    "--general-rp2040-mode"@
}

/// The end of a program name that selects the Picoprobe mode by itself.
pub open spec fn picoprobe_suffix() -> Seq<char> {
    "picoprobe"@
}

/// The mode that `arg` selects, if it is one of the supervisor's own flags.
pub open spec fn flag_mode(arg: Seq<char>) -> Option<ArgMode> {
    if arg == picoprobe_flag() {
        Some(ArgMode::Picoprobe)
    } else if arg == general_flag() {
        Some(ArgMode::GeneralRp2040)
    } else {
        None
    }
}

/// The mode that the name under which the supervisor was started selects.
pub open spec fn named_mode(program: Seq<char>) -> ArgMode {
    if picoprobe_suffix().is_suffix_of(program) {
        ArgMode::Picoprobe
    } else {
        ArgMode::Plain
    }
}

/// The mode after the flags among `rest`: the last flag decides, and
/// `fallback` where there is none.
pub open spec fn flagged_mode(rest: Seq<Seq<char>>, fallback: ArgMode) -> ArgMode
    decreases rest.len(),
{
    if rest.len() == 0 {
        fallback
    } else {
        match flag_mode(rest.last()) {
            Some(mode) => mode,
            None => flagged_mode(rest.drop_last(), fallback),
        }
    }
}

/// The mode that a command line selects. Its first entry is the program
/// name.
pub open spec fn chosen_mode(args: Seq<Seq<char>>) -> ArgMode {
    if args.len() == 0 {
        ArgMode::Plain
    } else {
        flagged_mode(args.drop_first(), named_mode(args[0]))
    }
}

/// The entries of a command line that are meant for the daemon: all but the
/// program name and the supervisor's own flags, in their order.
pub open spec fn passed_through(args: Seq<Seq<char>>) -> Seq<Seq<char>> {
    if args.len() == 0 {
        seq![]
    } else {
        args.drop_first().filter(|arg: Seq<char>| flag_mode(arg) is None)
    }
}

/// The fixed arguments of a mode.
pub open spec fn mode_arguments(mode: ArgMode) -> Seq<Seq<char>> {
    match mode {
        ArgMode::Picoprobe => seq![
            "-s"@,
            "/opt/rpi-openocd/tcl"@,
            "-f"@,
            "interface/picoprobe.cfg"@,
            "-f"@,
            "target/rp2040.cfg"@,
        ],
        ArgMode::GeneralRp2040 => seq![
            "-s"@,
            "/opt/rpi-openocd/tcl"@,
            "-f"@,
            "target/rp2040.cfg"@,
        ],
        ArgMode::Plain => seq![],
    }
}

/// The daemon's arguments: those of the mode, then those passed through.
pub open spec fn child_arguments(mode: ArgMode, passed: Seq<Seq<char>>) -> Seq<Seq<char>> {
    mode_arguments(mode) + passed
}

/// The path of the daemon.
pub open spec fn daemon_path() -> Seq<char> {
    "/opt/rpi-openocd/src/openocd"@
}

/// The name under which the daemon shows among the processes.
pub open spec fn daemon_name() -> Seq<char> {
    "openocd"@
}

/// Calls `str::ends_with` with a string as the pattern: whether `text` ends
/// in `suffix`.
#[verifier::external_body]
fn ends_with(text: &str, suffix: &str) -> (yes: bool)
    ensures
        yes == suffix@.is_suffix_of(text@),
{
    text.ends_with(suffix)
}

/// Tells which mode `arg` selects, if it is a flag of the supervisor's own.
pub fn flag_of(arg: &String) -> (mode: Option<ArgMode>)
    ensures
        mode == flag_mode(arg@),
{
    if *arg == String::from_str("--picoprobe-mode") {
        Some(ArgMode::Picoprobe)
    } else if *arg == String::from_str("--general-rp2040-mode") {
        Some(ArgMode::GeneralRp2040)
    } else {
        None
    }
}

/// Reads a command line: the mode it selects and the entries it passes
/// through to the daemon.
pub fn resolve(args: &Vec<String>) -> (resolved: (ArgMode, Vec<String>))
    ensures
        resolved.0 == chosen_mode(args.deep_view()),
        resolved.1.deep_view() == passed_through(args.deep_view()),
{
    let mut passed: Vec<String> = Vec::new();
    if args.len() == 0 {
        assert(passed.deep_view() =~= seq![]);
        return (ArgMode::Plain, passed);
    }
    let ghost all = args.deep_view();
    let ghost keep = |arg: Seq<char>| flag_mode(arg) is None;
    let first = if ends_with(args[0].as_str(), "picoprobe") {
        ArgMode::Picoprobe
    } else {
        ArgMode::Plain
    };
    let mut mode = first;
    let mut i: usize = 1;
    proof {
        reveal(Seq::filter);
        assert(all.subrange(1, 1) =~= seq![]);
        assert(passed.deep_view() =~= seq![]);
    }
    while i < args.len()
        invariant
            1 <= i <= args.len(),
            all == args.deep_view(),
            keep == |arg: Seq<char>| flag_mode(arg) is None,
            first == named_mode(all[0]),
            mode == flagged_mode(all.subrange(1, i as int), first),
            passed.deep_view() == all.subrange(1, i as int).filter(keep),
        decreases args.len() - i,
    {
        let ghost before = all.subrange(1, i as int);
        let ghost now = all.subrange(1, i as int + 1);
        let ghost kept = passed.deep_view();
        proof {
            reveal(Seq::filter);
            assert(now.drop_last() =~= before);
            assert(now.last() == args[i as int]@);
        }
        match flag_of(&args[i]) {
            Some(selected) => {
                mode = selected;
            },
            None => {
                passed.push(args[i].clone());
                assert(passed.deep_view() =~= kept.push(args[i as int]@));
            },
        }
        i += 1;
    }
    assert(all.subrange(1, i as int) =~= all.drop_first());
    (mode, passed)
}

/// The fixed arguments of `mode`.
pub fn fixed_arguments(mode: ArgMode) -> (fixed: Vec<String>)
    ensures
        fixed.deep_view() == mode_arguments(mode),
{
    let mut fixed: Vec<String> = Vec::new();
    match mode {
        ArgMode::Picoprobe => {
            fixed.push(String::from_str("-s"));
            fixed.push(String::from_str("/opt/rpi-openocd/tcl"));
            fixed.push(String::from_str("-f"));
            fixed.push(String::from_str("interface/picoprobe.cfg"));
            fixed.push(String::from_str("-f"));
            fixed.push(String::from_str("target/rp2040.cfg"));
        },
        ArgMode::GeneralRp2040 => {
            fixed.push(String::from_str("-s"));
            fixed.push(String::from_str("/opt/rpi-openocd/tcl"));
            fixed.push(String::from_str("-f"));
            fixed.push(String::from_str("target/rp2040.cfg"));
        },
        ArgMode::Plain => {},
    }
    assert(fixed.deep_view() =~= mode_arguments(mode));
    fixed
}

/// The daemon's arguments for a mode and what is passed through.
pub fn daemon_arguments(mode: ArgMode, passed: &Vec<String>) -> (arguments: Vec<String>)
    ensures
        arguments.deep_view() == child_arguments(mode, passed.deep_view()),
{
    let mut arguments = fixed_arguments(mode);
    let ghost fixed = arguments.deep_view();
    let mut i: usize = 0;
    while i < passed.len()
        invariant
            i <= passed.len(),
            arguments.deep_view() == fixed + passed.deep_view().subrange(0, i as int),
        decreases passed.len() - i,
    {
        let ghost so_far = arguments.deep_view();
        arguments.push(passed[i].clone());
        assert(arguments.deep_view() =~= so_far.push(passed[i as int]@));
        assert(passed.deep_view().subrange(0, i as int + 1) =~= passed.deep_view().subrange(
            0,
            i as int,
        ).push(passed[i as int]@));
        i += 1;
    }
    assert(passed.deep_view().subrange(0, i as int) =~= passed.deep_view());
    arguments
}

} // verus!
