use vstd::prelude::*;

use crate::exception::Exception;

verus! {

/// The user's choices for the applet.
#[derive(Clone, Copy, Debug, PartialEq, Eq, Structural)]
pub struct Options {
    pub show_inputs: bool,
    pub show_streams: bool,
    pub show_icons: bool,
    pub dont_group: bool,
    /// The help text was asked for; parsing stopped there.
    pub show_help: bool,
}

impl Default for Options {
    fn default() -> (r: Options)
        ensures
            r == default_options(),
    {
        Options {
            show_inputs: false,
            show_streams: false,
            show_icons: false,
            dont_group: false,
            show_help: false,
        }
    }
}

pub open spec fn default_options() -> Options {
    Options {
        show_inputs: false,
        show_streams: false,
        show_icons: false,
        dont_group: false,
        show_help: false,
    }
}

/// Whether `c` is alphabetic in the Unicode sense.
pub uninterp spec fn alphabetic(c: char) -> bool;

/// Relies on char::is_alphabetic, whose result depends on the character alone.
#[verifier::external_body]
fn is_alphabetic(c: char) -> (r: bool)
    ensures
        r == alphabetic(c),
{
    c.is_alphabetic()
}

/// A bundle of one-letter flags such as `-sc`: a dash followed by at least
/// one alphabetic character, and nothing else.
pub open spec fn small_flags_spec(arg: Seq<char>) -> bool {
    &&& arg.len() >= 2
    &&& arg[0] == '-'
    &&& forall|i: int| 1 <= i < arg.len() ==> alphabetic(#[trigger] arg[i])
}

/// Whether `arg` is a bundle of one-letter flags.
pub fn is_small_flags(arg: &String) -> (r: bool)
    ensures
        r == small_flags_spec(arg@),
{
    let text = arg.as_str();
    let n = text.unicode_len();
    if n < 2 {
        return false;
    }
    if text.get_char(0) != '-' {
        return false;
    }
    let mut i: usize = 1;
    while i < n
        invariant
            1 <= i <= n,
            n == arg@.len(),
            text@ == arg@,
            forall|j: int| 1 <= j < i ==> alphabetic(#[trigger] arg@[j]),
        decreases n - i,
    {
        if !is_alphabetic(text.get_char(i)) {
            return false;
        }
        i = i + 1;
    }
    true
}

/// What one argument stands for after bundles are split: each letter of a
/// bundle becomes a flag of its own.
pub open spec fn expand(arg: Seq<char>) -> Seq<Seq<char>> {
    if small_flags_spec(arg) {
        Seq::new((arg.len() - 1) as nat, |i: int| seq!['-', arg[i + 1]])
    } else {
        seq![arg]
    }
}

/// The first `n` arguments with their bundles split.
pub open spec fn split_prefix(args: Seq<Seq<char>>, n: int) -> Seq<Seq<char>>
    decreases n,
{
    if n <= 0 {
        seq![]
    } else {
        split_prefix(args, n - 1) + expand(args[n - 1])
    }
}

pub open spec fn strings_view(v: Seq<String>) -> Seq<Seq<char>> {
    v.map_values(|s: String| s@)
}

fn push_expanded(out: &mut Vec<String>, arg: String)
    ensures
        strings_view(final(out)@) == strings_view(old(out)@) + expand(arg@),
{
    let ghost start = strings_view(out@);
    if is_small_flags(&arg) {
        let text = arg.as_str();
        let n = text.unicode_len();
        let mut i: usize = 1;
        while i < n
            invariant
                1 <= i <= n,
                n == arg@.len(),
                text@ == arg@,
                small_flags_spec(arg@),
                strings_view(out@) == start + Seq::new(
                    (i - 1) as nat,
                    |k: int| seq!['-', arg@[k + 1]],
                ),
            decreases n - i,
        {
            proof {
                reveal_strlit("-");
            }
            let mut flag = String::from_str("-");
            let letter = text.substring_char(i, i + 1);
            assert(letter@ =~= seq![arg@[i as int]]);
            flag.append(letter);
            assert(flag@ =~= seq!['-', arg@[i as int]]);
            let ghost prev = strings_view(out@);
            out.push(flag);
            assert(strings_view(out@) =~= prev.push(flag@));
            i = i + 1;
            assert(strings_view(out@) =~= start + Seq::new(
                (i - 1) as nat,
                |k: int| seq!['-', arg@[k + 1]],
            ));
        }
    } else {
        out.push(arg);
        assert(strings_view(out@) =~= start + expand(arg@));
    }
}

/// Splits every bundle of one-letter flags (`-sc`) into single flags
/// (`-s`, `-c`); other arguments are kept as they are.
pub fn split_small_flags(args: Vec<String>) -> (r: Vec<String>)
    ensures
        strings_view(r@) == split_prefix(strings_view(args@), args@.len() as int),
{
    let ghost all = strings_view(args@);
    let mut out: Vec<String> = Vec::new();
    let mut i: usize = 0;
    while i < args.len()
        invariant
            i <= args@.len(),
            all == strings_view(args@),
            strings_view(out@) == split_prefix(all, i as int),
        decreases args.len() - i,
    {
        let a = args[i].clone();
        assert(a@ == all[i as int]);
        push_expanded(&mut out, a);
        i = i + 1;
    }
    out
}

/// What a single argument does to the options; `None` when it is no known
/// flag.
pub open spec fn flag_effect(arg: Seq<char>, o: Options) -> Option<Options> {
    if arg == "-i"@ || arg == "--show-inputs"@ {
        Some(Options { show_inputs: true, ..o })
    } else if arg == "-s"@ || arg == "--show-streams"@ {
        Some(Options { show_streams: true, ..o })
    } else if arg == "-d"@ || arg == "--dont-group"@ {
        Some(Options { dont_group: true, ..o })
    } else if arg == "-c"@ || arg == "--show-icons"@ {
        Some(Options { show_icons: true, ..o })
    } else if arg == "-h"@ || arg == "--help"@ {
        Some(Options { show_help: true, ..o })
    } else {
        None
    }
}

/// Parses the split arguments from position `i` on, starting from `o`: it
/// stops at the first unknown argument, which it returns, or at a request
/// for help.
pub open spec fn parse_from(args: Seq<Seq<char>>, i: int, o: Options) -> Result<Options, Seq<char>>
    decreases args.len() - i,
{
    if i < 0 || i >= args.len() {
        Ok(o)
    } else {
        match flag_effect(args[i], o) {
            None => Err(args[i]),
            Some(next) => if next.show_help {
                Ok(next)
            } else {
                parse_from(args, i + 1, next)
            },
        }
    }
}

fn is_flag(arg: &String, short: &str, long: &str) -> (r: bool)
    ensures
        r == (arg@ == short@ || arg@ == long@),
{
    let a = String::from_str(short);
    let b = String::from_str(long);
    *arg == a || *arg == b
}

impl Options {
    /// Reads the command-line arguments (without the program name). Unknown
    /// arguments are an error naming the argument.
    #[verifier::loop_isolation(false)]
    pub fn from_args(args: Vec<String>) -> (r: Result<Options, Exception>)
        ensures
            ({
                let split = split_prefix(strings_view(args@), args@.len() as int);
                match r {
                    Ok(o) => parse_from(split, 0, default_options()) == Ok::<
                        Options,
                        Seq<char>,
                    >(o),
                    Err(e) => parse_from(split, 0, default_options()) matches Err(a) && e.message()
                        == "Unknown option: "@ + a,
                }
            }),
    {
        let mut options = Options::default();
        let args = split_small_flags(args);
        let ghost split = strings_view(args@);
        let mut i: usize = 0;
        while i < args.len()
            invariant
                i <= args@.len(),
                split == strings_view(args@),
                !options.show_help,
                parse_from(split, i as int, options) == parse_from(split, 0, default_options()),
            decreases args.len() - i,
        {
            proof {
            reveal_strlit("-i");
            reveal_strlit("--show-inputs");
            reveal_strlit("-s");
            reveal_strlit("--show-streams");
            reveal_strlit("-d");
            reveal_strlit("--dont-group");
            reveal_strlit("-c");
            reveal_strlit("--show-icons");
            reveal_strlit("-h");
            reveal_strlit("--help");
            reveal_strlit("Unknown option: ");
            }
            let arg = &args[i];
            assert(arg@ == split[i as int]);
            if is_flag(arg, "-i", "--show-inputs") {
                options.show_inputs = true;
            } else if is_flag(arg, "-s", "--show-streams") {
                options.show_streams = true;
            } else if is_flag(arg, "-d", "--dont-group") {
                options.dont_group = true;
            } else if is_flag(arg, "-c", "--show-icons") {
                options.show_icons = true;
            } else if is_flag(arg, "-h", "--help") {
                options.show_help = true;
                return Ok(options);
            } else {
                let mut msg = String::from_str("Unknown option: ");
                msg.append(arg.as_str());
                return Err(Exception::Misc(msg));
            }
            i = i + 1;
        }
        Ok(options)
    }
}

} // verus!
