//! The plain command-line surface: one command word and its arguments.
//!
//! The argument list is handed in as plain strings; splitting it into a
//! command and the command's own arguments is all that happens here.  The
//! command is the first non-empty argument; everything after it, empty or
//! not, belongs to the command.

use vstd::prelude::*;

verus! {

/// A parsed command line.
#[derive(Clone, Debug)]
pub struct Options {
    /// The command word; empty when no non-empty argument was given.
    pub command: String,
    /// The command's own arguments, in order.
    pub command_args: Vec<String>,
}

/// The command an argument list designates: its first non-empty entry, or
/// the empty string when there is none.
pub open spec fn spec_command(args: Seq<Seq<char>>) -> Seq<char>
    decreases args.len(),
{
    if args.len() == 0 {
        Seq::empty()
    } else if args[0].len() == 0 {
        spec_command(args.drop_first())
    } else {
        args[0]
    }
}

/// The arguments that belong to the command: everything after the first
/// non-empty entry, or nothing when there is none.
pub open spec fn spec_command_args(args: Seq<Seq<char>>) -> Seq<Seq<char>>
    decreases args.len(),
{
    if args.len() == 0 {
        Seq::empty()
    } else if args[0].len() == 0 {
        spec_command_args(args.drop_first())
    } else {
        args.drop_first()
    }
}

impl Options {
    /// Split an argument list into the command and its arguments.
    pub fn new(args: Vec<String>) -> (opts: Options)
        ensures
            opts.command@ == spec_command(args.deep_view()),
            opts.command_args.deep_view() == spec_command_args(args.deep_view()),
    {
        let mut opts = Options::default();
        let mut i: usize = 0;
        proof {
            assert(args.deep_view().skip(0) =~= args.deep_view());
        }
        while i < args.len()
            invariant
                i <= args@.len(),
                opts.command@.len() == 0,
                opts.command_args@.len() == 0,
                spec_command(args.deep_view()) == spec_command(args.deep_view().skip(i as int)),
                spec_command_args(args.deep_view()) == spec_command_args(
                    args.deep_view().skip(i as int),
                ),
            decreases args@.len() - i,
        {
            proof {
                assert(args.deep_view().skip(i as int).drop_first() =~= args.deep_view().skip(
                    i + 1,
                ));
                assert(args.deep_view().skip(i as int)[0] == args@[i as int]@);
            }
            if !args[i].as_str().is_empty() {
                opts.command = args[i].clone();
                let mut j: usize = i + 1;
                while j < args.len()
                    invariant
                        i < j <= args@.len(),
                        opts.command@ == args@[i as int]@,
                        opts.command_args@.len() == j - i - 1,
                        forall|k: int|
                            0 <= k < j - i - 1 ==> (#[trigger] opts.command_args@[k])@
                                == args@[i + 1 + k]@,
                    decreases args@.len() - j,
                {
                    opts.command_args.push(args[j].clone());
                    j = j + 1;
                }
                proof {
                    assert(opts.command_args.deep_view() =~= args.deep_view().skip(i as int)
                        .drop_first());
                    assert(spec_command(args.deep_view().skip(i as int)) == args@[i as int]@);
                    assert(spec_command_args(args.deep_view().skip(i as int))
                        == args.deep_view().skip(i as int).drop_first());
                }
                return opts;
            }
            i = i + 1;
        }
        proof {
            assert(args.deep_view().skip(args@.len() as int) =~= Seq::<Seq<char>>::empty());
            assert(opts.command_args.deep_view() =~= Seq::<Seq<char>>::empty());
        }
        opts
    }

    /// The empty command line: no command, no arguments.
    pub fn default() -> (opts: Options)
        ensures
            opts.command@.len() == 0,
            opts.command_args@.len() == 0,
    {
        Options { command: String::new(), command_args: Vec::new() }
    }
}

} // verus!
