//! Run configuration built from the command line.
//!
//! The raw argument list (without the program's own name) is folded into a
//! [`Config`]: arguments opening with a single dash announce a value in the
//! following argument (`-c` names the configuration file), arguments opening
//! with a double dash set a flag, and everything else is the primary command
//! followed by its own arguments.  Dashes are counted on the argument with
//! surrounding whitespace removed; an argument shorter than two characters
//! after that is ignored.

use vstd::prelude::*;
use crate::paths::{chars_of, strip_trailing_slash, spec_strip_trailing_slash};

verus! {

/// The configuration of one run.
#[derive(Clone, Debug)]
pub struct Config {
    /// Path of the configuration file to load.
    pub config_path: String,
    /// The primary command word; empty when none was given.
    pub primary_command: String,
    /// The primary command's own arguments, in order.
    pub primary_command_args: Vec<String>,
    /// Report each file operation on the output sink.
    pub verbose: bool,
    /// Prefer the system copy when reconciling.
    pub prefer_disk: bool,
    /// Prefer the repository copy when reconciling.
    pub prefer_repo: bool,
}

/// Mathematical image of a [`Config`].
#[verifier::ext_equal]
pub ghost struct ConfigModel {
    pub config_path: Seq<char>,
    pub primary_command: Seq<char>,
    pub primary_command_args: Seq<Seq<char>>,
    pub verbose: bool,
    pub prefer_disk: bool,
    pub prefer_repo: bool,
}

/// The state the argument fold carries: the configuration built so far plus
/// the pending multi-part argument, if the previous argument announced one.
#[verifier::ext_equal]
pub ghost struct ParseState {
    pub cfg: ConfigModel,
    pub last_arg_multipart: bool,
    pub last_arg: Seq<char>,
}

/// The image of an exec [`Config`].
pub open spec fn model_of(cfg: Config) -> ConfigModel {
    ConfigModel {
        config_path: cfg.config_path@,
        primary_command: cfg.primary_command@,
        primary_command_args: cfg.primary_command_args.deep_view(),
        verbose: cfg.verbose,
        prefer_disk: cfg.prefer_disk,
        prefer_repo: cfg.prefer_repo,
    }
}

/// The configuration before any argument is seen: the configuration file at
/// its conventional place under the home directory (taken without a trailing
/// separator), verbose reporting, and no preference for either side.
pub open spec fn spec_default_config(home: Seq<char>) -> ConfigModel {
    ConfigModel {
        config_path: spec_strip_trailing_slash(home) + "/.config/rodeo/rodeo.toml"@,
        primary_command: Seq::empty(),
        primary_command_args: Seq::empty(),
        verbose: true,
        prefer_disk: false,
        prefer_repo: false,
    }
}

/// The fold's starting state.
pub open spec fn spec_initial_state(home: Seq<char>) -> ParseState {
    ParseState {
        cfg: spec_default_config(home),
        last_arg_multipart: false,
        last_arg: Seq::empty(),
    }
}

/// Whitespace removed from an argument's ends before its dashes are
/// counted: space, tab, carriage return, line feed.
pub open spec fn is_arg_space(c: char) -> bool {
    c == ' ' || c == '\t' || c == '\r' || c == '\n'
}

/// Model of removing leading whitespace.
pub open spec fn spec_trim_start(s: Seq<char>) -> Seq<char>
    decreases s.len(),
{
    if s.len() > 0 && is_arg_space(s[0]) {
        spec_trim_start(s.drop_first())
    } else {
        s
    }
}

/// Model of removing trailing whitespace.
pub open spec fn spec_trim_end(s: Seq<char>) -> Seq<char>
    decreases s.len(),
{
    if s.len() > 0 && is_arg_space(s[s.len() - 1]) {
        spec_trim_end(s.drop_last())
    } else {
        s
    }
}

/// Model of removing whitespace from both ends.
pub open spec fn spec_trim(s: Seq<char>) -> Seq<char> {
    spec_trim_end(spec_trim_start(s))
}

/// Consume one argument whose dash count has been determined: record it as
/// the latest argument, and either set the flag it names, or append it to
/// the command being assembled.
pub open spec fn spec_consume(st: ParseState, arg: Seq<char>, dash_count: int) -> ParseState {
    let moved = ParseState {
        cfg: st.cfg,
        last_arg: arg,
        last_arg_multipart: dash_count == 1,
    };
    if dash_count == 2 {
        if arg == "--prefer-repo"@ {
            ParseState { cfg: ConfigModel { prefer_repo: true, ..st.cfg }, ..moved }
        } else if arg == "--prefer-disk"@ {
            ParseState { cfg: ConfigModel { prefer_disk: true, ..st.cfg }, ..moved }
        } else {
            moved
        }
    } else if dash_count == 0 {
        if st.cfg.primary_command.len() == 0 {
            ParseState { cfg: ConfigModel { primary_command: arg, ..st.cfg }, ..moved }
        } else {
            ParseState {
                cfg: ConfigModel {
                    primary_command_args: st.cfg.primary_command_args.push(arg),
                    ..st.cfg
                },
                ..moved
            }
        }
    } else {
        moved
    }
}

/// One step of the argument fold.  A pending `-c` takes the argument as the
/// configuration file path, verbatim; any other pending multi-part argument
/// lets the argument through as command material; otherwise the dashes of
/// the trimmed argument decide, and an argument shorter than two characters
/// after trimming is ignored.
pub open spec fn spec_step(st: ParseState, arg: Seq<char>) -> ParseState {
    if st.last_arg_multipart {
        if st.last_arg == "-c"@ {
            ParseState {
                cfg: ConfigModel { config_path: arg, ..st.cfg },
                last_arg_multipart: false,
                last_arg: Seq::empty(),
            }
        } else {
            spec_consume(st, arg, 0)
        }
    } else {
        let t = spec_trim(arg);
        if t.len() < 2 {
            st
        } else if t[0] == '-' && t[1] == '-' {
            spec_consume(st, arg, 2)
        } else if t[0] == '-' {
            spec_consume(st, arg, 1)
        } else {
            spec_consume(st, arg, 0)
        }
    }
}

/// The whole argument fold.
pub open spec fn spec_parse(st: ParseState, args: Seq<Seq<char>>) -> ParseState
    decreases args.len(),
{
    if args.len() == 0 {
        st
    } else {
        spec_parse(spec_step(st, args[0]), args.drop_first())
    }
}

/// The configuration an argument list denotes under a given home directory.
pub open spec fn spec_config(home: Seq<char>, args: Seq<Seq<char>>) -> ConfigModel {
    spec_parse(spec_initial_state(home), args).cfg
}

fn trim_chars(p: &Vec<char>) -> (r: Vec<char>)
    ensures
        r@ == spec_trim(p@),
{
    let mut a: usize = 0;
    proof {
        assert(p@.skip(0) =~= p@);
    }
    while a < p.len() && (p[a] == ' ' || p[a] == '\t' || p[a] == '\r' || p[a] == '\n')
        invariant
            a <= p@.len(),
            spec_trim_start(p@) == spec_trim_start(p@.skip(a as int)),
        decreases p@.len() - a,
    {
        proof {
            assert(p@.skip(a as int)[0] == p@[a as int]);
            assert(p@.skip(a as int).drop_first() =~= p@.skip(a + 1));
        }
        a = a + 1;
    }
    proof {
        if a < p@.len() {
            assert(p@.skip(a as int)[0] == p@[a as int]);
        }
        assert(spec_trim_start(p@.skip(a as int)) == p@.skip(a as int));
        assert(p@.subrange(a as int, p@.len() as int) =~= p@.skip(a as int));
    }
    let ghost t = p@.skip(a as int);
    let mut b: usize = p.len();
    while b > a && (p[b - 1] == ' ' || p[b - 1] == '\t' || p[b - 1] == '\r' || p[b - 1] == '\n')
        invariant
            a <= b <= p@.len(),
            spec_trim_end(t) == spec_trim_end(p@.subrange(a as int, b as int)),
        decreases b,
    {
        proof {
            let cur = p@.subrange(a as int, b as int);
            assert(cur[cur.len() - 1] == p@[b - 1]);
            assert(cur.drop_last() =~= p@.subrange(a as int, b - 1));
        }
        b = b - 1;
    }
    proof {
        let cur = p@.subrange(a as int, b as int);
        if b > a {
            assert(cur[cur.len() - 1] == p@[b - 1]);
        }
        assert(spec_trim_end(p@.subrange(a as int, b as int)) == p@.subrange(a as int, b as int));
    }
    let mut r: Vec<char> = Vec::new();
    let mut i: usize = a;
    proof {
        assert(r@ =~= p@.subrange(a as int, a as int));
    }
    while i < b
        invariant
            a <= i <= b <= p@.len(),
            r@ == p@.subrange(a as int, i as int),
        decreases b - i,
    {
        r.push(p[i]);
        proof {
            assert(r@ =~= p@.subrange(a as int, i + 1));
        }
        i = i + 1;
    }
    r
}

/// The image of the exec fold state.
pub open spec fn state_of(cfg: Config, last_arg_multipart: bool, last_arg: Seq<char>) -> ParseState {
    ParseState { cfg: model_of(cfg), last_arg_multipart, last_arg }
}

impl Config {
    /// The configuration before any argument is seen, for a given home
    /// directory.  An empty home directory is rejected before this point:
    /// the home variable being absent is fatal.
    pub fn default(user_home: &str) -> (c: Config)
        requires
            user_home@.len() > 0,
        ensures
            model_of(c) == spec_default_config(user_home@),
    {
        let stripped = strip_trailing_slash(user_home);
        let config_path = stripped.concat("/.config/rodeo/rodeo.toml");
        let c = Config {
            config_path,
            primary_command: String::new(),
            primary_command_args: Vec::new(),
            verbose: true,
            prefer_disk: false,
            prefer_repo: false,
        };
        proof {
            assert(c.primary_command_args.deep_view() =~= Seq::<Seq<char>>::empty());
            assert(model_of(c) =~~= spec_default_config(user_home@));
        }
        c
    }

    /// Fold an argument list (without the program's own name) into a
    /// configuration.
    pub fn new(args: Vec<String>, user_home: &str) -> (c: Config)
        requires
            user_home@.len() > 0,
        ensures
            model_of(c) == spec_config(user_home@, args.deep_view()),
    {
        let mut cfg = Config::default(user_home);
        let mut last_arg_multipart: bool = false;
        let mut last_arg: String = String::new();
        let mut i: usize = 0;
        proof {
            assert(args.deep_view().skip(0) =~= args.deep_view());
            assert(state_of(cfg, last_arg_multipart, last_arg@) =~~= spec_initial_state(
                user_home@,
            ));
        }
        while i < args.len()
            invariant
                i <= args@.len(),
                spec_parse(spec_initial_state(user_home@), args.deep_view()) == spec_parse(
                    state_of(cfg, last_arg_multipart, last_arg@),
                    args.deep_view().skip(i as int),
                ),
            decreases args@.len() - i,
        {
            let ghost st0 = state_of(cfg, last_arg_multipart, last_arg@);
            let ghost sk = args.deep_view().skip(i as int);
            proof {
                assert(sk[0] == args@[i as int]@);
                assert(sk.drop_first() =~= args.deep_view().skip(i + 1));
                assert(spec_parse(st0, sk) == spec_parse(spec_step(st0, sk[0]), sk.drop_first()));
            }
            let arg = &args[i];
            let mut handled: bool = false;
            let mut dash_count: u8 = 0;
            if last_arg_multipart {
                if last_arg == String::from_str("-c") {
                    cfg.config_path = arg.clone();
                    last_arg = String::new();
                    last_arg_multipart = false;
                    handled = true;
                    proof {
                        reveal_strlit("-c");
                        assert(state_of(cfg, last_arg_multipart, last_arg@) =~~= spec_step(
                            st0,
                            sk[0],
                        ));
                    }
                } else {
                    proof {
                        reveal_strlit("-c");
                    }
                }
            } else {
                let chars = chars_of(arg.as_str());
                let t = trim_chars(&chars);
                if t.len() < 2 {
                    handled = true;
                    proof {
                        assert(state_of(cfg, last_arg_multipart, last_arg@) =~~= spec_step(
                            st0,
                            sk[0],
                        ));
                    }
                } else if t[0] == '-' && t[1] == '-' {
                    dash_count = 2;
                } else if t[0] == '-' {
                    dash_count = 1;
                }
            }
            if !handled {
                last_arg = arg.clone();
                last_arg_multipart = dash_count == 1;
                if dash_count == 2 {
                    if *arg == String::from_str("--prefer-repo") {
                        cfg.prefer_repo = true;
                    } else if *arg == String::from_str("--prefer-disk") {
                        cfg.prefer_disk = true;
                    }
                } else if dash_count == 0 {
                    if cfg.primary_command.as_str().is_empty() {
                        cfg.primary_command = arg.clone();
                    } else {
                        cfg.primary_command_args.push(arg.clone());
                    }
                }
                proof {
                    if dash_count == 0 && st0.cfg.primary_command.len() > 0 {
                        assert(cfg.primary_command_args.deep_view()
                            =~= st0.cfg.primary_command_args.push(args@[i as int]@));
                    }
                    assert(state_of(cfg, last_arg_multipart, last_arg@) =~~= spec_step(
                        st0,
                        sk[0],
                    ));
                }
            }
            i = i + 1;
        }
        proof {
            assert(args.deep_view().skip(args@.len() as int) =~= Seq::<Seq<char>>::empty());
        }
        cfg
    }

    /// Both reconciliation preferences at once are contradictory; the caller
    /// treats this as a fatal configuration error.
    pub fn conflicting_preferences(&self) -> (b: bool)
        ensures
            b == (self.prefer_repo && self.prefer_disk),
    {
        self.prefer_repo && self.prefer_disk
    }
}

} // verus!
