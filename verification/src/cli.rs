//! What the command line asks the program to do.
use vstd::prelude::*;
use vstd::string::*;
use getopts::Matches;
use crate::config::{default_config_candidates, spec_default_candidates};
use crate::options::{
    OptRow, option_table, matched_options, free_arguments, getopts_parse, getopts_usage,
    valid_table, distinct_names, first_argument,
    options_new, options_optflag, options_optopt, options_parse, options_usage,
    matches_opt_present, matches_opt_str, matches_free,
};

verus! {

/// What std's `Debug` formatting writes for a list of strings.
pub uninterp spec fn debug_list(items: Seq<Seq<char>>) -> Seq<char>;

/// Formats a list of strings with std's `Debug`: brackets, quotes and
/// escapes.
#[verifier::external_body]
fn debug_strings(items: &Vec<String>) -> (text: String)
    ensures
        text@ == debug_list(items.deep_view()),
{
    format!("{:?}", items)
}

/// The description of the `--config` option, which lists the default
/// keymap files.
pub open spec fn config_help(defaults: Seq<Seq<char>>) -> Seq<char> {
    "specify the keymap config file to use (default in order: "@ + debug_list(defaults) + ")"@
}

/// The options the program declares: `-h/--help`, `-v/--version` and
/// `-c/--config FILE`.
pub open spec fn spec_option_table(defaults: Seq<Seq<char>>) -> Seq<OptRow> {
    seq![
        ("h"@, "help"@, Seq::<char>::empty(), "prints this help message"@, false),
        ("v"@, "version"@, Seq::<char>::empty(), "prints the version"@, false),
        ("c"@, "config"@, "FILE"@, config_help(defaults), true),
    ]
}

/// The first line of the help text.
pub open spec fn usage_brief(program: Seq<char>) -> Seq<char> {
    "Usage: "@ + program + " [options] [keymap.toml]"@
}

/// What the program is asked to do.
#[derive(Debug, PartialEq, Eq)]
pub enum Request {
    /// The arguments do not parse: print the help text and fail.
    BadArguments,
    /// Print the help text.
    Help,
    /// Print the version.
    Version,
    /// Load this keymap file.
    UseConfig(String),
    /// No keymap file was named: use the first default one that opens.
    SearchDefaults,
}

/// `Request` with its text as a sequence of characters.
pub enum RequestView {
    BadArguments,
    Help,
    Version,
    UseConfig(Seq<char>),
    SearchDefaults,
}

impl View for Request {
    type V = RequestView;

    open spec fn view(&self) -> RequestView {
        match self {
            Request::BadArguments => RequestView::BadArguments,
            Request::Help => RequestView::Help,
            Request::Version => RequestView::Version,
            Request::UseConfig(f) => RequestView::UseConfig(f@),
            Request::SearchDefaults => RequestView::SearchDefaults,
        }
    }
}

/// What a parsed command line says: whether help and version were asked
/// for, the argument of `--config` if it was given with one, and the free
/// arguments.
#[derive(Debug)]
pub struct ParsedArgs {
    pub help: bool,
    pub version: bool,
    pub config: Option<String>,
    pub free: Vec<String>,
}

/// `ParsedArgs` as plain values.
pub type ParsedView = (bool, bool, Option<Seq<char>>, Seq<Seq<char>>);

impl ParsedArgs {
    pub open spec fn view_of(&self) -> ParsedView {
        (self.help, self.version, self.config.deep_view(), self.free.deep_view())
    }
}

/// The request a command line makes: a parse failure asks for the help text
/// and failure; otherwise help comes first, then the version, then the
/// keymap file named by `--config`, then the first free argument; with
/// neither, the default files are searched.
pub open spec fn spec_decide(parsed: Option<ParsedView>) -> RequestView {
    match parsed {
        None => RequestView::BadArguments,
        Some((help, version, config, free)) => {
            if help {
                RequestView::Help
            } else if version {
                RequestView::Version
            } else if config is Some {
                RequestView::UseConfig(config->0)
            } else if free.len() > 0 {
                RequestView::UseConfig(free[0])
            } else {
                RequestView::SearchDefaults
            }
        },
    }
}

/// A command line that does not parse asks for the help text and failure.
/// One that does and names `-h/--help` asks for help, whatever else it
/// holds; without help, `-v/--version` asks for the version; without
/// either, the argument of `-c/--config` is the keymap file, then the first
/// free argument; with none of these the defaults are searched.
pub proof fn lemma_decide_precedence(
    help: bool,
    version: bool,
    config: Option<Seq<char>>,
    free: Seq<Seq<char>>,
)
    ensures
        spec_decide(None) == RequestView::BadArguments,
        help ==> spec_decide(Some((help, version, config, free))) == RequestView::Help,
        !help && version ==> spec_decide(Some((help, version, config, free))) == RequestView::Version,
        !help && !version && config is Some ==> spec_decide(Some((help, version, config, free)))
            == RequestView::UseConfig(config->0),
        !help && !version && config is None && free.len() > 0 ==> spec_decide(
            Some((help, version, config, free)),
        ) == RequestView::UseConfig(free[0]),
        !help && !version && config is None && free.len() == 0 ==> spec_decide(
            Some((help, version, config, free)),
        ) == RequestView::SearchDefaults,
{
}

/// Decides what a command line asks for from its parse (`None` when it did
/// not parse).
pub fn decide(parsed: Option<ParsedArgs>) -> (req: Request)
    ensures
        req@ == spec_decide(
            match parsed {
                Some(p) => Some(p.view_of()),
                None => None,
            },
        ),
        parsed is None ==> req@ == RequestView::BadArguments,
        parsed is Some && parsed->0.help ==> req@ == RequestView::Help,
        parsed is Some && !parsed->0.help && parsed->0.version ==> req@ == RequestView::Version,
        parsed is Some && !parsed->0.help && !parsed->0.version && parsed->0.config is Some
            ==> req@ == RequestView::UseConfig(parsed->0.config->0@),
        parsed is Some && !parsed->0.help && !parsed->0.version && parsed->0.config is None
            && parsed->0.free.len() > 0 ==> req@ == RequestView::UseConfig(parsed->0.free@[0]@),
        parsed is Some && !parsed->0.help && !parsed->0.version && parsed->0.config is None
            && parsed->0.free.len() == 0 ==> req@ == RequestView::SearchDefaults,
{
    match parsed {
        None => Request::BadArguments,
        Some(p) => {
            if p.help {
                Request::Help
            } else if p.version {
                Request::Version
            } else {
                match p.config {
                    Some(c) => Request::UseConfig(c),
                    None => {
                        if p.free.len() > 0 {
                            let first = p.free[0].clone();
                            Request::UseConfig(first)
                        } else {
                            Request::SearchDefaults
                        }
                    },
                }
            }
        },
    }
}


/// What a parse (`None` when it failed) says of the program's options.
pub open spec fn parse_outcome(
    parse: Option<(Map<Seq<char>, Seq<Option<Seq<char>>>>, Seq<Seq<char>>)>,
) -> Option<ParsedView> {
    match parse {
        None => None,
        Some((matched, free)) => Some(
            (
                matched["h"@].len() > 0,
                matched["v"@].len() > 0,
                first_argument(matched["c"@]),
                free,
            ),
        ),
    }
}

/// Reads what the program needs of a successful parse.
fn read_matches(m: &Matches) -> (parsed: ParsedArgs)
    requires
        matched_options(*m).dom().contains("h"@),
        matched_options(*m).dom().contains("v"@),
        matched_options(*m).dom().contains("c"@),
    ensures
        Some(parsed.view_of()) == parse_outcome(Some((matched_options(*m), free_arguments(*m)))),
{
    let help = matches_opt_present(m, "h");
    let version = matches_opt_present(m, "v");
    let config = matches_opt_str(m, "c");
    let free = matches_free(m);
    ParsedArgs { help, version, config, free }
}

/// The command line, read: the request it makes, the help text, and the
/// default keymap files in the order they are to be tried.
#[derive(Debug)]
pub struct CommandLine {
    pub request: Request,
    pub usage: String,
    pub default_configs: Vec<String>,
}

/// Reads the command line `args` (the program name first), given the values
/// of the `USERPROFILE` and `APPDATA` environment variables (`None` when
/// unset or not valid Unicode).
pub fn parse_args(args: &Vec<String>, userprofile: Option<String>, appdata: Option<String>) -> (cl: CommandLine)
    requires
        args.len() >= 1,
    ensures
        cl.default_configs.deep_view() == spec_default_candidates(userprofile.deep_view(), appdata.deep_view()),
        cl.usage@ == getopts_usage(
            spec_option_table(cl.default_configs.deep_view()),
            usage_brief(args.deep_view()[0]),
        ),
        cl.request@ == spec_decide(
            parse_outcome(
                getopts_parse(spec_option_table(cl.default_configs.deep_view()), args.deep_view().skip(1)),
            ),
        ),
{
    let default_configs = default_config_candidates(userprofile, appdata);
    let ghost defaults = default_configs.deep_view();

    let mut c_msg = String::from_str("specify the keymap config file to use (default in order: ");
    let listed = debug_strings(&default_configs);
    c_msg.append(listed.as_str());
    c_msg.append(")");

    proof {
        reveal_strlit("h");
        reveal_strlit("help");
        reveal_strlit("v");
        reveal_strlit("version");
        reveal_strlit("c");
        reveal_strlit("config");
    }
    let mut opts = options_new();
    options_optflag(&mut opts, "h", "help", "prints this help message");
    options_optflag(&mut opts, "v", "version", "prints the version");
    options_optopt(&mut opts, "c", "config", c_msg.as_str(), "FILE");
    let ghost table = option_table(opts);
    assert(table =~= spec_option_table(defaults));
    assert(valid_table(table));

    let mut rest: Vec<String> = Vec::new();
    let mut i: usize = 1;
    while i < args.len()
        invariant
            1 <= i <= args.len(),
            rest.len() == i - 1,
            rest.deep_view() =~= args.deep_view().subrange(1, i as int),
        decreases args.len() - i,
    {
        let arg = args[i].clone();
        rest.push(arg);
        assert(rest.deep_view()[i - 1] == args.deep_view()[i as int]);
        i = i + 1;
    }
    assert(rest.deep_view() =~= args.deep_view().skip(1));

    let mut brief = String::from_str("Usage: ");
    brief.append(args[0].as_str());
    brief.append(" [options] [keymap.toml]");
    let usage = options_usage(&opts, brief.as_str());

    let parsed = match options_parse(&opts, &rest) {
        Ok(m) => {
            proof {
                assert("h"@[0] != "v"@[0] && "h"@[0] != "c"@[0] && "v"@[0] != "c"@[0]);
                assert("help"@[0] != "version"@[0] && "help"@[0] != "config"@[0]
                    && "version"@[0] != "config"@[0]);
                assert(distinct_names(table));
                assert(table[0].0.len() > 0);
                assert(table[1].0.len() > 0);
                assert(table[2].0.len() > 0);
            }
            Some(read_matches(&m))
        },
        Err(_) => None,
    };
    let request = decide(parsed);
    CommandLine { request, usage, default_configs }
}

} // verus!
