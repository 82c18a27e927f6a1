//! The command-line option parser of the `getopts` crate, as the library
//! uses it. The contracts of the functions marked `external_body` here are
//! taken on trust from getopts' source; nothing proves them.
use vstd::prelude::*;
use vstd::utf8::is_ascii_chars;
use getopts::{Fail, Matches, Options};

verus! {

#[verifier::external_type_specification]
#[verifier::external_body]
pub struct ExOptions(Options);

#[verifier::external_type_specification]
#[verifier::external_body]
pub struct ExMatches(Matches);

#[verifier::external_type_specification]
#[verifier::external_body]
pub struct ExFail(Fail);

/// One declared option: short name, long name, hint for its argument,
/// description, and whether it takes an argument. Every option the library
/// declares may be given at most once and need not be given.
pub type OptRow = (Seq<char>, Seq<char>, Seq<char>, Seq<char>, bool);

/// The options declared in a getopts `Options`, in the order of declaration.
pub uninterp spec fn option_table(opts: Options) -> Seq<OptRow>;

/// The `Options` parses in getopts' default style: options and free
/// arguments may be mixed, and long options need `--`.
pub uninterp spec fn default_style(opts: Options) -> bool;

/// What a getopts `Matches` holds of the options: for every name by which
/// `Matches::opt_present` finds an option, the occurrences of that option in
/// the command line, in order, each with its argument (`None` for a flag).
pub uninterp spec fn matched_options(m: Matches) -> Map<Seq<char>, Seq<Option<Seq<char>>>>;

/// The free arguments a getopts `Matches` holds, in order.
pub uninterp spec fn free_arguments(m: Matches) -> Seq<Seq<char>>;

/// What getopts' `Options::parse` gives for the declared options and the
/// arguments: `None` where it fails, else what the `Matches` holds.
pub uninterp spec fn getopts_parse(table: Seq<OptRow>, args: Seq<Seq<char>>) -> Option<
    (Map<Seq<char>, Seq<Option<Seq<char>>>>, Seq<Seq<char>>),
>;

/// The help text getopts' `Options::usage` formats from the declared options
/// and a first line.
pub uninterp spec fn getopts_usage(table: Seq<OptRow>, brief: Seq<char>) -> Seq<char>;

/// Names that getopts accepts for one option: a short name of at most one
/// character, a long name that is empty or longer than one character, not
/// both empty; here also ASCII, so that characters and bytes agree.
pub open spec fn valid_names(short: Seq<char>, long: Seq<char>) -> bool {
    &&& short.len() <= 1
    &&& (long.len() == 0 || long.len() > 1)
    &&& short.len() + long.len() > 0
    &&& is_ascii_chars(short)
    &&& is_ascii_chars(long)
}

/// Every declared option has valid names.
pub open spec fn valid_table(table: Seq<OptRow>) -> bool {
    forall|k: int| 0 <= k < table.len() ==> valid_names(#[trigger] table[k].0, table[k].1)
}

/// No two declared options share a short name or a long name.
pub open spec fn distinct_names(table: Seq<OptRow>) -> bool {
    forall|k: int, l: int|
        0 <= k < table.len() && 0 <= l < table.len() && k != l ==> {
            &&& (#[trigger] table[k].0.len() > 0 ==> table[k].0 != #[trigger] table[l].0)
            &&& (table[k].1.len() > 0 ==> table[k].1 != table[l].1)
        }
}

/// After a successful parse, each declared option can be asked for by its
/// short and by its long name, and both give the same occurrences.
pub open spec fn names_resolve(table: Seq<OptRow>, matched: Map<Seq<char>, Seq<Option<Seq<char>>>>) -> bool {
    forall|k: int|
        0 <= k < table.len() ==> {
            &&& (#[trigger] table[k].0.len() > 0 ==> matched.dom().contains(table[k].0))
            &&& (table[k].1.len() > 0 ==> matched.dom().contains(table[k].1))
            &&& (table[k].0.len() > 0 && table[k].1.len() > 0 ==> matched[table[k].0]
                == matched[table[k].1])
        }
}

/// `Options::new`: no options declared, default parsing style.
#[verifier::external_body]
pub(crate) fn options_new() -> (opts: Options)
    ensures
        option_table(opts) == Seq::<OptRow>::empty(),
        default_style(opts),
{
    Options::new()
}

/// `Options::optflag`: declares an option without argument at the end of
/// the table; it panics on invalid names, which `requires` leaves out.
#[verifier::external_body]
pub(crate) fn options_optflag(opts: &mut Options, short_name: &str, long_name: &str, desc: &str)
    requires
        valid_names(short_name@, long_name@),
    ensures
        option_table(*final(opts)) == option_table(*old(opts)).push(
            (short_name@, long_name@, Seq::<char>::empty(), desc@, false),
        ),
        default_style(*final(opts)) == default_style(*old(opts)),
{
    opts.optflag(short_name, long_name, desc);
}

/// `Options::optopt`: declares an option that takes an argument at the end
/// of the table; it panics on invalid names, which `requires` leaves out.
#[verifier::external_body]
pub(crate) fn options_optopt(opts: &mut Options, short_name: &str, long_name: &str, desc: &str, hint: &str)
    requires
        valid_names(short_name@, long_name@),
    ensures
        option_table(*final(opts)) == option_table(*old(opts)).push(
            (short_name@, long_name@, hint@, desc@, true),
        ),
        default_style(*final(opts)) == default_style(*old(opts)),
{
    opts.optopt(short_name, long_name, desc, hint);
}

/// `Options::parse`: fails or gives the matches that `getopts_parse` names.
/// The parse also reads the parsing style, which `requires` fixes to the
/// default. Of a success the source shows that every declared option can be
/// asked for by its names (when no two options share one).
#[verifier::external_body]
pub(crate) fn options_parse(opts: &Options, args: &Vec<String>) -> (res: Result<Matches, Fail>)
    requires
        valid_table(option_table(*opts)),
        default_style(*opts),
    ensures
        match res {
            Ok(m) => {
                &&& getopts_parse(option_table(*opts), args.deep_view()) == Some(
                    (matched_options(m), free_arguments(m)),
                )
                &&& distinct_names(option_table(*opts)) ==> names_resolve(
                    option_table(*opts),
                    matched_options(m),
                )
            },
            Err(_) => getopts_parse(option_table(*opts), args.deep_view()) is None,
        },
{
    opts.parse(args)
}

/// `Options::usage`: the help text for the declared options under `brief`.
/// It also reads the long-only flag, which `requires` fixes to the default.
#[verifier::external_body]
pub(crate) fn options_usage(opts: &Options, brief: &str) -> (text: String)
    requires
        valid_table(option_table(*opts)),
        default_style(*opts),
    ensures
        text@ == getopts_usage(option_table(*opts), brief@),
{
    opts.usage(brief)
}

/// `Matches::opt_present`: whether the option was given; it panics on a
/// name that names no option, which `requires` leaves out.
#[verifier::external_body]
pub(crate) fn matches_opt_present(m: &Matches, name: &str) -> (present: bool)
    requires
        matched_options(*m).dom().contains(name@),
    ensures
        present == (matched_options(*m)[name@].len() > 0),
{
    m.opt_present(name)
}

/// The argument of the first occurrence of an option, if it was given with
/// one.
pub open spec fn first_argument(occurrences: Seq<Option<Seq<char>>>) -> Option<Seq<char>> {
    if occurrences.len() > 0 {
        occurrences[0]
    } else {
        None
    }
}

/// `Matches::opt_str`: the argument of the first occurrence of the option;
/// it panics on a name that names no option, which `requires` leaves out.
#[verifier::external_body]
pub(crate) fn matches_opt_str(m: &Matches, name: &str) -> (value: Option<String>)
    requires
        matched_options(*m).dom().contains(name@),
    ensures
        value.deep_view() == first_argument(matched_options(*m)[name@]),
{
    m.opt_str(name)
}

/// The `free` field of `Matches`: the free arguments.
#[verifier::external_body]
pub(crate) fn matches_free(m: &Matches) -> (free: Vec<String>)
    ensures
        free.deep_view() == free_arguments(*m),
{
    m.free.clone()
}

} // verus!
