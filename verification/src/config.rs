use vstd::prelude::*;
use vstd::string::*;

verus! {

/// The program's configuration: the keymap file to load.
#[derive(Debug)]
pub struct Config {
    pub config_file: String,
}

impl Config {
    /// A configuration that loads `config_file`.
    pub fn new(config_file: String) -> (res: Self)
        ensures
            res.config_file@ == config_file@,
    {
        Config { config_file: config_file }
    }
}

/// The candidate an environment variable contributes: its value followed by
/// `suffix` when it is set (and valid Unicode), nothing otherwise.
pub open spec fn env_candidate(value: Option<Seq<char>>, suffix: Seq<char>) -> Seq<Seq<char>> {
    match value {
        Some(v) => seq![v + suffix],
        None => Seq::empty(),
    }
}

/// A set variable contributes exactly one candidate, its value followed by
/// the suffix, whatever the value holds; an unset one contributes none.
pub proof fn lemma_env_candidate(value: Option<Seq<char>>, suffix: Seq<char>)
    ensures
        value is None ==> env_candidate(value, suffix).len() == 0,
        value is Some ==> env_candidate(value, suffix).len() == 1,
        value is Some ==> env_candidate(value, suffix)[0] == value->0 + suffix,
{
}

/// Appends `value` followed by `to_push` to `vec` when the environment
/// variable that `value` was read from is set; leaves `vec` alone otherwise.
pub fn push_env_value(value: Option<String>, to_push: &str, vec: &mut Vec<String>)
    ensures
        final(vec).deep_view() == old(vec).deep_view() + env_candidate(value.deep_view(), to_push@),
        value is None ==> final(vec).deep_view() == old(vec).deep_view(),
        value is Some ==> final(vec).deep_view() == old(vec).deep_view().push(
            value->0@ + to_push@,
        ),
{
    if let Some(var) = value {
        let mut s = var;
        s.append(to_push);
        vec.push(s);
        assert(vec.deep_view() =~= old(vec).deep_view() + env_candidate(Some(var@), to_push@));
    } else {
        assert(vec.deep_view() =~= old(vec).deep_view() + Seq::<Seq<char>>::empty());
    }
}


/// The keymap files tried, in order, when none is named on the command line:
/// `keymap.toml` in the user's profile directory and in the application data
/// directory, where those variables are set, then `keymap.toml` in the
/// working directory.
pub open spec fn spec_default_candidates(
    userprofile: Option<Seq<char>>,
    appdata: Option<Seq<char>>,
) -> Seq<Seq<char>> {
    env_candidate(userprofile, "\\keymap.toml"@) + env_candidate(appdata, "\\keymap.toml"@)
        + seq!["keymap.toml"@]
}

/// The default keymap files spelled out case by case.
pub open spec fn default_list(userprofile: Option<Seq<char>>, appdata: Option<Seq<char>>) -> Seq<
    Seq<char>,
> {
    match (userprofile, appdata) {
        (Some(u), Some(a)) => seq![u + "\\keymap.toml"@, a + "\\keymap.toml"@, "keymap.toml"@],
        (Some(u), None) => seq![u + "\\keymap.toml"@, "keymap.toml"@],
        (None, Some(a)) => seq![a + "\\keymap.toml"@, "keymap.toml"@],
        (None, None) => seq!["keymap.toml"@],
    }
}

/// The user profile's keymap file, when the variable is set, comes first;
/// the application data one follows, whatever either value holds; the
/// working directory's `keymap.toml` always comes last.
pub proof fn lemma_default_candidates_order(userprofile: Option<Seq<char>>, appdata: Option<Seq<char>>)
    ensures
        spec_default_candidates(userprofile, appdata) == default_list(userprofile, appdata),
        userprofile is Some ==> spec_default_candidates(userprofile, appdata)[0] == userprofile->0
            + "\\keymap.toml"@,
        userprofile is None && appdata is Some ==> spec_default_candidates(userprofile, appdata)[0]
            == appdata->0 + "\\keymap.toml"@,
        userprofile is Some && appdata is Some ==> spec_default_candidates(userprofile, appdata)[1]
            == appdata->0 + "\\keymap.toml"@,
        spec_default_candidates(userprofile, appdata).len() >= 1,
        spec_default_candidates(userprofile, appdata).last() == "keymap.toml"@,
{
    assert(spec_default_candidates(userprofile, appdata) =~= default_list(userprofile, appdata));
}

/// Lists the default keymap files from the values of the `USERPROFILE` and
/// `APPDATA` environment variables.
pub fn default_config_candidates(userprofile: Option<String>, appdata: Option<String>) -> (res: Vec<String>)
    ensures
        res.deep_view() == spec_default_candidates(userprofile.deep_view(), appdata.deep_view()),
        res.deep_view() == default_list(userprofile.deep_view(), appdata.deep_view()),
{
    let mut res: Vec<String> = Vec::new();
    push_env_value(userprofile, "\\keymap.toml", &mut res);
    push_env_value(appdata, "\\keymap.toml", &mut res);
    res.push(String::from_str("keymap.toml"));
    assert(res.deep_view() =~= Seq::<Seq<char>>::empty()
        + env_candidate(userprofile.deep_view(), "\\keymap.toml"@)
        + env_candidate(appdata.deep_view(), "\\keymap.toml"@)
        + seq!["keymap.toml"@]);
    proof {
        lemma_default_candidates_order(userprofile.deep_view(), appdata.deep_view());
    }
    res
}

/// The next move of the search for a default keymap file, given the
/// candidates and the outcome of each attempt to open one so far.
#[derive(Debug, Clone, Copy, PartialEq, Eq, Structural)]
pub enum ProbeStep {
    /// Try to open the candidate at this index.
    Try(usize),
    /// The candidate at this index opened: it is the keymap file.
    Found(usize),
    /// No candidate opened.
    NotFound,
}

/// Some attempt among the first `n` opened.
pub open spec fn some_opened(opened: Seq<bool>, n: int) -> bool {
    exists|i: int| 0 <= i < n && i < opened.len() && opened[i]
}

/// The index of the first attempt among the first `n` that opened.
pub open spec fn first_opened(opened: Seq<bool>, n: int) -> int
    recommends
        some_opened(opened, n),
{
    choose|i: int| 0 <= i < n && i < opened.len() && opened[i]
        && forall|j: int| 0 <= j < i ==> !opened[j]
}

/// The next move of the search: the first candidate that opened is the
/// keymap file; otherwise the next candidate not yet tried is tried; when all
/// were tried in vain the search fails.
pub open spec fn spec_next_probe(n_candidates: int, opened: Seq<bool>) -> ProbeStep {
    if some_opened(opened, n_candidates) {
        ProbeStep::Found(first_opened(opened, n_candidates) as usize)
    } else if opened.len() < n_candidates {
        ProbeStep::Try(opened.len() as usize)
    } else {
        ProbeStep::NotFound
    }
}

/// The least witness of `some_opened` exists.
proof fn lemma_first_opened(opened: Seq<bool>, n: int)
    requires
        some_opened(opened, n),
    ensures
        0 <= first_opened(opened, n) < n,
        first_opened(opened, n) < opened.len(),
        opened[first_opened(opened, n)],
        forall|j: int| 0 <= j < first_opened(opened, n) ==> !opened[j],
{
    let w = choose|i: int| 0 <= i < n && i < opened.len() && opened[i];
    lemma_least_opened(opened, n, w);
}

proof fn lemma_least_opened(opened: Seq<bool>, n: int, w: int)
    requires
        0 <= w < n,
        w < opened.len(),
        opened[w],
    ensures
        exists|i: int| 0 <= i < n && i < opened.len() && opened[i]
            && forall|j: int| 0 <= j < i ==> !opened[j],
    decreases w,
{
    if exists|k: int| 0 <= k < w && opened[k] {
        let k = choose|k: int| 0 <= k < w && opened[k];
        lemma_least_opened(opened, n, k);
    } else {
        assert(forall|j: int| 0 <= j < w ==> !opened[j]);
    }
}

/// Decides the next move of the search for a default keymap file.
/// `opened[i]` tells whether the attempt to open candidate `i` succeeded.
pub fn next_probe(candidates: &Vec<String>, opened: &Vec<bool>) -> (step: ProbeStep)
    ensures
        step == spec_next_probe(candidates.len() as int, opened@),
{
    let n = candidates.len();
    let mut i: usize = 0;
    while i < opened.len() && i < n
        invariant
            i <= opened.len(),
            i <= n,
            n == candidates.len(),
            forall|j: int| 0 <= j < i ==> !opened@[j],
        decreases opened.len() - i,
    {
        if opened[i] {
            proof {
                lemma_first_opened(opened@, n as int);
                let f = first_opened(opened@, n as int);
                assert(!(f < i as int));
                assert(!(i < f));
            }
            return ProbeStep::Found(i);
        }
        i = i + 1;
    }
    assert(!some_opened(opened@, n as int));
    if opened.len() < n {
        ProbeStep::Try(opened.len())
    } else {
        ProbeStep::NotFound
    }
}


/// When the outcome of opening each candidate is fixed (`opens[i]` tells
/// whether candidate `i` opens), feeding the search the outcome of every
/// attempt it asks for makes it try the candidates in order, up to the first
/// that opens, and end on that one; when none opens it tries them all and
/// fails.
pub proof fn lemma_probe_finds_first(n: int, opens: Seq<bool>)
    requires
        0 <= n <= usize::MAX,
        opens.len() == n,
    ensures
        forall|j: int|
            0 <= j < n && (forall|k: int| 0 <= k < j ==> !opens[k]) ==> spec_next_probe(n, opens.take(j))
                == ProbeStep::Try(j as usize),
        forall|j: int|
            0 <= j < n && opens[j] && (forall|k: int| 0 <= k < j ==> !opens[k]) ==> spec_next_probe(
                n,
                opens.take(j + 1),
            ) == ProbeStep::Found(j as usize),
        (forall|k: int| 0 <= k < n ==> !opens[k]) ==> spec_next_probe(n, opens) == ProbeStep::NotFound,
{
    assert forall|j: int|
        0 <= j < n && (forall|k: int| 0 <= k < j ==> !opens[k]) implies spec_next_probe(n, opens.take(j))
            == ProbeStep::Try(j as usize) by {
        assert(!some_opened(opens.take(j), n));
    }
    assert forall|j: int|
        0 <= j < n && opens[j] && (forall|k: int| 0 <= k < j ==> !opens[k]) implies spec_next_probe(
            n,
            opens.take(j + 1),
        ) == ProbeStep::Found(j as usize) by {
        let t = opens.take(j + 1);
        assert(t[j]);
        assert(some_opened(t, n));
        lemma_first_opened(t, n);
        let f = first_opened(t, n);
        assert(!(f < j));
    }
}

} // verus!
