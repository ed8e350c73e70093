//! The build matrix: which commands to run for which package, target and
//! feature set.
//!
//! A matrix is a list of entries. Each entry names a package, one or more
//! targets and a list of features, some of them alternatives. It expands to
//! one step for each target and each choice among the alternatives. A step is
//! a command line, rendered from a template.

use vstd::prelude::*;
use vstd::string::StringExecFns;

use crate::text::{
    decimal, decimal_string, join, joined, lines, lines_of, replaced, slice_texts, starts_with,
    str_replace, strip_prefix, texts, trim, trimmed,
};

verus! {

/// The command line of the matrix task.
#[derive(Clone, Debug)]
pub struct MatrixArgs {
    /// Path to the YAML config; `<workspace>/matrix.yaml` if absent.
    pub config: Option<String>,
    /// Which command to run: a name from the config's `commands`, or an
    /// inline command template. A `command` of an entry overrides it.
    pub command: Option<String>,
    /// Only run matrix entries for these packages; all if empty.
    pub packages: Vec<String>,
    /// Print commands as they run.
    pub verbose: bool,
}

/// A feature of an entry: one that is always on, or a group of which each
/// step takes one.
#[derive(Clone, Debug)]
pub enum FeatureSpec {
    One(String),
    OneOf(Vec<String>),
}

/// A target of an entry, or a list of them, nested to any depth.
#[derive(Debug)]
pub enum TargetElem {
    One(String),
    Many(Vec<TargetElem>),
}

/// The targets of an entry: one, or a list.
#[derive(Debug)]
pub enum Targets {
    One(String),
    Many(Vec<TargetElem>),
}

/// One entry of the matrix.
#[derive(Debug)]
pub struct MatrixEntry {
    /// Command templates by name; they override those of the config.
    pub commands: Vec<(String, String)>,
    /// The command to run for this entry.
    pub command: Option<String>,
    pub package: String,
    pub target: Targets,
    pub features: Vec<FeatureSpec>,
}

/// The matrix as the config file holds it.
#[derive(Debug)]
pub struct MatrixConfig {
    /// Commands to run before any entry.
    pub pre: Vec<String>,
    /// Command templates by name.
    pub commands: Vec<(String, String)>,
    pub entries: Vec<MatrixEntry>,
}

/// One command to run, with the name it is announced by.
#[derive(Clone, Debug)]
pub struct Step {
    pub name: String,
    pub cmd: String,
}

/// A step as text.
pub struct StepView {
    pub name: Seq<char>,
    pub cmd: Seq<char>,
}

impl View for Step {
    type V = StepView;

    open spec fn view(&self) -> StepView {
        StepView { name: self.name@, cmd: self.cmd@ }
    }
}

/// The steps of a list as text.
pub open spec fn step_views(steps: Seq<Step>) -> Seq<StepView> {
    Seq::new(steps.len(), |i: int| steps[i]@)
}

/// Why no plan could be made.
#[derive(Clone, Copy, Debug, PartialEq, Eq, Structural)]
pub enum MatrixError {
    /// An entry names no command and none was given on the command line.
    NoCommand,
}

impl MatrixError {
    /// The error as the task reports it.
    pub fn message(&self) -> (text: String)
        ensures
            text@ == "no command selected (pass --command <name> or set `command:` per entry)"@,
    {
        String::from_str("no command selected (pass --command <name> or set `command:` per entry)")
    }
}

/// Pair `i` is the first in the table whose key is `name`.
pub open spec fn first_with_key(table: Seq<(String, String)>, name: Seq<char>, i: int) -> bool {
    &&& 0 <= i < table.len()
    &&& table[i].0@ == name
    &&& forall|j: int| 0 <= j < i ==> (#[trigger] table[j]).0@ != name
}

/// The value the table holds for `name`: that of the first pair with that
/// key.
pub open spec fn lookup(table: Seq<(String, String)>, name: Seq<char>) -> Option<Seq<char>> {
    if exists|i: int| first_with_key(table, name, i) {
        Some(table[choose|i: int| first_with_key(table, name, i)].1@)
    } else {
        None
    }
}

/// Looks `name` up in the table.
pub fn find_command<'a>(table: &'a Vec<(String, String)>, name: &String) -> (found: Option<
    &'a String,
>)
    ensures
        match found {
            Some(value) => lookup(table@, name@) == Some(value@),
            None => lookup(table@, name@) is None,
        },
{
    let mut i: usize = 0;
    while i < table.len()
        invariant
            i <= table.len(),
            forall|j: int| 0 <= j < i ==> (#[trigger] table@[j]).0@ != name@,
        decreases table.len() - i,
    {
        if table[i].0 == *name {
            proof {
                assert(first_with_key(table@, name@, i as int));
                let c = choose|k: int| first_with_key(table@, name@, k);
                assert(c == i);
            }
            return Some(&table[i].1);
        }
        i += 1;
    }
    None
}

/// The template a command name stands for: the entry's own template of that
/// name, else the config's, else the name itself, taken as an inline
/// template.
pub open spec fn template_for(
    entry_commands: Seq<(String, String)>,
    commands: Seq<(String, String)>,
    name: Seq<char>,
) -> Seq<char> {
    match lookup(entry_commands, name) {
        Some(t) => t,
        None => match lookup(commands, name) {
            Some(t) => t,
            None => name,
        },
    }
}

/// Picks the template for the command `name`.
pub fn select_template<'a>(
    entry_commands: &'a Vec<(String, String)>,
    commands: &'a Vec<(String, String)>,
    name: &'a String,
) -> (template: &'a String)
    ensures
        template@ == template_for(entry_commands@, commands@, name@),
{
    match find_command(entry_commands, name) {
        Some(t) => t,
        None => match find_command(commands, name) {
            Some(t) => t,
            None => name,
        },
    }
}

/// The command an entry runs: its own, else the one from the command line.
pub open spec fn command_for(entry: Option<String>, default: Option<String>) -> Option<Seq<char>> {
    match entry {
        Some(c) => Some(c@),
        None => match default {
            Some(c) => Some(c@),
            None => None,
        },
    }
}

/// Picks the command an entry runs.
pub fn select_command<'a>(entry: &'a Option<String>, default: &'a Option<String>) -> (name:
    Result<&'a String, MatrixError>)
    ensures
        match name {
            Ok(c) => command_for(*entry, *default) == Some(c@),
            Err(e) => command_for(*entry, *default) is None && e == MatrixError::NoCommand,
        },
{
    match entry {
        Some(c) => Ok(c),
        None => match default {
            Some(c) => Ok(c),
            None => Err(MatrixError::NoCommand),
        },
    }
}

/// Whether an entry for `package` is wanted: no package was asked for, or
/// this one was.
pub open spec fn wanted(packages: Seq<String>, package: Seq<char>) -> bool {
    packages.len() == 0 || exists|i: int| 0 <= i < packages.len() && (#[trigger] packages[i])@
        == package
}

/// Tells whether an entry for `package` is wanted.
pub fn is_wanted(packages: &Vec<String>, package: &String) -> (yes: bool)
    ensures
        yes == wanted(packages@, package@),
{
    if packages.len() == 0 {
        return true;
    }
    let mut i: usize = 0;
    while i < packages.len()
        invariant
            i <= packages.len(),
            forall|j: int| 0 <= j < i ==> (#[trigger] packages@[j])@ != package@,
        decreases packages.len() - i,
    {
        if packages[i] == *package {
            return true;
        }
        i += 1;
    }
    false
}

/// A feature set: the features of one step, in the order the entry lists
/// them.
pub type FeatureSet = Seq<Seq<char>>;

/// Every feature set with the feature `f` added at the end.
pub open spec fn with_feature(combos: Seq<FeatureSet>, f: Seq<char>) -> Seq<FeatureSet> {
    Seq::new(combos.len(), |i: int| combos[i].push(f))
}

/// Every feature set with each feature of the group in turn added at the
/// end: first every set with the group's first feature, then every set with
/// its second, and so on.
pub open spec fn with_one_of(combos: Seq<FeatureSet>, group: FeatureSet) -> Seq<FeatureSet> {
    Seq::new(
        group.len() * combos.len(),
        |k: int| combos[k % (combos.len() as int)].push(group[k / (combos.len() as int)]),
    )
}

/// The feature sets of an entry. Without features there is one, the empty
/// set. A feature that is always on is added to every set, and a group
/// multiplies the sets by its size.
pub open spec fn combos_of(specs: Seq<FeatureSpec>) -> Seq<FeatureSet>
    decreases specs.len(),
{
    if specs.len() == 0 {
        seq![Seq::empty()]
    } else {
        let before = combos_of(specs.drop_last());
        match specs.last() {
            FeatureSpec::One(f) => with_feature(before, f@),
            FeatureSpec::OneOf(group) => with_one_of(before, texts(group@)),
        }
    }
}

/// The feature sets of a list of lists of strings.
pub open spec fn combo_texts(combos: Seq<Vec<String>>) -> Seq<FeatureSet> {
    Seq::new(combos.len(), |i: int| texts(combos[i]@))
}

/// A copy of a list of strings.
fn copy_strings(items: &Vec<String>) -> (copy: Vec<String>)
    ensures
        texts(copy@) == texts(items@),
{
    let mut copy: Vec<String> = Vec::new();
    let mut i: usize = 0;
    while i < items.len()
        invariant
            i <= items.len(),
            copy@.len() == i,
            forall|k: int| 0 <= k < i ==> (#[trigger] copy@[k])@ == items@[k]@,
        decreases items.len() - i,
    {
        copy.push(items[i].clone());
        i += 1;
    }
    assert(texts(copy@) =~= texts(items@));
    copy
}

/// The feature sets an entry expands to.
pub fn feature_combos(features: &Vec<FeatureSpec>) -> (combos: Vec<Vec<String>>)
    ensures
        combo_texts(combos@) == combos_of(features@),
{
    let mut combos: Vec<Vec<String>> = Vec::new();
    combos.push(Vec::new());
    assert(combo_texts(combos@) =~= seq![Seq::<Seq<char>>::empty()]) by {
        assert(texts(combos@[0]@) =~= Seq::<Seq<char>>::empty());
    }
    let mut n: usize = 0;
    assert(features@.take(0) =~= Seq::empty());
    while n < features.len()
        invariant
            n <= features.len(),
            combo_texts(combos@) == combos_of(features@.take(n as int)),
        decreases features.len() - n,
    {
        let ghost before = combo_texts(combos@);
        proof {
            assert(features@.take(n as int + 1).drop_last() =~= features@.take(n as int));
            assert(features@.take(n as int + 1).last() == features@[n as int]);
        }
        match &features[n] {
            FeatureSpec::One(f) => {
                let mut i: usize = 0;
                while i < combos.len()
                    invariant
                        i <= combos.len(),
                        combos@.len() == before.len(),
                        forall|k: int|
                            0 <= k < i ==> texts((#[trigger] combos@[k])@) == before[k].push(f@),
                        forall|k: int|
                            i <= k < combos.len() ==> texts((#[trigger] combos@[k])@) == before[k],
                    decreases combos.len() - i,
                {
                    let ghost old_row = combos@[i as int]@;
                    combos[i].push(f.clone());
                    assert(texts(combos@[i as int]@) =~= texts(old_row).push(f@));
                    i += 1;
                }
                assert(combo_texts(combos@) =~= with_feature(before, f@));
            },
            FeatureSpec::OneOf(group) => {
                let mut next: Vec<Vec<String>> = Vec::new();
                let width = combos.len();
                let mut g: usize = 0;
                while g < group.len()
                    invariant
                        g <= group.len(),
                        width == combos@.len(),
                        width == before.len(),
                        combo_texts(combos@) == before,
                        next@.len() == g * width,
                        forall|k: int|
                            0 <= k < next@.len() ==> texts((#[trigger] next@[k])@) == before[k % (
                            width as int)].push(group@[k / (width as int)]@),
                    decreases group.len() - g,
                {
                    let mut c: usize = 0;
                    while c < width
                        invariant
                            g < group.len(),
                            c <= width,
                            width == combos@.len(),
                            width == before.len(),
                            combo_texts(combos@) == before,
                            next@.len() == g * width + c,
                            forall|k: int|
                                0 <= k < next@.len() ==> texts((#[trigger] next@[k])@) == before[k
                                    % (width as int)].push(group@[k / (width as int)]@),
                        decreases width - c,
                    {
                        let mut row = copy_strings(&combos[c]);
                        let ghost copied = row@;
                        row.push(group[g].clone());
                        proof {
                            let k = g * width + c;
                            assert(texts(row@) =~= texts(copied).push(group@[g as int]@));
                            assert(texts(combos@[c as int]@) == combo_texts(combos@)[c as int]);
                            lemma_row_major(g as int, c as int, width as int);
                        }
                        next.push(row);
                        c += 1;
                    }
                    proof {
                        assert(g * width + width == (g + 1) * width) by (nonlinear_arith);
                    }
                    g += 1;
                }
                combos = next;
                proof {
                    assert(combo_texts(combos@) =~= with_one_of(before, texts(group@))) by {
                        assert forall|k: int| 0 <= k < combos@.len() implies combo_texts(
                            combos@,
                        )[k] == with_one_of(before, texts(group@))[k] by {
                            if width > 0 {
                                lemma_cell_in_range(k, width as int, group@.len() as int);
                            }
                        }
                    }
                }
            },
        }
        n += 1;
    }
    assert(features@.take(features@.len() as int) =~= features@);
    combos
}

/// Cell `c` of row `g` in a table `width` wide has the index
/// `g * width + c`.
proof fn lemma_row_major(g: int, c: int, width: int)
    requires
        0 <= g,
        0 <= c < width,
    ensures
        (g * width + c) % width == c,
        (g * width + c) / width == g,
{
    vstd::arithmetic::div_mod::lemma_fundamental_div_mod_converse(g * width + c, width, g, c);
}

/// An index into a table of `rows` rows lies in one of them.
proof fn lemma_cell_in_range(k: int, width: int, rows: int)
    requires
        0 < width,
        0 <= k < rows * width,
    ensures
        0 <= k / width < rows,
        0 <= k % width < width,
{
    vstd::arithmetic::div_mod::lemma_fundamental_div_mod(k, width);
    vstd::arithmetic::div_mod::lemma_mod_bound(k, width);
    assert(k / width < rows) by (nonlinear_arith)
        requires
            k == width * (k / width) + k % width,
            0 <= k % width,
            k < rows * width,
            0 < width,
    ;
    assert(0 <= k / width) by (nonlinear_arith)
        requires
            k == width * (k / width) + k % width,
            k % width < width,
            0 <= k,
            0 < width,
    ;
}

/// The targets a target element stands for, in the order they are written.
pub open spec fn flattened(t: TargetElem) -> Seq<Seq<char>>
    decreases t, 0nat,
{
    match t {
        TargetElem::One(name) => seq![name@],
        TargetElem::Many(items) => flattened_first(items@, items@.len()),
    }
}

/// The targets the first `n` elements of a list stand for.
pub open spec fn flattened_first(items: Seq<TargetElem>, n: nat) -> Seq<Seq<char>>
    decreases items, n,
{
    if n == 0 || n > items.len() {
        Seq::empty()
    } else {
        flattened_first(items, (n - 1) as nat) + flattened(items[n - 1])
    }
}

/// The targets of an entry.
pub open spec fn targets_of(target: Targets) -> Seq<Seq<char>> {
    match target {
        Targets::One(name) => seq![name@],
        Targets::Many(items) => flattened_first(items@, items@.len()),
    }
}

/// Appends the targets `t` stands for to `out`.
pub fn flatten_targets(t: &TargetElem, out: &mut Vec<String>)
    ensures
        texts(final(out)@) == texts(old(out)@) + flattened(*t),
    decreases t,
{
    match t {
        TargetElem::One(name) => {
            out.push(name.clone());
            assert(texts(out@) =~= texts(old(out)@) + seq![name@]);
        },
        TargetElem::Many(items) => {
            flatten_all(items, out);
        },
    }
}

/// Appends the targets the elements of `items` stand for to `out`.
pub fn flatten_all(items: &Vec<TargetElem>, out: &mut Vec<String>)
    ensures
        texts(final(out)@) == texts(old(out)@) + flattened_first(items@, items@.len()),
    decreases items,
{
    let mut i: usize = 0;
    assert(texts(out@) =~= texts(old(out)@) + flattened_first(items@, 0));
    while i < items.len()
        invariant
            i <= items.len(),
            texts(out@) == texts(old(out)@) + flattened_first(items@, i as nat),
        decreases items.len() - i,
    {
        let ghost so_far = texts(out@);
        flatten_targets(&items[i], out);
        assert(texts(out@) =~= texts(old(out)@) + flattened_first(items@, (i + 1) as nat)) by {
            assert(flattened_first(items@, (i + 1) as nat) == flattened_first(items@, i as nat)
                + flattened(items@[i as int]));
        }
        i += 1;
    }
}

/// The targets of an entry, in the order they are written.
pub fn entry_targets(target: &Targets) -> (targets: Vec<String>)
    ensures
        texts(targets@) == targets_of(*target),
{
    let mut out: Vec<String> = Vec::new();
    assert(texts(out@) =~= Seq::<Seq<char>>::empty());
    match target {
        Targets::One(name) => {
            out.push(name.clone());
            assert(texts(out@) =~= seq![name@]);
        },
        Targets::Many(items) => {
            flatten_all(items, &mut out);
            assert(texts(out@) =~= flattened_first(items@, items@.len()));
        },
    }
    out
}

/// The target a step is built for: the host's for the name `host`.
pub open spec fn resolved(target: Seq<char>, host: Seq<char>) -> Seq<char> {
    if target == "host"@ {
        host
    } else {
        target
    }
}

/// The texts in ascending order, as `sort` on a slice of strings orders
/// them.
pub uninterp spec fn sorted_texts(items: Seq<Seq<char>>) -> Seq<Seq<char>>;

/// The texts without repeats in a row: of each run of equal texts the first
/// stays.
pub open spec fn deduped(items: Seq<Seq<char>>) -> Seq<Seq<char>>
    decreases items.len(),
{
    if items.len() <= 1 {
        items
    } else if items[items.len() - 1] == items[items.len() - 2] {
        deduped(items.drop_last())
    } else {
        deduped(items.drop_last()).push(items.last())
    }
}

/// `sort` on a slice of strings: the same strings in ascending order.
#[verifier::external_body]
fn sort_strings(items: &mut Vec<String>)
    ensures
        texts(final(items)@) == sorted_texts(texts(old(items)@)),
{
    items.sort();
}

/// `Vec::dedup` on strings: removes all but the first of each run of equal
/// strings.
#[verifier::external_body]
fn dedup_strings(items: &mut Vec<String>)
    ensures
        texts(final(items)@) == deduped(texts(old(items)@)),
{
    items.dedup();
}

/// The features of a step as one text: sorted, each once, with commas
/// between.
pub open spec fn feature_text(features: FeatureSet) -> Seq<char> {
    joined(deduped(sorted_texts(features)), ","@)
}

/// The features of a step as one text.
pub fn feature_list(features: Vec<String>) -> (text: String)
    ensures
        text@ == feature_text(texts(features@)),
{
    let mut features = features;
    sort_strings(&mut features);
    dedup_strings(&mut features);
    join(&features, ",")
}

/// The cargo flag that turns the features on: nothing without features,
/// else `--features` with the feature text in double quotes.
pub open spec fn flag_text(features: Seq<char>) -> Seq<char> {
    if features.len() == 0 {
        Seq::empty()
    } else {
        "--features \""@ + features + "\""@
    }
}

/// The cargo flag that turns the features on.
pub fn features_flag(features: &str) -> (flag: String)
    ensures
        flag@ == flag_text(features@),
{
    if features.is_empty() {
        String::new()
    } else {
        let mut flag = String::from_str("--features \"");
        flag.append(features);
        flag.append("\"");
        flag
    }
}

/// A template with its placeholders filled in, one after the other:
/// `{workspace}`, `{package}`, `{target}`, `{features}`, `{features_flag}`.
pub open spec fn rendered(
    template: Seq<char>,
    workspace: Seq<char>,
    package: Seq<char>,
    target: Seq<char>,
    features: Seq<char>,
    features_flag: Seq<char>,
) -> Seq<char> {
    replaced(
        replaced(
            replaced(
                replaced(replaced(template, "{workspace}"@, workspace), "{package}"@, package),
                "{target}"@,
                target,
            ),
            "{features}"@,
            features,
        ),
        "{features_flag}"@,
        features_flag,
    )
}

/// Fills in the placeholders of a command template.
pub fn render_template(
    template: &str,
    workspace: &str,
    package: &str,
    target: &str,
    features: &str,
    features_flag: &str,
) -> (cmd: String)
    ensures
        cmd@ == rendered(template@, workspace@, package@, target@, features@, features_flag@),
{
    let cmd = str_replace(template, "{workspace}", workspace);
    let cmd = str_replace(cmd.as_str(), "{package}", package);
    let cmd = str_replace(cmd.as_str(), "{target}", target);
    let cmd = str_replace(cmd.as_str(), "{features}", features);
    str_replace(cmd.as_str(), "{features_flag}", features_flag)
}

/// What tells the steps of one target apart: nothing for a single step,
/// else ` #` with the step's number, `/` and the number of steps.
pub open spec fn suffix_text(idx: nat, total: nat) -> Seq<char> {
    if total > 1 {
        " #"@ + decimal(idx + 1) + "/"@ + decimal(total)
    } else {
        Seq::empty()
    }
}

/// The name of a step: the package, the target in square brackets, the
/// command in round brackets, and the suffix.
pub open spec fn name_text(
    package: Seq<char>,
    target: Seq<char>,
    command: Seq<char>,
    suffix: Seq<char>,
) -> Seq<char> {
    package + " ["@ + target + "] ("@ + command + ")"@ + suffix
}

/// The step for one feature set of one target.
pub open spec fn step_for(
    package: Seq<char>,
    template: Seq<char>,
    command: Seq<char>,
    workspace: Seq<char>,
    target: Seq<char>,
    features: FeatureSet,
    idx: nat,
    total: nat,
) -> StepView {
    let feats = feature_text(features);
    StepView {
        name: name_text(package, target, command, suffix_text(idx, total)),
        cmd: rendered(template, workspace, package, target, feats, flag_text(feats)),
    }
}

/// The steps of one target: one for each feature set, in order.
pub open spec fn target_steps(
    package: Seq<char>,
    template: Seq<char>,
    command: Seq<char>,
    workspace: Seq<char>,
    target: Seq<char>,
    combos: Seq<FeatureSet>,
) -> Seq<StepView> {
    Seq::new(
        combos.len(),
        |idx: int|
            step_for(
                package,
                template,
                command,
                workspace,
                target,
                combos[idx],
                idx as nat,
                combos.len(),
            ),
    )
}

/// Builds the step for feature set `idx` of `total` of one target.
fn make_step(
    package: &String,
    template: &String,
    command: &String,
    workspace: &str,
    target: &str,
    features: Vec<String>,
    idx: usize,
    total: usize,
) -> (step: Step)
    requires
        idx < total,
    ensures
        step@ == step_for(
            package@,
            template@,
            command@,
            workspace@,
            target@,
            texts(features@),
            idx as nat,
            total as nat,
        ),
{
    let feats = feature_list(features);
    let flag = features_flag(feats.as_str());
    let cmd = render_template(
        template.as_str(),
        workspace,
        package.as_str(),
        target,
        feats.as_str(),
        flag.as_str(),
    );
    let mut name = package.clone();
    name.append(" [");
    name.append(target);
    name.append("] (");
    name.append(command.as_str());
    name.append(")");
    if total > 1 {
        let mut suffix = String::from_str(" #");
        suffix.append(decimal_string(idx + 1).as_str());
        suffix.append("/");
        suffix.append(decimal_string(total).as_str());
        name.append(suffix.as_str());
    }
    assert(name@ =~= name_text(package@, target@, command@, suffix_text(idx as nat, total as nat)));
    Step { name, cmd }
}

/// Appends the steps of one target to `steps`.
fn push_target_steps(
    steps: &mut Vec<Step>,
    package: &String,
    template: &String,
    command: &String,
    workspace: &str,
    target: &str,
    combos: &Vec<Vec<String>>,
)
    ensures
        step_views(final(steps)@) == step_views(old(steps)@) + target_steps(
            package@,
            template@,
            command@,
            workspace@,
            target@,
            combo_texts(combos@),
        ),
{
    let total = combos.len();
    let ghost all = target_steps(
        package@,
        template@,
        command@,
        workspace@,
        target@,
        combo_texts(combos@),
    );
    let mut idx: usize = 0;
    assert(step_views(steps@) =~= step_views(old(steps)@) + all.take(0));
    while idx < total
        invariant
            idx <= total,
            total == combos@.len(),
            all == target_steps(
                package@,
                template@,
                command@,
                workspace@,
                target@,
                combo_texts(combos@),
            ),
            step_views(steps@) == step_views(old(steps)@) + all.take(idx as int),
        decreases total - idx,
    {
        let features = copy_strings(&combos[idx]);
        let step = make_step(package, template, command, workspace, target, features, idx, total);
        let ghost before = step_views(steps@);
        steps.push(step);
        proof {
            assert(texts(combos@[idx as int]@) == combo_texts(combos@)[idx as int]);
            assert(step@ == all[idx as int]);
            assert(step_views(steps@) =~= before.push(step@));
            assert(all.take(idx as int + 1) =~= all.take(idx as int).push(all[idx as int]));
            assert(step_views(steps@) =~= step_views(old(steps)@) + all.take(idx as int + 1));
        }
        idx += 1;
    }
    assert(all.take(total as int) =~= all);
}

/// The steps of the first `n` of a list of targets, each built for the
/// host where it says `host`.
pub open spec fn targets_steps(
    package: Seq<char>,
    template: Seq<char>,
    command: Seq<char>,
    workspace: Seq<char>,
    host: Seq<char>,
    targets: Seq<Seq<char>>,
    combos: Seq<FeatureSet>,
    n: nat,
) -> Seq<StepView>
    decreases n,
{
    if n == 0 || n > targets.len() {
        Seq::empty()
    } else {
        targets_steps(package, template, command, workspace, host, targets, combos, (n - 1) as nat)
            + target_steps(
            package,
            template,
            command,
            workspace,
            resolved(targets[n - 1], host),
            combos,
        )
    }
}

/// The steps of one entry: none if its package is not wanted, else one for
/// each of its targets and feature sets, target by target. An entry that is
/// wanted and has no command is an error.
pub open spec fn entry_steps(
    entry: MatrixEntry,
    args: MatrixArgs,
    commands: Seq<(String, String)>,
    workspace: Seq<char>,
    host: Seq<char>,
) -> Result<Seq<StepView>, MatrixError> {
    if !wanted(args.packages@, entry.package@) {
        Ok(Seq::empty())
    } else {
        match command_for(entry.command, args.command) {
            None => Err(MatrixError::NoCommand),
            Some(command) => Ok(
                targets_steps(
                    entry.package@,
                    template_for(entry.commands@, commands, command),
                    command,
                    workspace,
                    host,
                    targets_of(entry.target),
                    combos_of(entry.features@),
                    targets_of(entry.target).len(),
                ),
            ),
        }
    }
}

/// The steps of the first `n` entries, or the error of the first entry that
/// has one.
pub open spec fn entries_steps(
    entries: Seq<MatrixEntry>,
    args: MatrixArgs,
    commands: Seq<(String, String)>,
    workspace: Seq<char>,
    host: Seq<char>,
    n: nat,
) -> Result<Seq<StepView>, MatrixError>
    decreases n,
{
    if n == 0 || n > entries.len() {
        Ok(Seq::empty())
    } else {
        match entries_steps(entries, args, commands, workspace, host, (n - 1) as nat) {
            Err(e) => Err(e),
            Ok(steps) => match entry_steps(entries[n - 1], args, commands, workspace, host) {
                Err(e) => Err(e),
                Ok(more) => Ok(steps + more),
            },
        }
    }
}

/// The steps that come before any entry: the config's `pre` commands,
/// named `pre:1`, `pre:2` and so on.
pub open spec fn pre_steps(pre: Seq<String>) -> Seq<StepView> {
    Seq::new(
        pre.len(),
        |i: int| StepView { name: "pre:"@ + decimal((i + 1) as nat), cmd: pre[i]@ },
    )
}

/// The whole plan: the `pre` steps, then the steps of the entries in order.
pub open spec fn planned(
    args: MatrixArgs,
    cfg: MatrixConfig,
    workspace: Seq<char>,
    host: Seq<char>,
) -> Result<Seq<StepView>, MatrixError> {
    match entries_steps(cfg.entries@, args, cfg.commands@, workspace, host, cfg.entries@.len()) {
        Err(e) => Err(e),
        Ok(steps) => Ok(pre_steps(cfg.pre@) + steps),
    }
}

/// Appends the steps of one entry to `steps`.
fn push_entry_steps(
    steps: &mut Vec<Step>,
    entry: &MatrixEntry,
    args: &MatrixArgs,
    commands: &Vec<(String, String)>,
    workspace: &str,
    host: &str,
) -> (done: Result<(), MatrixError>)
    ensures
        match entry_steps(*entry, *args, commands@, workspace@, host@) {
            Ok(more) => done is Ok && step_views(final(steps)@) == step_views(old(steps)@) + more,
            Err(e) => done == Err::<(), MatrixError>(e),
        },
{
    if !is_wanted(&args.packages, &entry.package) {
        assert(step_views(steps@) =~= step_views(old(steps)@) + Seq::<StepView>::empty());
        return Ok(());
    }
    let command = match select_command(&entry.command, &args.command) {
        Ok(command) => command,
        Err(e) => {
            return Err(e);
        },
    };
    let template = select_template(&entry.commands, commands, command);
    let combos = feature_combos(&entry.features);
    let targets = entry_targets(&entry.target);
    let host_name = String::from_str("host");
    let ghost all = texts(targets@);
    let mut t: usize = 0;
    assert(step_views(steps@) =~= step_views(old(steps)@) + Seq::<StepView>::empty());
    while t < targets.len()
        invariant
            t <= targets.len(),
            all == texts(targets@),
            host_name@ == "host"@,
            step_views(steps@) == step_views(old(steps)@) + targets_steps(
                entry.package@,
                template@,
                command@,
                workspace@,
                host@,
                all,
                combo_texts(combos@),
                t as nat,
            ),
        decreases targets.len() - t,
    {
        let ghost before = step_views(steps@);
        let ghost so_far = targets_steps(
            entry.package@,
            template@,
            command@,
            workspace@,
            host@,
            all,
            combo_texts(combos@),
            t as nat,
        );
        assert(all[t as int] == targets@[t as int]@);
        if targets[t] == host_name {
            push_target_steps(steps, &entry.package, template, command, workspace, host, &combos);
        } else {
            push_target_steps(
                steps,
                &entry.package,
                template,
                command,
                workspace,
                targets[t].as_str(),
                &combos,
            );
        }
        proof {
            let more = target_steps(
                entry.package@,
                template@,
                command@,
                workspace@,
                resolved(all[t as int], host@),
                combo_texts(combos@),
            );
            assert(step_views(steps@) == before + more);
            assert(before + more =~= step_views(old(steps)@) + (so_far + more));
        }
        t += 1;
    }
    Ok(())
}

/// Plans the task: the list of steps to run, in order, for the command line
/// `args` and the matrix `cfg`, in the workspace at `workspace`, on a host
/// with the target `host`. No plan is made if an entry that is wanted has no
/// command.
pub fn plan_steps(args: &MatrixArgs, cfg: &MatrixConfig, workspace: &str, host: &str) -> (plan:
    Result<Vec<Step>, MatrixError>)
    ensures
        match planned(*args, *cfg, workspace@, host@) {
            Ok(steps) => plan is Ok && step_views(plan.unwrap()@) == steps,
            Err(e) => plan == Err::<Vec<Step>, MatrixError>(e),
        },
{
    let mut steps: Vec<Step> = Vec::new();
    let mut i: usize = 0;
    while i < cfg.pre.len()
        invariant
            i <= cfg.pre.len(),
            steps@.len() == i,
            forall|k: int|
                0 <= k < i ==> (#[trigger] steps@[k])@ == (StepView {
                    name: "pre:"@ + decimal((k + 1) as nat),
                    cmd: cfg.pre@[k]@,
                }),
        decreases cfg.pre.len() - i,
    {
        let mut name = String::from_str("pre:");
        name.append(decimal_string(i + 1).as_str());
        steps.push(Step { name, cmd: cfg.pre[i].clone() });
        i += 1;
    }
    assert(step_views(steps@) =~= pre_steps(cfg.pre@));
    let mut n: usize = 0;
    assert(step_views(steps@) =~= pre_steps(cfg.pre@) + Seq::<StepView>::empty());
    while n < cfg.entries.len()
        invariant
            n <= cfg.entries.len(),
            match entries_steps(cfg.entries@, *args, cfg.commands@, workspace@, host@, n as nat) {
                Ok(so_far) => step_views(steps@) == pre_steps(cfg.pre@) + so_far,
                Err(_) => false,
            },
        decreases cfg.entries.len() - n,
    {
        let ghost before = step_views(steps@);
        let ghost so_far = entries_steps(
            cfg.entries@,
            *args,
            cfg.commands@,
            workspace@,
            host@,
            n as nat,
        ).unwrap();
        match push_entry_steps(&mut steps, &cfg.entries[n], args, &cfg.commands, workspace, host) {
            Ok(()) => {
                proof {
                    let more = entry_steps(
                        cfg.entries@[n as int],
                        *args,
                        cfg.commands@,
                        workspace@,
                        host@,
                    ).unwrap();
                    assert(before + more =~= pre_steps(cfg.pre@) + (so_far + more));
                }
            },
            Err(e) => {
                proof {
                    lemma_error_stays(
                        cfg.entries@,
                        *args,
                        cfg.commands@,
                        workspace@,
                        host@,
                        (n + 1) as nat,
                        cfg.entries@.len(),
                    );
                }
                return Err(e);
            },
        }
        n += 1;
    }
    Ok(steps)
}

/// Once the entries up to some point have run into an error, taking more
/// entries gives the same error.
proof fn lemma_error_stays(
    entries: Seq<MatrixEntry>,
    args: MatrixArgs,
    commands: Seq<(String, String)>,
    workspace: Seq<char>,
    host: Seq<char>,
    n: nat,
    m: nat,
)
    requires
        n <= m <= entries.len(),
        entries_steps(entries, args, commands, workspace, host, n) is Err,
    ensures
        entries_steps(entries, args, commands, workspace, host, m) == entries_steps(
            entries,
            args,
            commands,
            workspace,
            host,
            n,
        ),
    decreases m - n,
{
    if n < m {
        lemma_error_stays(entries, args, commands, workspace, host, n, (m - 1) as nat);
    }
}

/// The line that announces step `i` of `total`, counted from zero: the
/// step's number and the number of steps in square brackets, then its name.
pub open spec fn progress_text(i: nat, total: nat, name: Seq<char>) -> Seq<char> {
    "["@ + decimal(i + 1) + "/"@ + decimal(total) + "] "@ + name
}

/// The line that announces a step.
pub fn progress_line(i: usize, total: usize, name: &str) -> (line: String)
    requires
        i < total,
    ensures
        line@ == progress_text(i as nat, total as nat, name@),
{
    let mut line = String::from_str("[");
    line.append(decimal_string(i + 1).as_str());
    line.append("/");
    line.append(decimal_string(total).as_str());
    line.append("] ");
    line.append(name);
    line
}

/// Line `i` is the first that begins with `host:`.
pub open spec fn first_host_line(all: Seq<Seq<char>>, i: int) -> bool {
    &&& 0 <= i < all.len()
    &&& starts_with(all[i], "host:"@)
    &&& forall|j: int| 0 <= j < i ==> !starts_with(#[trigger] all[j], "host:"@)
}

/// What follows `host:` on the first of the lines that begins with it, if
/// there is such a line.
pub open spec fn after_host(all: Seq<Seq<char>>) -> Option<Seq<char>> {
    if exists|i: int| first_host_line(all, i) {
        let line = all[choose|i: int| first_host_line(all, i)];
        Some(line.subrange("host:"@.len() as int, line.len() as int))
    } else {
        None
    }
}

/// Finds the first of the lines that begins with `host:` and gives what
/// follows the `host:` on it, white space included.
pub fn find_host_line<'a>(all: &Vec<&'a str>) -> (rest: Option<&'a str>)
    ensures
        match rest {
            Some(r) => after_host(slice_texts(all@)) == Some(r@),
            None => after_host(slice_texts(all@)) is None,
        },
        rest is Some <==> exists|i: int|
            0 <= i < all@.len() && starts_with(#[trigger] slice_texts(all@)[i], "host:"@),
{
    let mut i: usize = 0;
    while i < all.len()
        invariant
            i <= all.len(),
            forall|j: int| 0 <= j < i ==> !starts_with(#[trigger] slice_texts(all@)[j], "host:"@),
        decreases all.len() - i,
    {
        assert(slice_texts(all@)[i as int] == all@[i as int]@);
        match strip_prefix(all[i], "host:") {
            Some(rest) => {
                proof {
                    assert(first_host_line(slice_texts(all@), i as int));
                    let c = choose|k: int| first_host_line(slice_texts(all@), k);
                    assert(c == i);
                }
                return Some(rest);
            },
            None => {},
        }
        i += 1;
    }
    None
}

/// The host target that the compiler's version report names: what follows
/// `host:` on the first line that begins with it, without the white space
/// around it.
pub open spec fn host_in(report: Seq<char>) -> Option<Seq<char>> {
    match after_host(lines_of(report)) {
        Some(rest) => Some(trimmed(rest)),
        None => None,
    }
}

/// Reads the host target out of the report that `rustc -vV` prints, which
/// holds a line such as `host: x86_64-unknown-linux-gnu`.
pub fn host_target(report: &str) -> (host: Option<String>)
    ensures
        match host {
            Some(h) => host_in(report@) == Some(h@),
            None => host_in(report@) is None,
        },
{
    let all = lines(report);
    match find_host_line(&all) {
        Some(rest) => Some(String::from_str(trim(rest))),
        None => None,
    }
}

} // verus!
