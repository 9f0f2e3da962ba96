//! The set of options chosen for one run of BuildTools, and the operations
//! that change it.

use vstd::prelude::*;

use crate::argument::{models, ArgumentKind, ArgumentModel, BuildToolsArgument};
use crate::target::CompilationTarget;
use crate::text::texts;

verus! {

/// The test "is of the given kind".
pub open spec fn of_kind(kind: ArgumentKind) -> spec_fn(ArgumentModel) -> bool {
    |argument: ArgumentModel| argument.kind() == kind
}

/// The test "is of another kind than the given one".
pub open spec fn not_of_kind(kind: ArgumentKind) -> spec_fn(ArgumentModel) -> bool {
    |argument: ArgumentModel| argument.kind() != kind
}

/// The test "is the given argument".
pub open spec fn equal_to(argument: ArgumentModel) -> spec_fn(ArgumentModel) -> bool {
    |held: ArgumentModel| held == argument
}

/// The test "is another argument than the given one".
pub open spec fn other_than(argument: ArgumentModel) -> spec_fn(ArgumentModel) -> bool {
    |held: ArgumentModel| held != argument
}

/// How often the argument occurs among the arguments.
pub open spec fn occurrences(arguments: Seq<ArgumentModel>, argument: ArgumentModel) -> nat {
    arguments.filter(equal_to(argument)).len()
}

/// How many of the arguments are of the given kind.
pub open spec fn count(arguments: Seq<ArgumentModel>, kind: ArgumentKind) -> nat {
    arguments.filter(of_kind(kind)).len()
}

/// No two of the arguments set the same option.
pub open spec fn distinct_kinds(arguments: Seq<ArgumentModel>) -> bool {
    forall|i: int, j: int|
        0 <= i < j < arguments.len() ==> (#[trigger] arguments[i]).kind()
            != (#[trigger] arguments[j]).kind()
}

/// Some argument is of the given kind.
pub open spec fn holds(arguments: Seq<ArgumentModel>, kind: ArgumentKind) -> bool {
    exists|i: int| 0 <= i < arguments.len() && (#[trigger] arguments[i]).kind() == kind
}

/// The arguments that are not of the given kind, in their order.
pub open spec fn without(arguments: Seq<ArgumentModel>, kind: ArgumentKind) -> Seq<ArgumentModel> {
    arguments.filter(not_of_kind(kind))
}

/// The arguments that differ from `argument`, in their order: every
/// occurrence of `argument` is taken out, and nothing else.
pub open spec fn switched_off(arguments: Seq<ArgumentModel>, argument: ArgumentModel) -> Seq<
    ArgumentModel,
> {
    arguments.filter(other_than(argument))
}

/// The arguments with `argument` added at the end, unless one of its kind is
/// there already.
pub open spec fn switched_on(arguments: Seq<ArgumentModel>, argument: ArgumentModel) -> Seq<
    ArgumentModel,
> {
    if holds(arguments, argument.kind()) {
        arguments
    } else {
        arguments.push(argument)
    }
}

/// The arguments with every one of `argument`'s kind taken out and `argument`
/// added at the end.
pub open spec fn replaced(arguments: Seq<ArgumentModel>, argument: ArgumentModel) -> Seq<
    ArgumentModel,
> {
    without(arguments, argument.kind()).push(argument)
}

/// The arguments after `argument` was turned on or off.
pub open spec fn switched(
    arguments: Seq<ArgumentModel>,
    argument: ArgumentModel,
    enabled: bool,
) -> Seq<ArgumentModel> {
    if enabled {
        switched_on(arguments, argument)
    } else {
        switched_off(arguments, argument)
    }
}

/// The arguments after `argument` was switched on `times` times in a row.
pub open spec fn switched_on_times(
    arguments: Seq<ArgumentModel>,
    argument: ArgumentModel,
    times: nat,
) -> Seq<ArgumentModel>
    decreases times,
{
    if times == 0 {
        arguments
    } else {
        switched(switched_on_times(arguments, argument, (times - 1) as nat), argument, true)
    }
}

/// The targets that the tokens stand for, one by one.
pub open spec fn parsed_targets(tokens: Seq<Seq<char>>) -> Seq<CompilationTarget> {
    tokens.map_values(|token: Seq<char>| CompilationTarget::parse(token))
}

/// What `without` does to a sequence that ends in `last`.
pub proof fn lemma_without_push(
    arguments: Seq<ArgumentModel>,
    last: ArgumentModel,
    kind: ArgumentKind,
)
    ensures
        without(arguments.push(last), kind) == if last.kind() == kind {
            without(arguments, kind)
        } else {
            without(arguments, kind).push(last)
        },
{
    arguments.lemma_filter_push(last, not_of_kind(kind));
}

/// What `count` does to a sequence that ends in `last`.
pub proof fn lemma_count_push(arguments: Seq<ArgumentModel>, last: ArgumentModel, kind: ArgumentKind)
    ensures
        count(arguments.push(last), kind) == count(arguments, kind) + if last.kind() == kind {
            1nat
        } else {
            0nat
        },
{
    arguments.lemma_filter_push(last, of_kind(kind));
}

/// A sequence that ends in `last` holds a kind when its front does or `last`
/// is of it.
pub proof fn lemma_holds_push(arguments: Seq<ArgumentModel>, last: ArgumentModel, kind: ArgumentKind)
    ensures
        holds(arguments.push(last), kind) <==> holds(arguments, kind) || last.kind() == kind,
{
    let longer = arguments.push(last);
    if holds(longer, kind) {
        let i = choose|i: int| 0 <= i < longer.len() && (#[trigger] longer[i]).kind() == kind;
        if i < arguments.len() {
            assert(arguments[i].kind() == kind);
        }
    }
    if holds(arguments, kind) {
        let i = choose|i: int| 0 <= i < arguments.len() && (#[trigger] arguments[i]).kind()
            == kind;
        assert(longer[i].kind() == kind);
    }
    if last.kind() == kind {
        assert(longer[longer.len() - 1].kind() == kind);
    }
}

/// A kind is counted exactly when the sequence holds it.
pub proof fn lemma_count_holds(arguments: Seq<ArgumentModel>, kind: ArgumentKind)
    ensures
        holds(arguments, kind) <==> count(arguments, kind) > 0,
    decreases arguments.len(),
{
    if arguments.len() == 0 {
        arguments.lemma_filter_len(of_kind(kind));
    } else {
        let front = arguments.drop_last();
        assert(front.push(arguments.last()) =~= arguments);
        lemma_count_holds(front, kind);
        lemma_count_push(front, arguments.last(), kind);
        lemma_holds_push(front, arguments.last(), kind);
    }
}

/// Adding an argument of a kind that is not held keeps distinct kinds distinct.
pub proof fn lemma_distinct_push(arguments: Seq<ArgumentModel>, last: ArgumentModel)
    requires
        distinct_kinds(arguments),
        !holds(arguments, last.kind()),
    ensures
        distinct_kinds(arguments.push(last)),
{
    let longer = arguments.push(last);
    assert forall|i: int, j: int| 0 <= i < j < longer.len() implies (#[trigger] longer[i]).kind()
        != (#[trigger] longer[j]).kind() by {
        if j < arguments.len() {
            assert(arguments[i].kind() != arguments[j].kind());
        } else {
            assert(arguments[i].kind() != last.kind());
        }
    }
}

/// With distinct kinds, the arguments before the last have distinct kinds and
/// hold none of the last one's kind.
pub proof fn lemma_distinct_front(arguments: Seq<ArgumentModel>)
    requires
        distinct_kinds(arguments),
        arguments.len() > 0,
    ensures
        distinct_kinds(arguments.drop_last()),
        !holds(arguments.drop_last(), arguments.last().kind()),
{
    let front = arguments.drop_last();
    assert forall|i: int, j: int| 0 <= i < j < front.len() implies (#[trigger] front[i]).kind()
        != (#[trigger] front[j]).kind() by {
        assert(arguments[i].kind() != arguments[j].kind());
    }
    if holds(front, arguments.last().kind()) {
        let i = choose|i: int|
            0 <= i < front.len() && (#[trigger] front[i]).kind() == arguments.last().kind();
        assert(arguments[i].kind() != arguments[arguments.len() - 1].kind());
    }
}

/// With distinct kinds, no kind is counted twice.
pub proof fn lemma_distinct_counts(arguments: Seq<ArgumentModel>, kind: ArgumentKind)
    requires
        distinct_kinds(arguments),
    ensures
        count(arguments, kind) <= 1,
    decreases arguments.len(),
{
    if arguments.len() == 0 {
        arguments.lemma_filter_len(of_kind(kind));
    } else {
        let front = arguments.drop_last();
        assert(front.push(arguments.last()) =~= arguments);
        lemma_distinct_front(arguments);
        lemma_distinct_counts(front, kind);
        lemma_count_push(front, arguments.last(), kind);
        lemma_count_holds(front, kind);
    }
}

/// Taking a kind out leaves none of it, changes nothing where none of it was
/// held, keeps what is held of every other kind, and keeps distinct kinds
/// distinct.
pub proof fn lemma_without(arguments: Seq<ArgumentModel>, kind: ArgumentKind)
    ensures
        !holds(without(arguments, kind), kind),
        count(without(arguments, kind), kind) == 0,
        !holds(arguments, kind) ==> without(arguments, kind) == arguments,
        forall|other: ArgumentKind|
            other != kind ==> #[trigger] holds(without(arguments, kind), other) == holds(
                arguments,
                other,
            ),
        distinct_kinds(arguments) ==> distinct_kinds(without(arguments, kind)),
    decreases arguments.len(),
{
    let kept = without(arguments, kind);
    if arguments.len() == 0 {
        arguments.lemma_filter_len(not_of_kind(kind));
    } else {
        let front = arguments.drop_last();
        let last = arguments.last();
        let kept_front = without(front, kind);
        assert(front.push(last) =~= arguments);
        lemma_without(front, kind);
        lemma_without_push(front, last, kind);
        lemma_holds_push(front, last, kind);
        lemma_holds_push(kept_front, last, kind);
        assert forall|other: ArgumentKind| other != kind implies #[trigger] holds(kept, other)
            == holds(arguments, other) by {
            lemma_holds_push(front, last, other);
            lemma_holds_push(kept_front, last, other);
        }
        if distinct_kinds(arguments) {
            lemma_distinct_front(arguments);
            if last.kind() != kind {
                lemma_distinct_push(kept_front, last);
            }
        }
    }
    lemma_count_holds(kept, kind);
}

/// What `switched_off` does to a sequence that ends in `last`.
pub proof fn lemma_switched_off_push(
    arguments: Seq<ArgumentModel>,
    last: ArgumentModel,
    argument: ArgumentModel,
)
    ensures
        switched_off(arguments.push(last), argument) == if last == argument {
            switched_off(arguments, argument)
        } else {
            switched_off(arguments, argument).push(last)
        },
{
    arguments.lemma_filter_push(last, other_than(argument));
}

/// What `occurrences` does to a sequence that ends in `last`.
pub proof fn lemma_occurrences_push(
    arguments: Seq<ArgumentModel>,
    last: ArgumentModel,
    argument: ArgumentModel,
)
    ensures
        occurrences(arguments.push(last), argument) == occurrences(arguments, argument)
            + if last == argument {
            1nat
        } else {
            0nat
        },
{
    arguments.lemma_filter_push(last, equal_to(argument));
}

/// For a switch, to be the switch and to be of its kind are one test.
pub proof fn lemma_switch_tests(switch: ArgumentModel)
    requires
        switch.kind().is_switch(),
    ensures
        equal_to(switch) == of_kind(switch.kind()),
        other_than(switch) == not_of_kind(switch.kind()),
{
    assert forall|held: ArgumentModel| #[trigger]
        equal_to(switch)(held) == of_kind(switch.kind())(held) by {
        if held.kind() == switch.kind() {
            lemma_switch_value(held, switch);
        }
    }
    assert forall|held: ArgumentModel| #[trigger]
        other_than(switch)(held) == not_of_kind(switch.kind())(held) by {
        if held.kind() == switch.kind() {
            lemma_switch_value(held, switch);
        }
    }
    assert(equal_to(switch) =~= of_kind(switch.kind()));
    assert(other_than(switch) =~= not_of_kind(switch.kind()));
}

/// An argument occurs only where its kind is held.
pub proof fn lemma_occurrences_holds(arguments: Seq<ArgumentModel>, argument: ArgumentModel)
    ensures
        occurrences(arguments, argument) > 0 ==> holds(arguments, argument.kind()),
    decreases arguments.len(),
{
    if arguments.len() == 0 {
        arguments.lemma_filter_len(equal_to(argument));
    } else {
        let front = arguments.drop_last();
        assert(front.push(arguments.last()) =~= arguments);
        lemma_occurrences_holds(front, argument);
        lemma_occurrences_push(front, arguments.last(), argument);
        lemma_holds_push(front, arguments.last(), argument.kind());
    }
}

/// Taking an argument out leaves no occurrence of it, changes nothing where
/// it did not occur, holds no kind that was not held before, and keeps
/// distinct kinds distinct.
pub proof fn lemma_switched_off(arguments: Seq<ArgumentModel>, argument: ArgumentModel)
    ensures
        occurrences(switched_off(arguments, argument), argument) == 0,
        occurrences(arguments, argument) == 0 ==> switched_off(arguments, argument) == arguments,
        forall|kind: ArgumentKind| #[trigger]
            holds(switched_off(arguments, argument), kind) ==> holds(arguments, kind),
        distinct_kinds(arguments) ==> distinct_kinds(switched_off(arguments, argument)),
    decreases arguments.len(),
{
    let kept = switched_off(arguments, argument);
    if arguments.len() == 0 {
        arguments.lemma_filter_len(other_than(argument));
        kept.lemma_filter_len(equal_to(argument));
    } else {
        let front = arguments.drop_last();
        let last = arguments.last();
        let kept_front = switched_off(front, argument);
        assert(front.push(last) =~= arguments);
        lemma_switched_off(front, argument);
        lemma_switched_off_push(front, last, argument);
        lemma_occurrences_push(front, last, argument);
        lemma_occurrences_push(kept_front, last, argument);
        assert forall|kind: ArgumentKind| #[trigger] holds(kept, kind) implies holds(
            arguments,
            kind,
        ) by {
            lemma_holds_push(front, last, kind);
            lemma_holds_push(kept_front, last, kind);
        }
        if distinct_kinds(arguments) {
            lemma_distinct_front(arguments);
            if last != argument {
                lemma_distinct_push(kept_front, last);
            }
        }
    }
}

/// Taking an argument out leaves every other argument as often as it was.
pub proof fn lemma_switched_off_keeps(
    arguments: Seq<ArgumentModel>,
    argument: ArgumentModel,
    other: ArgumentModel,
)
    requires
        other != argument,
    ensures
        occurrences(switched_off(arguments, argument), other) == occurrences(arguments, other),
    decreases arguments.len(),
{
    if arguments.len() == 0 {
        arguments.lemma_filter_len(other_than(argument));
    } else {
        let front = arguments.drop_last();
        let last = arguments.last();
        assert(front.push(last) =~= arguments);
        lemma_switched_off_keeps(front, argument, other);
        lemma_switched_off_push(front, last, argument);
        lemma_occurrences_push(front, last, other);
        lemma_occurrences_push(switched_off(front, argument), last, other);
    }
}

/// Whether some argument is of the given kind.
fn holds_kind(items: &Vec<BuildToolsArgument>, kind: ArgumentKind) -> (found: bool)
    ensures
        found == holds(models(items@), kind),
{
    let mut i: usize = 0;
    while i < items.len()
        invariant
            i <= items.len(),
            forall|j: int| 0 <= j < i ==> (#[trigger] models(items@)[j]).kind() != kind,
        decreases items.len() - i,
    {
        if items[i].kind() == kind {
            assert(models(items@)[i as int].kind() == kind);
            return true;
        }
        i = i + 1;
    }
    false
}

/// Copies of the arguments that are not of the given kind, in their order.
fn kept_without(items: &Vec<BuildToolsArgument>, kind: ArgumentKind) -> (kept: Vec<
    BuildToolsArgument,
>)
    ensures
        models(kept@) == without(models(items@), kind),
{
    let mut kept: Vec<BuildToolsArgument> = Vec::new();
    let mut i: usize = 0;
    while i < items.len()
        invariant
            i <= items.len(),
            models(kept@) == without(models(items@.take(i as int)), kind),
        decreases items.len() - i,
    {
        let ghost seen = models(items@.take(i as int));
        assert(models(items@.take(i + 1)) =~= seen.push(items@[i as int]@));
        proof {
            lemma_without_push(seen, items@[i as int]@, kind);
        }
        if items[i].kind() != kind {
            kept.push(items[i].clone());
        }
        i = i + 1;
    }
    assert(items@.take(i as int) =~= items@);
    kept
}

/// Copies of the arguments that differ from the given one, in their order.
fn kept_other_than(items: &Vec<BuildToolsArgument>, argument: &BuildToolsArgument) -> (kept: Vec<
    BuildToolsArgument,
>)
    ensures
        models(kept@) == switched_off(models(items@), argument@),
{
    let mut kept: Vec<BuildToolsArgument> = Vec::new();
    let mut i: usize = 0;
    proof {
        Seq::<ArgumentModel>::empty().lemma_filter_len(other_than(argument@));
    }
    while i < items.len()
        invariant
            i <= items.len(),
            models(kept@) == switched_off(models(items@.take(i as int)), argument@),
        decreases items.len() - i,
    {
        let ghost seen = models(items@.take(i as int));
        assert(models(items@.take(i + 1)) =~= seen.push(items@[i as int]@));
        proof {
            lemma_switched_off_push(seen, items@[i as int]@, argument@);
        }
        if !items[i].same_as(argument) {
            kept.push(items[i].clone());
        }
        i = i + 1;
    }
    assert(items@.take(i as int) =~= items@);
    kept
}

/// The options chosen for one run of BuildTools, in the order in which they
/// were added. No two of them set the same option.
#[derive(Debug)]
pub struct ArgumentSet {
    items: Vec<BuildToolsArgument>,
}

impl View for ArgumentSet {
    type V = Seq<ArgumentModel>;

    closed spec fn view(&self) -> Seq<ArgumentModel> {
        models(self.items@)
    }
}

impl ArgumentSet {
    #[verifier::type_invariant]
    spec fn valid(self) -> bool {
        distinct_kinds(models(self.items@))
    }

    /// The empty set.
    pub fn new() -> (set: Self)
        ensures
            set@ == Seq::<ArgumentModel>::empty(),
    {
        let items: Vec<BuildToolsArgument> = Vec::new();
        ArgumentSet { items }
    }

    /// A copy of the arguments, in order.
    pub fn arguments(&self) -> (copy: Vec<BuildToolsArgument>)
        ensures
            models(copy@) == self@,
            distinct_kinds(self@),
    {
        proof {
            use_type_invariant(self);
        }
        let mut copy: Vec<BuildToolsArgument> = Vec::new();
        let mut i: usize = 0;
        while i < self.items.len()
            invariant
                i <= self.items.len(),
                models(copy@) == models(self.items@.take(i as int)),
            decreases self.items.len() - i,
        {
            assert(models(self.items@.take(i + 1)) =~= models(self.items@.take(i as int)).push(
                self.items@[i as int]@,
            ));
            copy.push(self.items[i].clone());
            i = i + 1;
        }
        copy
    }

    /// Turns an argument on or off. On: the argument is added at the end,
    /// unless the set already holds one that sets the same option, so that no
    /// option is ever set twice. Off: every occurrence of the argument is
    /// taken out, and nothing else; for a switch that is every argument of its
    /// kind.
    pub fn set_basic_arg(&mut self, argument: BuildToolsArgument, enabled: bool)
        ensures
            final(self)@ == switched(old(self)@, argument@, enabled),
            distinct_kinds(final(self)@),
    {
        proof {
            use_type_invariant(&*self);
            lemma_switched_off(self@, argument@);
        }
        if enabled {
            if !holds_kind(&self.items, argument.kind()) {
                let mut items: Vec<BuildToolsArgument> = Vec::new();
                std::mem::swap(&mut items, &mut self.items);
                let ghost before = models(items@);
                items.push(argument);
                assert(models(items@) =~= before.push(argument@));
                proof {
                    lemma_distinct_push(before, argument@);
                }
                self.items = items;
            }
        } else {
            let kept = kept_other_than(&self.items, &argument);
            self.items = kept;
        }
    }

    /// Gives an option its value: every argument of the kind of `argument` is
    /// taken out, and `argument` is added at the end.
    pub fn set_single_value(&mut self, argument: BuildToolsArgument)
        ensures
            final(self)@ == replaced(old(self)@, argument@),
            distinct_kinds(final(self)@),
    {
        proof {
            use_type_invariant(&*self);
            lemma_without(self@, argument@.kind());
        }
        let mut kept = kept_without(&self.items, argument.kind());
        let ghost before = models(kept@);
        kept.push(argument);
        assert(models(kept@) =~= before.push(argument@));
        proof {
            lemma_distinct_push(before, argument@);
        }
        self.items = kept;
    }

    /// Turns `--remapped` on or off.
    pub fn set_remapped(&mut self, enabled: bool)
        ensures
            final(self)@ == switched(old(self)@, ArgumentModel::Remapped, enabled),
            distinct_kinds(final(self)@),
    {
        self.set_basic_arg(BuildToolsArgument::Remapped, enabled)
    }

    /// Turns `--disable-cert` on or off.
    pub fn set_disable_cert(&mut self, enabled: bool)
        ensures
            final(self)@ == switched(old(self)@, ArgumentModel::DisableCert, enabled),
            distinct_kinds(final(self)@),
    {
        self.set_basic_arg(BuildToolsArgument::DisableCert, enabled)
    }

    /// Turns `--disable-java-check` on or off.
    pub fn set_disable_java_check(&mut self, enabled: bool)
        ensures
            final(self)@ == switched(old(self)@, ArgumentModel::DisableJavaCheck, enabled),
            distinct_kinds(final(self)@),
    {
        self.set_basic_arg(BuildToolsArgument::DisableJavaCheck, enabled)
    }

    /// Turns `--dont-update` on or off.
    pub fn set_dont_update(&mut self, enabled: bool)
        ensures
            final(self)@ == switched(old(self)@, ArgumentModel::DontUpdate, enabled),
            distinct_kinds(final(self)@),
    {
        self.set_basic_arg(BuildToolsArgument::DontUpdate, enabled)
    }

    /// Turns `--skip-compile` on or off.
    pub fn set_skip_compile(&mut self, enabled: bool)
        ensures
            final(self)@ == switched(old(self)@, ArgumentModel::SkipCompile, enabled),
            distinct_kinds(final(self)@),
    {
        self.set_basic_arg(BuildToolsArgument::SkipCompile, enabled)
    }

    /// Turns `--generate-source` on or off.
    pub fn set_generate_source(&mut self, enabled: bool)
        ensures
            final(self)@ == switched(old(self)@, ArgumentModel::GenerateSource, enabled),
            distinct_kinds(final(self)@),
    {
        self.set_basic_arg(BuildToolsArgument::GenerateSource, enabled)
    }

    /// Turns `--generate-docs` on or off.
    pub fn set_generate_docs(&mut self, enabled: bool)
        ensures
            final(self)@ == switched(old(self)@, ArgumentModel::GenerateDocs, enabled),
            distinct_kinds(final(self)@),
    {
        self.set_basic_arg(BuildToolsArgument::GenerateDocs, enabled)
    }

    /// Turns `--dev` on or off.
    pub fn set_dev(&mut self, enabled: bool)
        ensures
            final(self)@ == switched(old(self)@, ArgumentModel::Dev, enabled),
            distinct_kinds(final(self)@),
    {
        self.set_basic_arg(BuildToolsArgument::Dev, enabled)
    }

    /// Turns `--experimental` on or off.
    pub fn set_experimental(&mut self, enabled: bool)
        ensures
            final(self)@ == switched(old(self)@, ArgumentModel::Experimental, enabled),
            distinct_kinds(final(self)@),
    {
        self.set_basic_arg(BuildToolsArgument::Experimental, enabled)
    }

    /// Turns `--compile-if-changed` on or off.
    pub fn set_compile_if_changed(&mut self, enabled: bool)
        ensures
            final(self)@ == switched(old(self)@, ArgumentModel::CompileIfChanged, enabled),
            distinct_kinds(final(self)@),
    {
        self.set_basic_arg(BuildToolsArgument::CompileIfChanged, enabled)
    }

    /// Sets the revision to build, in place of any earlier one.
    pub fn set_rev(&mut self, rev: String)
        ensures
            final(self)@ == replaced(old(self)@, ArgumentModel::Rev(rev@)),
            distinct_kinds(final(self)@),
    {
        self.set_single_value(BuildToolsArgument::Rev(rev))
    }

    /// Sets the output directory, in place of any earlier one.
    pub fn set_output_dir(&mut self, output_dir_full_path: String)
        ensures
            final(self)@ == replaced(old(self)@, ArgumentModel::OutputDir(output_dir_full_path@)),
            distinct_kinds(final(self)@),
    {
        self.set_single_value(BuildToolsArgument::OutputDir(output_dir_full_path))
    }

    /// Sets the name of the built jar, in place of any earlier one.
    pub fn set_final_name(&mut self, final_name: String)
        ensures
            final(self)@ == replaced(old(self)@, ArgumentModel::FinalName(final_name@)),
            distinct_kinds(final(self)@),
    {
        self.set_single_value(BuildToolsArgument::FinalName(final_name))
    }

    /// Sets the pull request to build, in place of any earlier one.
    pub fn set_pull_request(&mut self, repo: String, id: u16)
        ensures
            final(self)@ == replaced(old(self)@, ArgumentModel::PullRequest(repo@, id)),
            distinct_kinds(final(self)@),
    {
        self.set_single_value(BuildToolsArgument::PullRequest(repo, id))
    }

    /// Sets the targets to compile, in place of any earlier list. Each token
    /// is read as a target; an unknown token is read as `Nothing`.
    pub fn set_compile(&mut self, targets: Vec<String>)
        ensures
            final(self)@ == replaced(
                old(self)@,
                ArgumentModel::Compile(parsed_targets(texts(targets@))),
            ),
            distinct_kinds(final(self)@),
    {
        let mut parsed: Vec<CompilationTarget> = Vec::new();
        let mut i: usize = 0;
        while i < targets.len()
            invariant
                i <= targets.len(),
                parsed@ == parsed_targets(texts(targets@)).take(i as int),
            decreases targets.len() - i,
        {
            parsed.push(CompilationTarget::from_string(targets[i].clone()));
            i = i + 1;
        }
        assert(parsed@ =~= parsed_targets(texts(targets@)));
        self.set_single_value(BuildToolsArgument::Compile(parsed))
    }
}

/// A switch is the only value of its kind.
pub proof fn lemma_switch_value(a: ArgumentModel, b: ArgumentModel)
    requires
        a.kind() == b.kind(),
        a.kind().is_switch(),
    ensures
        a == b,
{
}

/// Switching on is idempotent: after a switch was turned on twice, the set is
/// as after the first time, and the switch occurs in it exactly once.
pub proof fn law_switch_on_twice(arguments: Seq<ArgumentModel>, switch: ArgumentModel)
    requires
        distinct_kinds(arguments),
        switch.kind().is_switch(),
    ensures
        switched(switched(arguments, switch, true), switch, true) == switched(
            arguments,
            switch,
            true,
        ),
        occurrences(switched(switched(arguments, switch, true), switch, true), switch) == 1,
        count(switched(switched(arguments, switch, true), switch, true), switch.kind()) == 1,
{
    let once = switched(arguments, switch, true);
    lemma_holds_push(arguments, switch, switch.kind());
    if !holds(arguments, switch.kind()) {
        lemma_distinct_push(arguments, switch);
    }
    lemma_distinct_counts(once, switch.kind());
    lemma_count_holds(once, switch.kind());
    lemma_switch_tests(switch);
}

/// Switching off removes every occurrence of the argument, however often it
/// was switched on before; switching off again, or switching off what does
/// not occur, changes nothing. For a switch, none of its kind is left.
pub proof fn law_switch_off(arguments: Seq<ArgumentModel>, argument: ArgumentModel, times: nat)
    ensures
        occurrences(
            switched(switched_on_times(arguments, argument, times), argument, false),
            argument,
        ) == 0,
        occurrences(arguments, argument) == 0 ==> switched(arguments, argument, false)
            == arguments,
        switched(switched(arguments, argument, false), argument, false) == switched(
            arguments,
            argument,
            false,
        ),
        argument.kind().is_switch() ==> !holds(
            switched(switched_on_times(arguments, argument, times), argument, false),
            argument.kind(),
        ),
{
    let on = switched_on_times(arguments, argument, times);
    lemma_switched_off(on, argument);
    lemma_switched_off(arguments, argument);
    lemma_switched_off(switched_off(arguments, argument), argument);
    if argument.kind().is_switch() {
        lemma_switch_tests(argument);
        lemma_without(on, argument.kind());
    }
}

/// Switching off deletes the occurrences of the argument and nothing else:
/// every other argument stays as often as it was. The order of what stays
/// is kept, and so are distinct kinds.
pub proof fn law_switch_off_keeps_others(
    arguments: Seq<ArgumentModel>,
    argument: ArgumentModel,
    other: ArgumentModel,
)
    requires
        other != argument,
    ensures
        occurrences(switched(arguments, argument, false), other) == occurrences(arguments, other),
        distinct_kinds(arguments) ==> distinct_kinds(switched(arguments, argument, false)),
{
    lemma_switched_off_keeps(arguments, argument, other);
    lemma_switched_off(arguments, argument);
}

/// Switching an argument off undoes switching it on, where the set held
/// none of its kind before.
pub proof fn law_switch_off_undoes_on(arguments: Seq<ArgumentModel>, argument: ArgumentModel)
    requires
        !holds(arguments, argument.kind()),
    ensures
        switched(switched(arguments, argument, true), argument, false) == arguments,
{
    lemma_switched_off_push(arguments, argument, argument);
    lemma_switched_off(arguments, argument);
    lemma_occurrences_holds(arguments, argument);
}

/// Setting a value twice leaves exactly one argument of that kind, the one
/// set last; the value set first leaves no trace.
pub proof fn law_replace_twice(
    arguments: Seq<ArgumentModel>,
    first: ArgumentModel,
    second: ArgumentModel,
)
    requires
        first.kind() == second.kind(),
    ensures
        replaced(replaced(arguments, first), second) == replaced(arguments, second),
        count(replaced(replaced(arguments, first), second), second.kind()) == 1,
        replaced(replaced(arguments, first), second).last() == second,
        forall|i: int|
            0 <= i < replaced(arguments, second).len() && (#[trigger] replaced(
                arguments,
                second,
            )[i]).kind() == second.kind() ==> replaced(arguments, second)[i] == second,
{
    let kind = second.kind();
    let kept = without(arguments, kind);
    lemma_without(arguments, kind);
    lemma_without(kept, kind);
    lemma_without_push(kept, first, kind);
    lemma_count_push(kept, second, kind);
    let last = replaced(arguments, second);
    assert forall|i: int| 0 <= i < last.len() && (#[trigger] last[i]).kind() == kind implies last[i]
        == second by {
        if i < kept.len() {
            assert(kept[i].kind() == kind);
        }
    }
}

} // verus!
