//! The options of BuildTools and how each is written on a command line.

use vstd::prelude::*;
use vstd::string::StringExecFns;

use crate::target::CompilationTarget;
use crate::text::{decimal, decimal_string, join};

verus! {

/// Which option an argument sets, whatever its value.
#[derive(Clone, Copy, Debug, PartialEq, Eq, Structural)]
pub enum ArgumentKind {
    Remapped,
    Rev,
    DisableCert,
    DisableJavaCheck,
    DontUpdate,
    SkipCompile,
    GenerateSource,
    GenerateDocs,
    Dev,
    Experimental,
    OutputDir,
    FinalName,
    PullRequest,
    Compile,
    CompileIfChanged,
    NoGui,
}

impl ArgumentKind {
    /// Whether an option of this kind is a plain switch, with no value.
    pub open spec fn is_switch(self) -> bool {
        !(self is Rev || self is OutputDir || self is FinalName || self is PullRequest
            || self is Compile)
    }
}

/// One option for BuildTools: a switch, or an option with its value.
#[derive(Debug, PartialEq, Eq)]
pub enum BuildToolsArgument {
    Remapped,
    /// The revision to build.
    Rev(String),
    DisableCert,
    DisableJavaCheck,
    DontUpdate,
    SkipCompile,
    GenerateSource,
    GenerateDocs,
    Dev,
    Experimental,
    /// The directory that receives the built jars, as it is to be written.
    OutputDir(String),
    /// The name of the built jar.
    FinalName(String),
    /// The repository and the number of a pull request to build.
    PullRequest(String, u16),
    /// The targets to compile, in the order in which they are to be named.
    Compile(Vec<CompilationTarget>),
    CompileIfChanged,
    NoGui,
}

/// The mathematical value of a [`BuildToolsArgument`].
pub enum ArgumentModel {
    Remapped,
    Rev(Seq<char>),
    DisableCert,
    DisableJavaCheck,
    DontUpdate,
    SkipCompile,
    GenerateSource,
    GenerateDocs,
    Dev,
    Experimental,
    OutputDir(Seq<char>),
    FinalName(Seq<char>),
    PullRequest(Seq<char>, u16),
    Compile(Seq<CompilationTarget>),
    CompileIfChanged,
    NoGui,
}

/// The names of the targets, in order.
pub open spec fn target_names(targets: Seq<CompilationTarget>) -> Seq<Seq<char>> {
    targets.map_values(|target: CompilationTarget| target.name())
}

impl ArgumentModel {
    /// The option that the argument sets.
    pub open spec fn kind(self) -> ArgumentKind {
        match self {
            ArgumentModel::Remapped => ArgumentKind::Remapped,
            ArgumentModel::Rev(_) => ArgumentKind::Rev,
            ArgumentModel::DisableCert => ArgumentKind::DisableCert,
            ArgumentModel::DisableJavaCheck => ArgumentKind::DisableJavaCheck,
            ArgumentModel::DontUpdate => ArgumentKind::DontUpdate,
            ArgumentModel::SkipCompile => ArgumentKind::SkipCompile,
            ArgumentModel::GenerateSource => ArgumentKind::GenerateSource,
            ArgumentModel::GenerateDocs => ArgumentKind::GenerateDocs,
            ArgumentModel::Dev => ArgumentKind::Dev,
            ArgumentModel::Experimental => ArgumentKind::Experimental,
            ArgumentModel::OutputDir(_) => ArgumentKind::OutputDir,
            ArgumentModel::FinalName(_) => ArgumentKind::FinalName,
            ArgumentModel::PullRequest(_, _) => ArgumentKind::PullRequest,
            ArgumentModel::Compile(_) => ArgumentKind::Compile,
            ArgumentModel::CompileIfChanged => ArgumentKind::CompileIfChanged,
            ArgumentModel::NoGui => ArgumentKind::NoGui,
        }
    }

    /// The argument as BuildTools expects it on its command line. A switch is
    /// its flag; an option with a value is its flag, one space and the value.
    pub open spec fn rendered(self) -> Seq<char> {
        match self {
            ArgumentModel::Remapped => "--remapped"@,
            ArgumentModel::Rev(rev) => "--rev "@ + rev,
            ArgumentModel::DisableCert => "--disable-cert"@,
            ArgumentModel::DisableJavaCheck => "--disable-java-check"@,
            ArgumentModel::DontUpdate => "--dont-update"@,
            ArgumentModel::SkipCompile => "--skip-compile"@,
            ArgumentModel::GenerateSource => "--generate-source"@,
            ArgumentModel::GenerateDocs => "--generate-docs"@,
            ArgumentModel::Dev => "--dev"@,
            ArgumentModel::Experimental => "--experimental"@,
            ArgumentModel::OutputDir(path) => "--output-dir "@ + path,
            ArgumentModel::FinalName(name) => "--final-name "@ + name,
            ArgumentModel::PullRequest(repo, id) => "--pull-request "@ + repo + ":"@ + decimal(
                id as nat,
            ),
            ArgumentModel::Compile(targets) => "--compile "@ + join(target_names(targets), ","@),
            ArgumentModel::CompileIfChanged => "--compile-if-changed"@,
            ArgumentModel::NoGui => "--nogui"@,
        }
    }
}

impl View for BuildToolsArgument {
    type V = ArgumentModel;

    open spec fn view(&self) -> ArgumentModel {
        match *self {
            BuildToolsArgument::Remapped => ArgumentModel::Remapped,
            BuildToolsArgument::Rev(rev) => ArgumentModel::Rev(rev@),
            BuildToolsArgument::DisableCert => ArgumentModel::DisableCert,
            BuildToolsArgument::DisableJavaCheck => ArgumentModel::DisableJavaCheck,
            BuildToolsArgument::DontUpdate => ArgumentModel::DontUpdate,
            BuildToolsArgument::SkipCompile => ArgumentModel::SkipCompile,
            BuildToolsArgument::GenerateSource => ArgumentModel::GenerateSource,
            BuildToolsArgument::GenerateDocs => ArgumentModel::GenerateDocs,
            BuildToolsArgument::Dev => ArgumentModel::Dev,
            BuildToolsArgument::Experimental => ArgumentModel::Experimental,
            BuildToolsArgument::OutputDir(path) => ArgumentModel::OutputDir(path@),
            BuildToolsArgument::FinalName(name) => ArgumentModel::FinalName(name@),
            BuildToolsArgument::PullRequest(repo, id) => ArgumentModel::PullRequest(repo@, id),
            BuildToolsArgument::Compile(targets) => ArgumentModel::Compile(targets@),
            BuildToolsArgument::CompileIfChanged => ArgumentModel::CompileIfChanged,
            BuildToolsArgument::NoGui => ArgumentModel::NoGui,
        }
    }
}

/// The values of a sequence of arguments.
pub open spec fn models(arguments: Seq<BuildToolsArgument>) -> Seq<ArgumentModel> {
    arguments.map_values(|argument: BuildToolsArgument| argument@)
}

/// Writes the names of the targets with a comma between each two.
fn joined_names(targets: &Vec<CompilationTarget>) -> (text: String)
    ensures
        text@ == join(target_names(targets@), ","@),
{
    let mut text = String::new();
    let mut i: usize = 0;
    while i < targets.len()
        invariant
            i <= targets.len(),
            text@ == join(target_names(targets@).take(i as int), ","@),
        decreases targets.len() - i,
    {
        let ghost names = target_names(targets@);
        assert(names.take(i + 1).drop_last() =~= names.take(i as int));
        if i > 0 {
            text.append(",");
        }
        text.append(targets[i].as_str());
        i = i + 1;
    }
    assert(target_names(targets@).take(i as int) =~= target_names(targets@));
    text
}

/// Whether the two lists name the same targets in the same order.
fn same_targets(left: &Vec<CompilationTarget>, right: &Vec<CompilationTarget>) -> (same: bool)
    ensures
        same == (left@ == right@),
{
    if left.len() != right.len() {
        return false;
    }
    let mut i: usize = 0;
    while i < left.len()
        invariant
            i <= left.len(),
            left.len() == right.len(),
            forall|j: int| 0 <= j < i ==> left@[j] == right@[j],
        decreases left.len() - i,
    {
        if left[i] != right[i] {
            return false;
        }
        i = i + 1;
    }
    assert(left@ =~= right@);
    true
}

impl BuildToolsArgument {
    /// Whether the two arguments set the same option to the same value.
    pub fn same_as(&self, other: &BuildToolsArgument) -> (same: bool)
        ensures
            same == (self@ == other@),
    {
        match (self, other) {
            (BuildToolsArgument::Remapped, BuildToolsArgument::Remapped) => true,
            (BuildToolsArgument::Rev(left), BuildToolsArgument::Rev(right)) => *left == *right,
            (BuildToolsArgument::DisableCert, BuildToolsArgument::DisableCert) => true,
            (BuildToolsArgument::DisableJavaCheck, BuildToolsArgument::DisableJavaCheck) => true,
            (BuildToolsArgument::DontUpdate, BuildToolsArgument::DontUpdate) => true,
            (BuildToolsArgument::SkipCompile, BuildToolsArgument::SkipCompile) => true,
            (BuildToolsArgument::GenerateSource, BuildToolsArgument::GenerateSource) => true,
            (BuildToolsArgument::GenerateDocs, BuildToolsArgument::GenerateDocs) => true,
            (BuildToolsArgument::Dev, BuildToolsArgument::Dev) => true,
            (BuildToolsArgument::Experimental, BuildToolsArgument::Experimental) => true,
            (BuildToolsArgument::OutputDir(left), BuildToolsArgument::OutputDir(right)) => *left
                == *right,
            (BuildToolsArgument::FinalName(left), BuildToolsArgument::FinalName(right)) => *left
                == *right,
            (
                BuildToolsArgument::PullRequest(left, left_id),
                BuildToolsArgument::PullRequest(right, right_id),
            ) => *left == *right && *left_id == *right_id,
            (BuildToolsArgument::Compile(left), BuildToolsArgument::Compile(right)) => same_targets(
                left,
                right,
            ),
            (BuildToolsArgument::CompileIfChanged, BuildToolsArgument::CompileIfChanged) => true,
            (BuildToolsArgument::NoGui, BuildToolsArgument::NoGui) => true,
            _ => false,
        }
    }

    /// The option that the argument sets.
    pub fn kind(&self) -> (kind: ArgumentKind)
        ensures
            kind == self@.kind(),
    {
        match self {
            BuildToolsArgument::Remapped => ArgumentKind::Remapped,
            BuildToolsArgument::Rev(_) => ArgumentKind::Rev,
            BuildToolsArgument::DisableCert => ArgumentKind::DisableCert,
            BuildToolsArgument::DisableJavaCheck => ArgumentKind::DisableJavaCheck,
            BuildToolsArgument::DontUpdate => ArgumentKind::DontUpdate,
            BuildToolsArgument::SkipCompile => ArgumentKind::SkipCompile,
            BuildToolsArgument::GenerateSource => ArgumentKind::GenerateSource,
            BuildToolsArgument::GenerateDocs => ArgumentKind::GenerateDocs,
            BuildToolsArgument::Dev => ArgumentKind::Dev,
            BuildToolsArgument::Experimental => ArgumentKind::Experimental,
            BuildToolsArgument::OutputDir(_) => ArgumentKind::OutputDir,
            BuildToolsArgument::FinalName(_) => ArgumentKind::FinalName,
            BuildToolsArgument::PullRequest(_, _) => ArgumentKind::PullRequest,
            BuildToolsArgument::Compile(_) => ArgumentKind::Compile,
            BuildToolsArgument::CompileIfChanged => ArgumentKind::CompileIfChanged,
            BuildToolsArgument::NoGui => ArgumentKind::NoGui,
        }
    }

    /// Writes the argument as BuildTools expects it on its command line.
    pub fn to_string(&self) -> (text: String)
        ensures
            text@ == self@.rendered(),
    {
        match self {
            BuildToolsArgument::Remapped => String::from_str("--remapped"),
            BuildToolsArgument::Rev(rev) => String::from_str("--rev ").concat(rev.as_str()),
            BuildToolsArgument::DisableCert => String::from_str("--disable-cert"),
            BuildToolsArgument::DisableJavaCheck => String::from_str("--disable-java-check"),
            BuildToolsArgument::DontUpdate => String::from_str("--dont-update"),
            BuildToolsArgument::SkipCompile => String::from_str("--skip-compile"),
            BuildToolsArgument::GenerateSource => String::from_str("--generate-source"),
            BuildToolsArgument::GenerateDocs => String::from_str("--generate-docs"),
            BuildToolsArgument::Dev => String::from_str("--dev"),
            BuildToolsArgument::Experimental => String::from_str("--experimental"),
            BuildToolsArgument::OutputDir(path) => String::from_str("--output-dir ").concat(
                path.as_str(),
            ),
            BuildToolsArgument::FinalName(name) => String::from_str("--final-name ").concat(
                name.as_str(),
            ),
            BuildToolsArgument::PullRequest(repo, id) => {
                let number = decimal_string(*id as u64);
                String::from_str("--pull-request ").concat(repo.as_str()).concat(":").concat(
                    number.as_str(),
                )
            },
            BuildToolsArgument::Compile(targets) => {
                let names = joined_names(targets);
                String::from_str("--compile ").concat(names.as_str())
            },
            BuildToolsArgument::CompileIfChanged => String::from_str("--compile-if-changed"),
            BuildToolsArgument::NoGui => String::from_str("--nogui"),
        }
    }
}

impl Clone for BuildToolsArgument {
    fn clone(&self) -> (copy: Self)
        ensures
            copy@ == self@,
    {
        match self {
            BuildToolsArgument::Remapped => BuildToolsArgument::Remapped,
            BuildToolsArgument::Rev(rev) => BuildToolsArgument::Rev(rev.clone()),
            BuildToolsArgument::DisableCert => BuildToolsArgument::DisableCert,
            BuildToolsArgument::DisableJavaCheck => BuildToolsArgument::DisableJavaCheck,
            BuildToolsArgument::DontUpdate => BuildToolsArgument::DontUpdate,
            BuildToolsArgument::SkipCompile => BuildToolsArgument::SkipCompile,
            BuildToolsArgument::GenerateSource => BuildToolsArgument::GenerateSource,
            BuildToolsArgument::GenerateDocs => BuildToolsArgument::GenerateDocs,
            BuildToolsArgument::Dev => BuildToolsArgument::Dev,
            BuildToolsArgument::Experimental => BuildToolsArgument::Experimental,
            BuildToolsArgument::OutputDir(path) => BuildToolsArgument::OutputDir(path.clone()),
            BuildToolsArgument::FinalName(name) => BuildToolsArgument::FinalName(name.clone()),
            BuildToolsArgument::PullRequest(repo, id) => BuildToolsArgument::PullRequest(
                repo.clone(),
                *id,
            ),
            BuildToolsArgument::Compile(targets) => BuildToolsArgument::Compile(targets.clone()),
            BuildToolsArgument::CompileIfChanged => BuildToolsArgument::CompileIfChanged,
            BuildToolsArgument::NoGui => BuildToolsArgument::NoGui,
        }
    }
}

} // verus!
