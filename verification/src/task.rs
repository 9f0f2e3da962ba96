//! One run of BuildTools: the jar, its arguments, and the command that
//! launches it.

use tokio::process::Command;
use vstd::prelude::*;
use vstd::string::StringExecFns;

use crate::argument::{models, ArgumentModel, BuildToolsArgument};
use crate::text::{split, split_on, texts};

verus! {

#[verifier::external_type_specification]
#[verifier::external_body]
pub struct ExCommand(tokio::process::Command);

/// The program that a command launches.
pub uninterp spec fn command_program(command: Command) -> Seq<char>;

/// The arguments that a command hands to its program, in order.
pub uninterp spec fn command_args(command: Command) -> Seq<Seq<char>>;

/// Whether a text can be handed to a process as it is: one that holds the
/// character NUL cannot, since it ends a C string.
pub open spec fn passable(text: Seq<char>) -> bool {
    !text.contains('\0')
}

/// Whether each of the texts can be handed to a process as it is.
pub open spec fn all_passable(list: Seq<Seq<char>>) -> bool {
    forall|i: int| 0 <= i < list.len() ==> passable(#[trigger] list[i])
}

/// `tokio::process::Command::new`. Trusted: the new command has no arguments,
/// and its program is the one given, provided that can be passed as it is.
#[verifier::external_body]
fn new_command(program: &str) -> (command: Command)
    ensures
        passable(program@) ==> command_program(command) == program@,
        command_args(command) == Seq::<Seq<char>>::empty(),
{
    Command::new(program)
}

/// `tokio::process::Command::arg`. Trusted: the program stays, and the
/// argument is added behind those already there, provided it can be passed as
/// it is.
#[verifier::external_body]
fn add_arg(command: &mut Command, arg: &str)
    ensures
        command_program(*final(command)) == command_program(*old(command)),
        passable(arg@) ==> command_args(*final(command)) == command_args(*old(command)).push(
            arg@,
        ),
{
    command.arg(arg);
}

/// The command-line tokens of the arguments: each argument is rendered and
/// split at every space, and the pieces follow one another in the arguments'
/// order.
pub open spec fn tokens(arguments: Seq<ArgumentModel>) -> Seq<Seq<char>>
    decreases arguments.len(),
{
    if arguments.len() == 0 {
        Seq::empty()
    } else {
        tokens(arguments.drop_last()) + split(arguments.last().rendered(), ' ')
    }
}

/// The jar to run and the arguments to run it with.
pub struct BuildToolsTask {
    pub jar_file: String,
    pub args: Vec<BuildToolsArgument>,
}

impl BuildToolsTask {
    /// What `java` is called with: `-jar`, the jar, and the arguments' tokens.
    pub open spec fn spec_java_arguments(&self) -> Seq<Seq<char>> {
        seq!["-jar"@, self.jar_file@] + tokens(models(self.args@))
    }

    /// What `java` is called with.
    pub fn java_arguments(&self) -> (list: Vec<String>)
        ensures
            texts(list@) == self.spec_java_arguments(),
    {
        let mut list: Vec<String> = Vec::new();
        list.push(String::from_str("-jar"));
        list.push(self.jar_file.clone());
        let mut i: usize = 0;
        while i < self.args.len()
            invariant
                i <= self.args.len(),
                texts(list@) == seq!["-jar"@, self.jar_file@] + tokens(
                    models(self.args@.take(i as int)),
                ),
            decreases self.args.len() - i,
        {
            let text = self.args[i].to_string();
            let mut pieces = split_on(text.as_str(), ' ');
            let ghost before = texts(list@);
            let ghost added = texts(pieces@);
            list.append(&mut pieces);
            proof {
                let seen = models(self.args@.take(i + 1));
                assert(seen.drop_last() =~= models(self.args@.take(i as int)));
                assert(before + added =~= seq!["-jar"@, self.jar_file@] + tokens(seen));
            }
            i = i + 1;
        }
        assert(self.args@.take(i as int) =~= self.args@);
        list
    }

    /// The command that runs the jar: `java`, with `-jar`, the jar and the
    /// arguments' tokens.
    pub fn command(&self) -> (command: Command)
        ensures
            command_program(command) == "java"@,
            all_passable(self.spec_java_arguments()) ==> command_args(command) == self.spec_java_arguments(),
    {
        let list = self.java_arguments();
        let mut command = new_command("java");
        proof {
            reveal_strlit("java");
        }
        let mut i: usize = 0;
        while i < list.len()
            invariant
                i <= list.len(),
                command_program(command) == "java"@,
                all_passable(texts(list@).take(i as int)) ==> command_args(command) == texts(
                    list@,
                ).take(i as int),
            decreases list.len() - i,
        {
            let ghost after = texts(list@).take(i + 1);
            add_arg(&mut command, list[i].as_str());
            proof {
                if all_passable(after) {
                    assert(passable(after[i as int]));
                }
            }
            i = i + 1;
        }
        command
    }
}

} // verus!
