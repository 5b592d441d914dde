//! The commands of the benchmark program and the tasks each one runs.

use vstd::prelude::*;

verus! {

/// The parsed command line.
pub struct Cli {
    pub command: Commands,
}

/// The commands of the program.
#[derive(Debug, Clone, Copy, PartialEq, Eq, Structural)]
pub enum Commands {
    /// Generate bash completions
    GenerateBashCompletions,
    /// Generate zsh completions
    GenerateZshCompletions,
    /// Generate fish completions
    GenerateFishCompletions,
    /// Grabs the datasets used for benchmarking
    GrabData,
    /// Runs the benchmark
    Benchmark,
    /// Prepares the directories so other programs can prepare their datasets
    PrepDirs,
    /// Runs it all
    Run,
}

/// A shell that completions are generated for.
#[derive(Debug, Clone, Copy, PartialEq, Eq, Structural)]
pub enum Shell {
    Bash,
    Zsh,
    Fish,
}

/// One unit of work of a command.
#[derive(Debug, Clone, Copy, PartialEq, Eq, Structural)]
pub enum Task {
    PrepareDirectories,
    BuildCorpus,
    RunBenchmark,
    Completions(Shell),
}

/// The tasks of `command`, in order.
pub open spec fn command_tasks(command: Commands) -> Seq<Task> {
    match command {
        Commands::GenerateBashCompletions => seq![Task::Completions(Shell::Bash)],
        Commands::GenerateZshCompletions => seq![Task::Completions(Shell::Zsh)],
        Commands::GenerateFishCompletions => seq![Task::Completions(Shell::Fish)],
        Commands::GrabData => seq![Task::BuildCorpus],
        Commands::Benchmark => seq![Task::RunBenchmark],
        Commands::PrepDirs => seq![Task::PrepareDirectories],
        Commands::Run => seq![Task::PrepareDirectories, Task::BuildCorpus, Task::RunBenchmark],
    }
}

impl Cli {
    /// The tasks that the parsed command runs, in order; `run` prepares the
    /// directories, builds the corpus and benchmarks, in that sequence.
    pub fn tasks(&self) -> (r: Vec<Task>)
        ensures
            r@ == command_tasks(self.command),
    {
        let r = match self.command {
            Commands::GenerateBashCompletions => vec![Task::Completions(Shell::Bash)],
            Commands::GenerateZshCompletions => vec![Task::Completions(Shell::Zsh)],
            Commands::GenerateFishCompletions => vec![Task::Completions(Shell::Fish)],
            Commands::GrabData => vec![Task::BuildCorpus],
            Commands::Benchmark => vec![Task::RunBenchmark],
            Commands::PrepDirs => vec![Task::PrepareDirectories],
            Commands::Run => vec![Task::PrepareDirectories, Task::BuildCorpus, Task::RunBenchmark],
        };
        assert(r@ =~= command_tasks(self.command));
        r
    }
}

} // verus!
