use vstd::prelude::*;
use vstd::string::*;

verus! {

/// The subcommands of the program.
#[derive(Debug, Clone)]
pub enum Commands {
    /// Bring notes into a service.
    Import { to: String },
    /// Take notes out of a service, into `output_dir`.
    Export { from: String, output_dir: String },
}

/// What a subcommand asks the program to do.
#[derive(Debug, Clone)]
pub enum Task {
    /// Export the account's documents into `output_dir`.
    ExportWiz { output_dir: String },
    /// The source named is not one that can be exported from.
    UnsupportedSource { from: String },
    /// Importing is not offered.
    ImportUnsupported,
}

impl Commands {
    /// The task that this subcommand stands for.
    pub open spec fn spec_task(self) -> Task {
        match self {
            Commands::Import { to } => Task::ImportUnsupported,
            Commands::Export { from, output_dir } => if from@ == "wiz"@ {
                Task::ExportWiz { output_dir }
            } else {
                Task::UnsupportedSource { from }
            },
        }
    }

    /// Picks the task: an export runs only from the one source that is
    /// known; anything else is reported and nothing is done.
    pub fn task(self) -> (t: Task)
        ensures
            t == self.spec_task(),
    {
        match self {
            Commands::Import { to } => Task::ImportUnsupported,
            Commands::Export { from, output_dir } => {
                let known = String::from_str("wiz");
                if from == known {
                    Task::ExportWiz { output_dir }
                } else {
                    Task::UnsupportedSource { from }
                }
            },
        }
    }
}

} // verus!
