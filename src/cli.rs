use vstd::prelude::*;

verus! {

/// What the program does with its command line.
#[derive(Clone, Debug)]
pub enum CliAction {
    /// Print this help text and exit successfully.
    ShowHelp(String),
    /// Print the version and exit successfully.
    ShowVersion,
    /// Run, watching the given markdown file from the start, if any.
    Run(Option<String>),
}

/// The file to watch from the start: an absent or empty value means none.
pub open spec fn initial_file_spec(file: Option<String>) -> Option<String> {
    match file {
        Some(p) => if p@.len() > 0 {
            Some(p)
        } else {
            None
        },
        None => None,
    }
}

/// Help wins over version, version over running.
pub open spec fn cli_spec(help: Option<String>, version_requested: bool, file: Option<String>) -> CliAction {
    match help {
        Some(h) => CliAction::ShowHelp(h),
        None => if version_requested {
            CliAction::ShowVersion
        } else {
            CliAction::Run(initial_file_spec(file))
        },
    }
}

/// Decides what to do from the parsed arguments.
pub fn decide_cli(help: Option<String>, version_requested: bool, file: Option<String>) -> (r:
    CliAction)
    ensures
        r == cli_spec(help, version_requested, file),
{
    match help {
        Some(h) => CliAction::ShowHelp(h),
        None => {
            if version_requested {
                CliAction::ShowVersion
            } else {
                match file {
                    Some(p) => {
                        if p.as_str().unicode_len() > 0 {
                            CliAction::Run(Some(p))
                        } else {
                            CliAction::Run(None)
                        }
                    },
                    None => CliAction::Run(None),
                }
            }
        },
    }
}

} // verus!
