use vstd::prelude::*;

verus! {

/// Where the list of files to show comes from: standard input, split on a
/// separator, or the command-line arguments.
#[derive(Debug, PartialEq)]
pub enum FilesInput {
    Stdin(String),
    Args,
}

impl FilesInput {
    /// Decide where file names come from. Reading them from standard input
    /// must be asked for by the flag and is only done when standard input is
    /// not a terminal; the separator defaults to a newline.
    pub fn deduce(stdin_is_terminal: bool, read_stdin_flag: bool, separator: Option<String>) -> (r:
        FilesInput)
        ensures
            (stdin_is_terminal || !read_stdin_flag) ==> r is Args,
            (!stdin_is_terminal && read_stdin_flag) ==> (r matches FilesInput::Stdin(s) && s@
                == match separator {
                Some(sep) => sep@,
                None => seq!['\n'],
            }),
    {
        if stdin_is_terminal || !read_stdin_flag {
            FilesInput::Args
        } else {
            let sep = match separator {
                Some(s) => s,
                None => {
                    let nl = String::from_str("\n");
                    proof {
                        reveal_strlit("\n");
                        assert(nl@ =~= seq!['\n']);
                    }
                    nl
                },
            };
            FilesInput::Stdin(sep)
        }
    }
}

} // verus!
