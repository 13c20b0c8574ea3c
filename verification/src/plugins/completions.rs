//! Plugin for generating shell completion scripts.
//!
//! Only the sub-command description lives here: generating the script
//! text for a concrete shell is the caller's job, since it walks the
//! full command tree of the command-line parser.

use vstd::prelude::*;

use crate::plugins::ArgKind;
use crate::plugins::ArgSpec;
use crate::plugins::CommandDescriptor;
use crate::plugins::Plugin;

verus! {

pub struct CompletionsPlugin;

impl Plugin for CompletionsPlugin {
    /// The `completions` sub-command: one required positional shell name.
    fn command(&self) -> (r: CommandDescriptor)
        ensures
            r.name@ == "completions"@,
            r.summary@.len() > 0,
            r.long_help matches Some(h) && h@.len() > 0,
            r.args@.len() == 1,
            r.args@[0].id@ == "shell"@,
            r.args@[0].kind == ArgKind::Positional,
            r.args@[0].required,
            r.args@[0].depends_on is None,
    {
        let mut args: Vec<ArgSpec> = Vec::new();
        args.push(
            ArgSpec {
                id: "shell".to_owned(),
                kind: ArgKind::Positional,
                required: true,
                depends_on: None,
            },
        );
        let long_help =
            "Generate shell completion scripts for trogue.\n\nTo install completions:\n\nBash:\n  trogue completions bash >> ~/.bashrc\n  source ~/.bashrc\n\nZsh:\n  trogue completions zsh > ~/.zsh/completions/_trogue\n  Add 'fpath=(~/.zsh/completions $fpath)' to ~/.zshrc\n  source ~/.zshrc";
        proof {
            reveal_strlit("Generate shell completion scripts");
            reveal_strlit(
                "Generate shell completion scripts for trogue.\n\nTo install completions:\n\nBash:\n  trogue completions bash >> ~/.bashrc\n  source ~/.bashrc\n\nZsh:\n  trogue completions zsh > ~/.zsh/completions/_trogue\n  Add 'fpath=(~/.zsh/completions $fpath)' to ~/.zshrc\n  source ~/.zshrc",
            );
        }
        CommandDescriptor {
            name: "completions".to_owned(),
            summary: "Generate shell completion scripts".to_owned(),
            long_help: Some(long_help.to_owned()),
            args,
        }
    }
}

} // verus!
