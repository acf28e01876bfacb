//! Interpolation of command-line arguments into task command templates.

use vstd::prelude::*;
use vstd::string::*;

use crate::text::{join_with, replace_str, spec_join_with, spec_replace};

verus! {

/// The placeholder replaced by the caller's arguments.
pub open spec fn spec_args_placeholder() -> Seq<char> {
    "{{.CLI_ARGS}}"@
}

/// One command template with every `{{.CLI_ARGS}}` placeholder replaced by
/// the arguments joined with single spaces.
pub open spec fn spec_interpolate_one(command: Seq<char>, args: Seq<Seq<char>>) -> Seq<char> {
    spec_replace(command, spec_args_placeholder(), spec_join_with(args, " "@))
}

/// Replaces the `{{.CLI_ARGS}}` placeholder in every command of
/// `command_list` by `cli_args` joined with spaces. Commands without the
/// placeholder pass through unchanged.
pub fn interpolate_command(command_list: &[String], cli_args: &[String]) -> (r: Vec<String>)
    ensures
        r.deep_view().len() == command_list.deep_view().len(),
        forall|i: int|
            0 <= i < command_list@.len() ==> r.deep_view()[i] == spec_interpolate_one(
                #[trigger] command_list.deep_view()[i],
                cli_args.deep_view(),
            ),
{
    let args_str = join_with(cli_args, " ");
    let placeholder = "{{.CLI_ARGS}}";
    proof {
        reveal_strlit("{{.CLI_ARGS}}");
    }
    let mut out: Vec<String> = Vec::new();
    let mut j: usize = 0;
    while j < command_list.len()
        invariant
            0 <= j <= command_list@.len(),
            args_str@ == spec_join_with(cli_args.deep_view(), " "@),
            placeholder@ == spec_args_placeholder(),
            placeholder@.len() > 0,
            out.deep_view().len() == j,
            forall|k: int|
                0 <= k < j ==> out.deep_view()[k] == spec_interpolate_one(
                    #[trigger] command_list.deep_view()[k],
                    cli_args.deep_view(),
                ),
        decreases command_list@.len() - j,
    {
        let replaced = replace_str(command_list[j].as_str(), placeholder, args_str.as_str());
        out.push(replaced);
        j += 1;
    }
    out
}

} // verus!
