//! The safety classifier: which redirected commands write nothing but what
//! stands in the script.

use crate::capture::{find_in_slot, first_in_slot, Capture, CaptureModel, Captures};
use crate::detector::GitHubEnv;
use crate::text::str_eq;
use vstd::prelude::*;

verus! {

/// Whether an argument is a literal: a bare word, a single-quoted string, or a
/// node whose only named child is literal string content, which is how a
/// double-quoted string with no expansion inside is laid out.
///
/// A concatenation of literals is not one of these shapes, and neither is
/// anything that holds an expansion or a command substitution. Template
/// expressions inside a literal are not looked at.
pub open spec fn arg_is_static(arg: CaptureModel) -> bool {
    ||| arg.kind == "word"@
    ||| arg.kind == "raw_string"@
    ||| (arg.named_child_count == 1 && arg.first_named_child == Some("string_content"@))
}

/// Whether every capture that the argument slot bound is a literal.
pub open spec fn args_are_static(captures: Captures, args: u32) -> bool {
    forall|i: int|
        0 <= i < captures.len() && (#[trigger] captures[i]).index == args ==> arg_is_static(
            captures[i],
        )
}

/// Whether a match is `echo` with nothing but literal arguments: the text of
/// the first capture in the command slot is exactly `echo`, and every capture
/// in the argument slot is a literal. Such a command writes only what the
/// script spells out.
pub open spec fn is_static_echo(captures: Captures, cmd: u32, args: u32) -> bool {
    &&& first_in_slot(captures, cmd) matches Some(command)
    &&& command.text == Some("echo"@)
    &&& args_are_static(captures, args)
}

impl GitHubEnv {
    /// Whether one argument of `echo` is a literal.
    pub fn bash_echo_arg_is_safe(arg: &Capture) -> (safe: bool)
        ensures
            safe == arg_is_static(arg@),
    {
        if str_eq(arg.kind.as_str(), "word") || str_eq(arg.kind.as_str(), "raw_string") {
            return true;
        }
        if arg.named_child_count != 1 {
            return false;
        }
        match &arg.first_named_child {
            Some(kind) => str_eq(kind.as_str(), "string_content"),
            None => false,
        }
    }

    /// Whether every argument of a match, the captures in slot `args`, is a
    /// literal.
    pub fn bash_echo_args_are_safe(captures: &Vec<Capture>, args: u32) -> (safe: bool)
        ensures
            safe == args_are_static(captures.deep_view(), args),
    {
        let ghost all = captures.deep_view();
        let mut i: usize = 0;
        while i < captures.len()
            invariant
                i <= captures.len(),
                all == captures.deep_view(),
                forall|j: int|
                    0 <= j < i && (#[trigger] all[j]).index == args ==> arg_is_static(all[j]),
            decreases captures.len() - i,
        {
            if captures[i].index == args && !Self::bash_echo_arg_is_safe(&captures[i]) {
                assert(all[i as int] == captures[i as int]@);
                return false;
            }
            assert(all[i as int] == captures[i as int]@);
            i += 1;
        }
        true
    }

    /// Whether a match of the redirect pattern is `echo` with nothing but
    /// literal arguments, and so no finding.
    pub fn bash_redirect_is_static_echo(captures: &Vec<Capture>, cmd: u32, args: u32) -> (exempt:
        bool)
        ensures
            exempt == is_static_echo(captures.deep_view(), cmd, args),
    {
        let is_echo = match find_in_slot(captures, cmd) {
            Some(command) => match &command.text {
                Some(text) => str_eq(text.as_str(), "echo"),
                None => false,
            },
            None => false,
        };
        is_echo && Self::bash_echo_args_are_safe(captures, args)
    }
}

/// A redirected command other than `echo` is never exempt, whatever its
/// arguments are.
pub proof fn lemma_other_command_is_not_exempt(captures: Captures, cmd: u32, args: u32)
    requires
        first_in_slot(captures, cmd) matches Some(command) ==> command.text != Some("echo"@),
    ensures
        !is_static_echo(captures, cmd, args),
{
}

/// A redirected `echo` with an argument that is not a literal is never
/// exempt.
pub proof fn lemma_dynamic_argument_is_not_exempt(
    captures: Captures,
    cmd: u32,
    args: u32,
    i: int,
)
    requires
        0 <= i < captures.len(),
        captures[i].index == args,
        !arg_is_static(captures[i]),
    ensures
        !is_static_echo(captures, cmd, args),
{
}

} // verus!
