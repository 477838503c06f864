//! Paths of the serial ports the window talks to before a device is chosen.

use vstd::prelude::*;
use vstd::string::*;
use crate::text::{trimmed, trim_white_space, all_white_space, is_white_space, trimmed_removes_exactly_surrounding_white_space};

verus! {

/// Device path the window suggests, and whose hang-up on close it disables.
pub const DEFAULT_DEVICE_PATH: &'static str = "/dev/ttyACM0";

/// Path of the placeholder pseudo-terminal named by the output of `mktemp`.
pub open spec fn placeholder_path_of(mktemp_output: Seq<char>) -> Seq<char> {
    trimmed(mktemp_output)
}

/// The `socat` address that creates a raw, non-echoing pseudo-terminal
/// linked at the path named by the output of `mktemp`.
pub open spec fn socat_link_of(mktemp_output: Seq<char>) -> Seq<char> {
    "pty,raw,echo=0,link="@ + placeholder_path_of(mktemp_output)
}

/// The placeholder port's path: the output of `mktemp` without its
/// surrounding white space (such as the final newline).
pub fn placeholder_port_path(mktemp_output: &str) -> (path: String)
    ensures
        path@ == placeholder_path_of(mktemp_output@),
{
    trim_white_space(mktemp_output)
}

/// The `socat` address under which the placeholder pseudo-terminal named
/// by the output of `mktemp` is created.
pub fn socat_link_arg(mktemp_output: &str) -> (arg: String)
    ensures
        arg@ == socat_link_of(mktemp_output@),
{
    let path = placeholder_port_path(mktemp_output);
    String::from_str("pty,raw,echo=0,link=").concat(path.as_str())
}

/// The placeholder path is the output of `mktemp` with exactly its
/// surrounding white space taken away: the output is white space, then the
/// path, then white space, and the path neither starts nor ends with white
/// space. Nothing else of the output is dropped.
pub proof fn placeholder_path_is_output_without_surrounding_space(mktemp_output: Seq<char>)
    ensures
        exists|front: Seq<char>, back: Seq<char>|
            all_white_space(front) && all_white_space(back) && mktemp_output == front
                + placeholder_path_of(mktemp_output) + back,
        placeholder_path_of(mktemp_output).len() > 0 ==> !is_white_space(placeholder_path_of(mktemp_output)[0])
            && !is_white_space(
            placeholder_path_of(mktemp_output)[placeholder_path_of(mktemp_output).len() - 1],
        ),
{
    trimmed_removes_exactly_surrounding_white_space(mktemp_output);
}

/// The socat address is the fixed `pty,raw,echo=0,link=` options followed by
/// the whole placeholder path.
pub proof fn socat_link_names_placeholder_path(mktemp_output: Seq<char>)
    ensures
        socat_link_of(mktemp_output).take(20) == "pty,raw,echo=0,link="@,
        socat_link_of(mktemp_output).skip(20) == placeholder_path_of(mktemp_output),
{
    reveal_strlit("pty,raw,echo=0,link=");
    assert(socat_link_of(mktemp_output).take(20) =~= "pty,raw,echo=0,link="@);
    assert(socat_link_of(mktemp_output).skip(20) =~= placeholder_path_of(mktemp_output));
}

} // verus!
