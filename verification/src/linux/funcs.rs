//! Names and paths of controls, and the operations that start from a name.

use crate::ctl_error::SysctlError;
use crate::ctl_value::CtlValue;
use crate::linux::ctl::Ctl;
use crate::linux::file::{
    read_file, spec_read_file, spec_write_file, write_file, Fetch, Step,
};
use crate::text::{contains_char, has_prefix, replace_char, replaced, starts_with};
use vstd::prelude::*;
use vstd::string::*;

verus! {

/// The path of the file for the control named `name`: a path below
/// `/proc/sys` is taken as it is, a name with a slash is taken for a path
/// from there, and in any other name the full stops part the directories.
pub open spec fn spec_fix_path(name: Seq<char>) -> Seq<char> {
    if has_prefix(name, "/proc/sys"@) {
        name
    } else if name.contains('/') {
        "/proc/sys/"@ + name
    } else {
        "/proc/sys/"@ + replaced(name, '.', '/')
    }
}

/// The name of the control whose file has the path `path`: what follows
/// `/proc/sys/`, with full stops in the place of the slashes.
pub open spec fn spec_string_to_name(path: Seq<char>) -> Seq<char> {
    if has_prefix(path, "/proc/sys/"@) {
        replaced(path.subrange(10, path.len() as int), '/', '.')
    } else {
        replaced(path, '/', '.')
    }
}

/// The path of the file for the control named `name`.
pub fn fix_path(name: &str) -> (res: String)
    ensures
        res@ == spec_fix_path(name@),
{
    if starts_with(name, "/proc/sys") {
        name.to_owned()
    } else if contains_char(name, '/') {
        String::from_str("/proc/sys/").concat(name)
    } else {
        let inner = replace_char(name, '.', '/');
        String::from_str("/proc/sys/").concat(inner.as_str())
    }
}

/// The name of the control whose file has the path `path`.
pub fn string_to_name(path: &str) -> (res: String)
    ensures
        res@ == spec_string_to_name(path@),
{
    if starts_with(path, "/proc/sys/") {
        proof {
            reveal_strlit("/proc/sys/");
        }
        let len = path.unicode_len();
        replace_char(path.substring_char(10, len), '/', '.')
    } else {
        replace_char(path, '/', '.')
    }
}

/// Starts to read the value of the control named `name`.
pub fn value(name: &str) -> (res: Step)
    ensures
        res@ == spec_read_file(spec_fix_path(name@), Fetch::Value),
{
    read_file(fix_path(name), Fetch::Value)
}

/// Starts to write `v` to the control named `name`. The operation gives the
/// value that the control holds afterwards. Only text can be written.
pub fn set_value(name: &str, v: CtlValue) -> (res: Step)
    ensures
        res@ == spec_write_file(spec_fix_path(name@), v@, Fetch::Value),
{
    write_file(fix_path(name), v, Fetch::Value)
}

/// The control that follows `ctl`: this backend knows no order but that of a
/// walk, and gives the control with the empty name.
pub fn next_ctl(ctl: &Ctl) -> (res: Result<Ctl, SysctlError>)
    ensures
        res matches Ok(next) && next@ == spec_string_to_name(""@),
{
    Ctl::new("")
}

} // verus!
