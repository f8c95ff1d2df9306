//! A handle on one control.

use crate::ctl_error::SysctlError;
use crate::ctl_value::CtlValue;
use crate::linux::ctl_iter::{entries_view, CtlIter, IterView};
use crate::linux::file::{
    read_file, spec_read_file, spec_stat_file, spec_write_file, stat_file, write_file, Fetch,
    Probe, Step,
};
use crate::linux::funcs::{spec_string_to_name, string_to_name};
use crate::text::{replace_char, replaced};
use vstd::prelude::*;
use vstd::string::*;

verus! {

/// A control, known by its name. Nothing of the control is kept: every
/// operation goes to its file afresh.
#[derive(Debug, Clone, PartialEq, Eq)]
pub struct Ctl {
    name: String,
}

impl View for Ctl {
    type V = Seq<char>;

    closed spec fn view(&self) -> Seq<char> {
        self.name@
    }
}

/// The path of the file of the control named `name`: below `/proc/sys`, with
/// a directory for each part of the name.
pub open spec fn spec_path(name: Seq<char>) -> Seq<char> {
    "/proc/sys/"@ + replaced(name, '.', '/')
}

impl Ctl {
    /// The control whose name or whose file's path is `name`.
    pub fn new(name: &str) -> (res: Result<Ctl, SysctlError>)
        ensures
            res matches Ok(ctl) && ctl@ == spec_string_to_name(name@),
    {
        Ok(Ctl { name: string_to_name(name) })
    }

    /// The path of the file of this control.
    pub fn path(&self) -> (res: String)
        ensures
            res@ == spec_path(self@),
    {
        let inner = replace_char(self.name.as_str(), '.', '/');
        String::from_str("/proc/sys/").concat(inner.as_str())
    }

    /// The name of this control.
    pub fn name(&self) -> (res: Result<String, SysctlError>)
        ensures
            res matches Ok(name) && name@ == self@,
    {
        Ok(self.name.clone())
    }

    /// Starts to fetch the type of this control: a directory is a node, and
    /// every file holds text.
    pub fn value_type(&self) -> (res: Step)
        ensures
            res@ == spec_stat_file(spec_path(self@), Probe::Type),
    {
        stat_file(self.path(), Probe::Type)
    }

    /// The description of this control. The file system has none to give.
    pub fn description(&self) -> (res: Result<String, SysctlError>)
        ensures
            res matches Ok(text) && text@ == "[N/A]"@,
    {
        Ok("[N/A]".to_owned())
    }

    /// Starts to read the value of this control.
    pub fn value(&self) -> (res: Step)
        ensures
            res@ == spec_read_file(spec_path(self@), Fetch::Value),
    {
        read_file(self.path(), Fetch::Value)
    }

    /// Starts to read the value of this control as text.
    pub fn value_string(&self) -> (res: Step)
        ensures
            res@ == spec_read_file(spec_path(self@), Fetch::Text),
    {
        read_file(self.path(), Fetch::Text)
    }

    /// Reads this control as a record. The file system holds text only.
    pub fn value_as<T>(&self) -> (res: Result<Vec<u8>, SysctlError>)
        ensures
            res matches Err(error) && error@ == crate::ctl_error::ErrorView::NotSupported,
    {
        Err(SysctlError::NotSupported)
    }

    /// Starts to write `value` to this control. The operation gives the value
    /// that the control holds afterwards.
    pub fn set_value(&self, value: CtlValue) -> (res: Step)
        ensures
            res@ == spec_write_file(spec_path(self@), value@, Fetch::Value),
    {
        write_file(self.path(), value, Fetch::Value)
    }

    /// Starts to write the text `value` to this control. The operation gives
    /// the value that the control holds afterwards, as text.
    pub fn set_value_string(&self, value: &str) -> (res: Step)
        ensures
            res@ == spec_write_file(
                spec_path(self@),
                crate::ctl_value::ValueView::String(value@),
                Fetch::Reread,
            ),
    {
        write_file(self.path(), CtlValue::String(value.to_owned()), Fetch::Reread)
    }

    /// Starts to fetch the access flags of this control.
    pub fn flags(&self) -> (res: Step)
        ensures
            res@ == spec_stat_file(spec_path(self@), Probe::Flags),
    {
        stat_file(self.path(), Probe::Flags)
    }

    /// Starts to fetch the descriptor of this control.
    pub fn info(&self) -> (res: Step)
        ensures
            res@ == spec_stat_file(spec_path(self@), Probe::Info),
    {
        stat_file(self.path(), Probe::Info)
    }

    /// The walk over the controls below this one: `entries` are the entries
    /// of its directory, the directory itself first.
    pub fn into_iter(self, entries: Vec<Option<String>>) -> (res: CtlIter)
        ensures
            res@ == (IterView {
                entries: entries_view(entries@),
                base: spec_path(self@),
                index: 0,
            }),
    {
        CtlIter::below(self, entries)
    }
}

} // verus!
