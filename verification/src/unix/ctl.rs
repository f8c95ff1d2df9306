//! A handle on one control.

use crate::ctl_value::CtlValue;
use crate::unix::ctl_iter::CtlIter;
use crate::unix::funcs::{
    name2oid, oid2description, oid2name, oidfmt, set_oid_value, spec_by_name, value_oid,
    value_oid_as,
};
use crate::unix::op::{begin, spec_begin, Fetch, Goal, GoalView, Step, Want, WantView};
use crate::unix::raw::copy_path;
use vstd::layout::size_of;
use vstd::prelude::*;
use vstd::string::*;

verus! {

/// A control, known by its path. Nothing of the control is kept: every
/// operation asks the kernel afresh.
#[derive(Debug, Clone, PartialEq)]
pub struct Ctl {
    pub oid: Vec<i32>,
}

impl View for Ctl {
    type V = Seq<i32>;

    open spec fn view(&self) -> Seq<i32> {
        self.oid@
    }
}

impl Ctl {
    /// Starts to look up the control named `name`: the operation gives its
    /// path.
    pub fn new(name: &str) -> (res: Step)
        ensures
            res@ == spec_by_name(name@, GoalView::Oid),
    {
        name2oid(name)
    }

    /// Starts to fetch the name of this control.
    pub fn name(&self) -> (res: Step)
        ensures
            res@ == spec_begin(GoalView::Name, self@),
    {
        oid2name(&self.oid)
    }

    /// Starts to fetch the type of this control.
    pub fn value_type(&self) -> (res: Step)
        ensures
            res@ == spec_begin(GoalView::Control(WantView::Type), self@),
    {
        begin(Goal::Control(Want::Type), copy_path(&self.oid))
    }

    /// Starts to fetch the description of this control.
    pub fn description(&self) -> (res: Step)
        ensures
            res@ == spec_begin(GoalView::Description, self@),
    {
        oid2description(&self.oid)
    }

    /// Starts to read the value of this control.
    pub fn value(&self) -> (res: Step)
        ensures
            res@ == spec_begin(GoalView::Control(WantView::Read(Fetch::Value)), self@),
    {
        value_oid(&self.oid)
    }

    /// Starts to read the value of this control as text.
    pub fn value_string(&self) -> (res: Step)
        ensures
            res@ == spec_begin(GoalView::Control(WantView::Read(Fetch::Text)), self@),
    {
        begin(Goal::Control(Want::Read(Fetch::Text)), copy_path(&self.oid))
    }

    /// Starts to read this control as a record of type `T`.
    pub fn value_as<T>(&self) -> (res: Step)
        ensures
            res@ == spec_begin(
                GoalView::Control(WantView::Read(Fetch::Payload { size: size_of::<T>() as usize })),
                self@,
            ),
    {
        value_oid_as::<T>(&self.oid)
    }

    /// Starts to write `value` to this control. The operation gives the value
    /// that the control holds afterwards.
    pub fn set_value(&self, value: CtlValue) -> (res: Step)
        ensures
            res@ == spec_begin(
                GoalView::Control(WantView::Store { value: value@, then: Fetch::Value }),
                self@,
            ),
    {
        set_oid_value(&self.oid, value)
    }

    /// Starts to write the value that `value` spells in the type of this
    /// control. The operation gives the value that the control holds
    /// afterwards, as text.
    pub fn set_value_string(&self, value: &str) -> (res: Step)
        ensures
            res@ == spec_begin(GoalView::Control(WantView::StoreText { text: value@ }), self@),
    {
        begin(Goal::Control(Want::StoreText { text: value.to_owned() }), copy_path(&self.oid))
    }

    /// Starts to fetch the access flags of this control.
    pub fn flags(&self) -> (res: Step)
        ensures
            res@ == spec_begin(GoalView::Control(WantView::Flags), self@),
    {
        begin(Goal::Control(Want::Flags), copy_path(&self.oid))
    }

    /// Starts to fetch the descriptor of this control.
    pub fn info(&self) -> (res: Step)
        ensures
            res@ == spec_begin(GoalView::Control(WantView::Info), self@),
    {
        oidfmt(&self.oid)
    }

    /// The walk over the controls below this one.
    pub fn into_iter(self) -> (res: CtlIter)
        ensures
            res@ == (crate::unix::ctl_iter::IterView::Active { base: self@, current: self@ }),
    {
        CtlIter::below(self)
    }
}

} // verus!
