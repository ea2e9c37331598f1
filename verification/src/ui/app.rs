//! An alternate form layout: the same state machine over a different field
//! set, with every field starting empty.

use vstd::prelude::*;
use crate::digits::{is_digit, is_digit_seq, parse_value, spec_parse_u32};
use crate::nav::{nav_down, nav_up};

verus! {

/// An interactive form: an ordered list of labeled text fields, each holding
/// only ASCII digits, plus the index of the field currently being edited.
pub struct App {
    pub fields: Vec<(&'static str, String)>,
    pub selected: usize,
}

impl App {
    /// Form invariant: at least one field, the cursor in bounds, and every
    /// field value made of ASCII digits only.
    pub open spec fn wf(&self) -> bool {
        &&& self.fields@.len() >= 1
        &&& self.selected < self.fields@.len()
        &&& forall|i: int|
            0 <= i < self.fields@.len() ==> is_digit_seq(#[trigger] self.fields@[i].1@)
    }

    /// Builds the form with its fixed fields, every value empty, cursor on
    /// the first field.
    pub fn new() -> (r: Self)
        ensures
            r.wf(),
            r.selected == 0,
            r.fields@.len() == 6,
            r.fields@[0].0@ == "Num Players"@ && r.fields@[0].1@ == Seq::<char>::empty(),
            r.fields@[1].0@ == "World Size (GB)"@ && r.fields@[1].1@ == Seq::<char>::empty(),
            r.fields@[2].0@ == "RAM (GB)"@ && r.fields@[2].1@ == Seq::<char>::empty(),
            r.fields@[3].0@ == "CPU Cores"@ && r.fields@[3].1@ == Seq::<char>::empty(),
            r.fields@[4].0@ == "Plugins"@ && r.fields@[4].1@ == Seq::<char>::empty(),
            r.fields@[5].0@ == "Bandwidth (Mbps)"@ && r.fields@[5].1@ == Seq::<char>::empty(),
    {
        let mut fields: Vec<(&'static str, String)> = Vec::new();
        fields.push(("Num Players", String::new()));
        fields.push(("World Size (GB)", String::new()));
        fields.push(("RAM (GB)", String::new()));
        fields.push(("CPU Cores", String::new()));
        fields.push(("Plugins", String::new()));
        fields.push(("Bandwidth (Mbps)", String::new()));
        App { fields, selected: 0 }
    }

    /// Moves the cursor one field up; no-op on the first field.
    pub fn move_up(&mut self)
        requires
            old(self).wf(),
        ensures
            final(self).wf(),
            final(self).fields == old(self).fields,
            final(self).selected == nav_up(old(self).selected as nat),
    {
        if self.selected > 0 {
            self.selected = self.selected - 1;
        }
    }

    /// Moves the cursor one field down; no-op on the last field.
    pub fn move_down(&mut self)
        requires
            old(self).wf(),
        ensures
            final(self).wf(),
            final(self).fields == old(self).fields,
            final(self).selected == nav_down(old(self).selected as nat, old(self).fields@.len()),
    {
        if self.selected < self.fields.len() - 1 {
            self.selected = self.selected + 1;
        }
    }

    /// Appends `c` to the selected field's value if `c` is an ASCII digit;
    /// any other character is silently ignored and the form is unchanged.
    pub fn append_digit(&mut self, c: char)
        requires
            old(self).wf(),
        ensures
            final(self).wf(),
            final(self).selected == old(self).selected,
            final(self).fields@.len() == old(self).fields@.len(),
            !is_digit(c) ==> *final(self) == *old(self),
            is_digit(c) ==> final(self).fields@[old(self).selected as int].0 == old(self).fields@[old(self).selected as int].0,
            is_digit(c) ==> final(self).fields@[old(self).selected as int].1@ == old(self).fields@[old(self).selected as int].1@.push(c),
            forall|i: int|
                0 <= i < old(self).fields@.len() && i != old(self).selected ==> final(self).fields@[i] == old(self).fields@[i],
    {
        let cu = c as u32;
        if 48 <= cu && cu <= 57 {
            self.fields[self.selected].1.push(c);
        }
    }

    /// Removes the last character of the selected field's value; no-op when
    /// the value is already empty.
    pub fn backspace(&mut self)
        requires
            old(self).wf(),
        ensures
            final(self).wf(),
            final(self).selected == old(self).selected,
            final(self).fields@.len() == old(self).fields@.len(),
            final(self).fields@[old(self).selected as int].0 == old(self).fields@[old(self).selected as int].0,
            old(self).fields@[old(self).selected as int].1@.len() > 0 ==> final(self).fields@[old(self).selected as int].1@ == old(self).fields@[old(self).selected as int].1@.drop_last(),
            old(self).fields@[old(self).selected as int].1@.len() == 0 ==> *final(self) == *old(self),
            forall|i: int|
                0 <= i < old(self).fields@.len() && i != old(self).selected ==> final(self).fields@[i] == old(self).fields@[i],
    {
        if !self.fields[self.selected].1.as_str().is_empty() {
            let _ = self.fields[self.selected].1.pop();
        }
    }

    /// Reads field `index` as a number; 0 for an empty value or one that does
    /// not fit in `u32`.
    pub fn current_value_as_u32(&self, index: usize) -> (r: u32)
        requires
            index < self.fields@.len(),
        ensures
            r == spec_parse_u32(self.fields@[index as int].1@),
    {
        parse_value(self.fields[index].1.as_str())
    }
}

} // verus!
