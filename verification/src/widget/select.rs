use vstd::prelude::*;

verus! {

/// How a part of a widget is emphasised when painted: highlighted when it is
/// the active target, dimmed when it cannot react, plain otherwise.
#[derive(Clone, Copy, Debug, PartialEq, Eq, Structural)]
pub enum Emphasis {
    Highlight,
    Plain,
    Dimmed,
}

/// A one-line selector showing the current value out of an ordered list of
/// labels, with left and right affordances.  It is stateless: the current
/// index is owned by whoever builds it.
pub struct Select {
    pub items: Vec<String>,
    pub current: usize,
    pub focused: bool,
    pub enabled: bool,
}

impl Select {
    pub fn new(items: Vec<String>, current: usize, focused: bool, enabled: bool) -> (r: Select)
        ensures
            r.items == items,
            r.current == current,
            r.focused == focused,
            r.enabled == enabled,
    {
        Select { items, current, focused, enabled }
    }

    /// The emphasis of one affordance: dimmed when the selector as a whole is
    /// disabled or the affordance cannot move further, highlighted when the
    /// selector is the focused item, plain otherwise.
    pub open spec fn spec_parts_style(&self, disabled_cond: bool) -> Emphasis {
        if !self.enabled {
            Emphasis::Dimmed
        } else if disabled_cond {
            Emphasis::Dimmed
        } else if self.focused {
            Emphasis::Highlight
        } else {
            Emphasis::Plain
        }
    }

    pub fn parts_style(&self, disabled_cond: bool) -> (r: Emphasis)
        ensures
            r == self.spec_parts_style(disabled_cond),
    {
        if self.enabled {
            if disabled_cond {
                Emphasis::Dimmed
            } else if self.focused {
                Emphasis::Highlight
            } else {
                Emphasis::Plain
            }
        } else {
            Emphasis::Dimmed
        }
    }

    /// What one frame of the selector shows: the current label and the
    /// emphasis of the left arrow, the label, and the right arrow.  The left
    /// arrow dims at the first item and the right arrow at the last, matching
    /// the saturating selection the owners use.
    pub fn render_parts(&self) -> (r: (String, Emphasis, Emphasis, Emphasis))
        requires
            self.current < self.items@.len(),
        ensures
            r.0 == self.items@[self.current as int],
            r.1 == self.spec_parts_style(self.current == 0),
            r.2 == self.spec_parts_style(false),
            r.3 == self.spec_parts_style(self.current == self.items@.len() - 1),
    {
        let cur_item = self.items[self.current].clone();
        let left_style = self.parts_style(self.current == 0);
        let cur_item_style = self.parts_style(false);
        let right_style = self.parts_style(self.current == self.items.len() - 1);
        (cur_item, left_style, cur_item_style, right_style)
    }
}

} // verus!
