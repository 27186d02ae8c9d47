//! A selectable list: entries with a label and a value, a current index
//! that wraps or clamps at the ends, and the look of the selected row.

use vstd::prelude::*;
use vstd::string::StringExecFns;

verus! {

/// What happens when the selection is moved past either end of the list.
#[derive(Clone, Copy, Debug, PartialEq, Eq, Structural)]
pub enum EndBehavior {
    /// Past the last entry comes the first, and before the first the last.
    Wrap,
    /// The selection stays on the entry at that end.
    Clamp,
}

/// Why a menu could not be built.
#[derive(Clone, Copy, Debug, PartialEq, Eq, Structural)]
pub enum ConfigurationError {
    /// The list of entries was empty.
    NoItems,
}

/// A colour as red, green, blue and opacity.
#[derive(Clone, Copy, Debug, PartialEq, Eq, Structural)]
pub struct Rgba {
    pub r: u8,
    pub g: u8,
    pub b: u8,
    pub a: u8,
}

/// Font size of a menu until `set_font_size` changes it.
pub const DEFAULT_FONT_SIZE: i32 = 40;

/// The off-white that a menu is drawn in until `set_color` changes it.
pub open spec fn default_color() -> Rgba {
    Rgba { r: 245, g: 245, b: 245, a: 255 }
}

/// One entry: the label shown and the value that selecting it gives.
pub struct MenuItem<'a, T> {
    pub display: &'a str,
    pub out_val: T,
}

impl<'a, T> MenuItem<'a, T> {
    /// An entry from its label and value.
    pub fn from(display: &'a str, out_val: T) -> (item: Self)
        ensures
            item.display@ == display@,
            item.out_val == out_val,
    {
        Self { display, out_val }
    }
}

/// The index one place forward or backward from `index` in a list of
/// `len` entries, under `behavior`.
pub open spec fn stepped_index(behavior: EndBehavior, len: int, index: int, forward: bool) -> int {
    match behavior {
        EndBehavior::Wrap => if forward {
            (index + 1) % len
        } else {
            (index + len - 1) % len
        },
        EndBehavior::Clamp => if forward {
            if index + 1 < len { index + 1 } else { index }
        } else {
            if index > 0 { index - 1 } else { 0 }
        },
    }
}

/// Under `Wrap` the index after a move is the neighbour, or the entry at
/// the other end when there is no neighbour on that side.
pub proof fn lemma_wrap_neighbour(len: int, index: int)
    requires
        0 <= index < len,
    ensures
        stepped_index(EndBehavior::Wrap, len, index, true) == if index + 1 == len {
            0
        } else {
            index + 1
        },
        stepped_index(EndBehavior::Wrap, len, index, false) == if index == 0 {
            len - 1
        } else {
            index - 1
        },
{
    if index + 1 == len {
        vstd::arithmetic::div_mod::lemma_mod_self_0(len);
    } else {
        vstd::arithmetic::div_mod::lemma_small_mod((index + 1) as nat, len as nat);
    }
    if index == 0 {
        vstd::arithmetic::div_mod::lemma_small_mod((len - 1) as nat, len as nat);
    } else {
        vstd::arithmetic::div_mod::lemma_mod_add_multiples_vanish(index - 1, len);
        vstd::arithmetic::div_mod::lemma_small_mod((index - 1) as nat, len as nat);
        assert(index + len - 1 == len + (index - 1));
    }
}

/// The index after `count` moves in one direction.
pub open spec fn stepped_times(
    behavior: EndBehavior,
    len: int,
    index: int,
    forward: bool,
    count: nat,
) -> int
    decreases count,
{
    if count == 0 {
        index
    } else {
        stepped_index(
            behavior,
            len,
            stepped_times(behavior, len, index, forward, (count - 1) as nat),
            forward,
        )
    }
}

/// Under `Wrap`, `count` moves forward from `index` lead to
/// `(index + count) % len`, and `count` moves backward to
/// `(index - count) % len`.
pub proof fn lemma_wrap_times(len: int, index: int, forward: bool, count: nat)
    requires
        0 <= index < len,
    ensures
        stepped_times(EndBehavior::Wrap, len, index, forward, count) == if forward {
            (index + count) % len
        } else {
            (index - count) % len
        },
    decreases count,
{
    if count == 0 {
        vstd::arithmetic::div_mod::lemma_small_mod(index as nat, len as nat);
    } else {
        lemma_wrap_times(len, index, forward, (count - 1) as nat);
        if forward {
            vstd::arithmetic::div_mod::lemma_add_mod_noop_right(1, index + count - 1, len);
        } else {
            vstd::arithmetic::div_mod::lemma_add_mod_noop_right(len - 1, index - count + 1, len);
            vstd::arithmetic::div_mod::lemma_mod_add_multiples_vanish(index - count, len);
            assert(len - 1 + (index - count + 1) == len + (index - count));
        }
    }
}

/// Under `Wrap`, as many moves in one direction as the list has entries
/// lead back to the entry they started from.
pub proof fn lemma_wrap_full_circle(len: int, index: int, forward: bool)
    requires
        0 <= index < len,
    ensures
        stepped_times(EndBehavior::Wrap, len, index, forward, len as nat) == index,
{
    lemma_wrap_times(len, index, forward, len as nat);
    vstd::arithmetic::div_mod::lemma_small_mod(index as nat, len as nat);
    if forward {
        vstd::arithmetic::div_mod::lemma_mod_add_multiples_vanish(index, len);
        assert(index + len == len + index);
    } else {
        vstd::arithmetic::div_mod::lemma_mod_add_multiples_vanish(index - len, len);
        assert(len + (index - len) == index);
    }
}

/// Under `Clamp`, a move forward from the last entry and a move backward
/// from the first leave the index where it is.
pub proof fn lemma_clamp_at_ends(len: int)
    requires
        0 < len,
    ensures
        stepped_index(EndBehavior::Clamp, len, len - 1, true) == len - 1,
        stepped_index(EndBehavior::Clamp, len, 0, false) == 0,
{
}

/// Entries, the index of the selected one, the behaviour at the ends, and
/// how the menu looks.
pub struct Menu<'a, T> {
    pub index: usize,
    pub left_sel: String,
    pub right_sel: String,
    pub end_behavior: EndBehavior,
    pub items: Vec<MenuItem<'a, T>>,
    pub font_size: i32,
    pub color: Rgba,
}

impl<'a, T> Menu<'a, T> {
    /// The list has an entry and the index points at one.
    pub open spec fn wf(self) -> bool {
        self.index < self.items@.len()
    }

    /// Index, end behaviour and entries agree with those of `pre`.
    pub open spec fn same_list(self, pre: Self) -> bool {
        &&& self.index == pre.index
        &&& self.end_behavior == pre.end_behavior
        &&& self.items == pre.items
    }

    /// Decorators, font size and colour agree with those of `pre`.
    pub open spec fn same_look(self, pre: Self) -> bool {
        &&& self.left_sel == pre.left_sel
        &&& self.right_sel == pre.right_sel
        &&& self.font_size == pre.font_size
        &&& self.color == pre.color
    }

    /// The look every menu starts with.
    pub open spec fn default_look(self) -> bool {
        &&& self.left_sel@ == "> "@
        &&& self.right_sel@ == " <"@
        &&& self.font_size == DEFAULT_FONT_SIZE
        &&& self.color == default_color()
    }

    /// The text of row `i`: the label, and round it the two decorators
    /// when the row is the selected one.
    pub open spec fn row(self, i: int) -> Seq<char> {
        if i == self.index {
            self.left_sel@ + self.items@[i].display@ + self.right_sel@
        } else {
            self.items@[i].display@
        }
    }

    /// Tests whether the list has an entry and the index points at one.
    pub fn is_valid(&self) -> (valid: bool)
        ensures
            valid == self.wf(),
    {
        self.index < self.items.len()
    }

    /// A menu without entries cannot be: this always fails.
    pub fn new() -> (menu: Result<Self, ConfigurationError>)
        ensures
            menu == Err::<Self, ConfigurationError>(ConfigurationError::NoItems),
    {
        Err(ConfigurationError::NoItems)
    }

    /// A menu of the given entries, in their order, with the first one
    /// selected, wrapping at the ends, in the default look. Fails when
    /// there is no entry.
    pub fn from(items: Vec<(&'a str, T)>) -> (menu: Result<Self, ConfigurationError>)
        ensures
            items@.len() == 0 ==> menu == Err::<Self, ConfigurationError>(
                ConfigurationError::NoItems,
            ),
            items@.len() > 0 ==> menu is Ok,
            menu matches Ok(m) ==> {
                &&& m.wf()
                &&& m.index == 0
                &&& m.end_behavior == EndBehavior::Wrap
                &&& m.default_look()
                &&& m.items@.len() == items@.len()
                &&& forall|i: int|
                    0 <= i < items@.len() ==> {
                        &&& (#[trigger] m.items@[i]).display@ == items@[i].0@
                        &&& m.items@[i].out_val == items@[i].1
                    }
            },
    {
        if items.len() == 0 {
            return Err(ConfigurationError::NoItems);
        }
        let mut rest = items;
        let mut entries: Vec<MenuItem<'a, T>> = Vec::new();
        while rest.len() > 0
            invariant
                rest@.len() <= items@.len(),
                rest@ == items@.take(rest@.len() as int),
                entries@.len() == items@.len() - rest@.len(),
                forall|i: int|
                    0 <= i < entries@.len() ==> {
                        &&& (#[trigger] entries@[i]).display@ == items@[rest@.len() + i].0@
                        &&& entries@[i].out_val == items@[rest@.len() + i].1
                    },
            decreases rest@.len(),
        {
            let ghost before = entries@;
            match rest.pop() {
                Some((display, out_val)) => {
                    entries.insert(0, MenuItem::from(display, out_val));
                    assert(forall|i: int| 0 < i < entries@.len() ==> entries@[i] == before[i - 1]);
                },
                None => {},
            }
        }
        Ok(
            Self {
                index: 0,
                left_sel: "> ".to_owned(),
                right_sel: " <".to_owned(),
                end_behavior: EndBehavior::Wrap,
                items: entries,
                font_size: DEFAULT_FONT_SIZE,
                color: Rgba { r: 245, g: 245, b: 245, a: 255 },
            },
        )
    }

    /// Switches between wrapping and clamping.
    pub fn change_end_behavior(self) -> (menu: Self)
        ensures
            menu.end_behavior == match self.end_behavior {
                EndBehavior::Wrap => EndBehavior::Clamp,
                EndBehavior::Clamp => EndBehavior::Wrap,
            },
            menu.index == self.index,
            menu.items == self.items,
            menu.same_look(self),
            self.wf() ==> menu.wf(),
    {
        match self.end_behavior {
            EndBehavior::Wrap => Self { end_behavior: EndBehavior::Clamp, ..self },
            EndBehavior::Clamp => Self { end_behavior: EndBehavior::Wrap, ..self },
        }
    }

    /// Sets the font size.
    pub fn set_font_size(self, size: i32) -> (menu: Self)
        ensures
            menu.font_size == size,
            menu.same_list(self),
            self.wf() ==> menu.wf(),
            menu.left_sel == self.left_sel,
            menu.right_sel == self.right_sel,
            menu.color == self.color,
    {
        Self { font_size: size, ..self }
    }

    /// Sets the colour.
    pub fn set_color(self, color: Rgba) -> (menu: Self)
        ensures
            menu.color == color,
            menu.same_list(self),
            self.wf() ==> menu.wf(),
            menu.left_sel == self.left_sel,
            menu.right_sel == self.right_sel,
            menu.font_size == self.font_size,
    {
        Self { color, ..self }
    }

    /// Sets the two strings that go round the selected row's label.
    pub fn set_selection_indicators(self, left: &str, right: &str) -> (menu: Self)
        ensures
            menu.left_sel@ == left@,
            menu.right_sel@ == right@,
            menu.same_list(self),
            self.wf() ==> menu.wf(),
            menu.font_size == self.font_size,
            menu.color == self.color,
    {
        Self { left_sel: left.to_owned(), right_sel: right.to_owned(), ..self }
    }

    /// The index one place forward or backward, staying put at the ends.
    fn index_clamp(&self, forward: bool) -> (index: usize)
        requires
            self.wf(),
        ensures
            index == stepped_index(
                EndBehavior::Clamp,
                self.items@.len() as int,
                self.index as int,
                forward,
            ),
            index < self.items@.len(),
    {
        let last: usize = self.items.len() - 1;
        if forward {
            if self.index < last {
                self.index + 1
            } else {
                self.index
            }
        } else {
            if self.index > 0 {
                self.index - 1
            } else {
                0
            }
        }
    }

    /// The index one place forward or backward, going round at the ends.
    fn index_wrap(&self, forward: bool) -> (index: usize)
        requires
            self.wf(),
        ensures
            index == stepped_index(
                EndBehavior::Wrap,
                self.items@.len() as int,
                self.index as int,
                forward,
            ),
            index < self.items@.len(),
    {
        let last: usize = self.items.len() - 1;
        proof {
            lemma_wrap_neighbour(self.items@.len() as int, self.index as int);
        }
        if forward {
            if self.index >= last {
                0
            } else {
                self.index + 1
            }
        } else {
            if self.index == 0 {
                last
            } else {
                self.index - 1
            }
        }
    }

    /// Moves the selection one entry forward.
    pub fn next(&mut self)
        requires
            old(self).wf(),
        ensures
            final(self).wf(),
            final(self).index == stepped_index(
                old(self).end_behavior,
                old(self).items@.len() as int,
                old(self).index as int,
                true,
            ),
            final(self).end_behavior == old(self).end_behavior,
            final(self).items == old(self).items,
            final(self).same_look(*old(self)),
            old(self).end_behavior == EndBehavior::Clamp
                && old(self).index == old(self).items@.len() - 1
                ==> final(self).index == old(self).index,
    {
        self.index = match self.end_behavior {
            EndBehavior::Wrap => self.index_wrap(true),
            EndBehavior::Clamp => self.index_clamp(true),
        };
    }

    /// Moves the selection one entry backward.
    pub fn prev(&mut self)
        requires
            old(self).wf(),
        ensures
            final(self).wf(),
            final(self).index == stepped_index(
                old(self).end_behavior,
                old(self).items@.len() as int,
                old(self).index as int,
                false,
            ),
            final(self).end_behavior == old(self).end_behavior,
            final(self).items == old(self).items,
            final(self).same_look(*old(self)),
            old(self).end_behavior == EndBehavior::Clamp && old(self).index == 0
                ==> final(self).index == 0,
    {
        self.index = match self.end_behavior {
            EndBehavior::Wrap => self.index_wrap(false),
            EndBehavior::Clamp => self.index_clamp(false),
        };
    }

    /// The value of the selected entry.
    pub fn select(&self) -> (value: &T)
        requires
            self.wf(),
        ensures
            *value == self.items@[self.index as int].out_val,
    {
        &self.items[self.index].out_val
    }

    /// Number of entries.
    pub fn len(&self) -> (n: usize)
        ensures
            n == self.items@.len(),
    {
        self.items.len()
    }

    /// The text to draw for row `i`.
    pub fn row_text(&self, i: usize) -> (text: String)
        requires
            i < self.items@.len(),
        ensures
            text@ == self.row(i as int),
    {
        if i == self.index {
            let mut text = self.left_sel.clone();
            text.append(self.items[i].display);
            text.append(self.right_sel.as_str());
            text
        } else {
            self.items[i].display.to_owned()
        }
    }

    /// The texts to draw, one for each entry from the top row down; only
    /// the selected row carries the decorators. Where the rows go on the
    /// screen is the host's business.
    pub fn draw(&self) -> (rows: Vec<String>)
        ensures
            rows@.len() == self.items@.len(),
            forall|i: int| 0 <= i < rows@.len() ==> (#[trigger] rows@[i])@ == self.row(i),
    {
        let mut rows: Vec<String> = Vec::new();
        let mut i: usize = 0;
        while i < self.items.len()
            invariant
                i <= self.items@.len(),
                rows@.len() == i,
                forall|k: int| 0 <= k < i ==> (#[trigger] rows@[k])@ == self.row(k),
            decreases self.items@.len() - i,
        {
            rows.push(self.row_text(i));
            i += 1;
        }
        rows
    }
}

} // verus!
