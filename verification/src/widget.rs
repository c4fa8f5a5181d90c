//! The reusable list widget: a vertically scrollable, cursor-driven menu with
//! a heading, a bounded number of labelled entries, and a highlight on the
//! entry under the cursor.
//!
//! The widget itself is stateless across frames: `move_cursor` reads the
//! directional press edges once, reports the adjusted index, and leaves
//! persisting it to the caller. The edge policy is wrap-around at both ends,
//! which makes one step down and one step up exact inverses.

use vstd::prelude::*;
use crate::buttons::BTN_DPAD_DOWN;
use crate::buttons::BTN_DPAD_UP;
use crate::buttons::ButtonState;
use crate::draw::DrawCmd;
use crate::draw::entry_ok;
use crate::draw::menu_list_ok;

verus! {

/// True when the down-direction press edge fired in `pressed`.
pub open spec fn down_edge(pressed: u32) -> bool {
    pressed & BTN_DPAD_DOWN != 0
}

/// True when the up-direction press edge fired in `pressed`.
pub open spec fn up_edge(pressed: u32) -> bool {
    pressed & BTN_DPAD_UP != 0
}

/// One step down from index `i` in a list of `n` entries, wrapping to the
/// top past the last entry.
pub open spec fn cursor_down(i: u32, n: u32) -> u32 {
    if n == 0 {
        i
    } else if i + 1 >= n {
        0u32
    } else {
        (i + 1) as u32
    }
}

/// One step up from index `i` in a list of `n` entries, wrapping to the
/// bottom before the first entry.
pub open spec fn cursor_up(i: u32, n: u32) -> u32 {
    if n == 0 {
        i
    } else if i == 0 {
        (n - 1) as u32
    } else {
        (i - 1) as u32
    }
}

/// Where the cursor lands after one read of the directional edges: one step
/// for exactly one direction, no move for neither or both.
pub open spec fn moved_cursor(i: u32, n: u32, down: bool, up: bool) -> u32 {
    if down && !up {
        cursor_down(i, n)
    } else if up && !down {
        cursor_up(i, n)
    } else {
        i
    }
}

/// The cursor after `k` single steps down.
pub open spec fn down_times(i: u32, n: u32, k: nat) -> u32
    decreases k,
{
    if k == 0 {
        i
    } else {
        cursor_down(down_times(i, n, (k - 1) as nat), n)
    }
}

/// The cursor after `k` single steps up.
pub open spec fn up_times(i: u32, n: u32, k: nat) -> u32
    decreases k,
{
    if k == 0 {
        i
    } else {
        up_times(cursor_up(i, n), n, (k - 1) as nat)
    }
}

/// Stepping down keeps an in-range cursor in range.
pub proof fn lemma_down_times_in_range(i: u32, n: u32, k: nat)
    requires
        n > 0,
        i < n,
    ensures
        down_times(i, n, k) < n,
    decreases k,
{
    if k > 0 {
        lemma_down_times_in_range(i, n, (k - 1) as nat);
    }
}

/// One step up exactly undoes one step down, for any in-range cursor.
pub proof fn lemma_up_undoes_down(i: u32, n: u32)
    requires
        n > 0,
        i < n,
    ensures
        cursor_up(cursor_down(i, n), n) == i,
{
}

/// Moving the cursor down `k` times and then up `k` times returns it to its
/// starting index, for every in-range start: the wrap-around edge policy is
/// applied symmetrically at both ends. `cursor_down` and `cursor_up` are the
/// two single steps `move_cursor` reports.
pub proof fn lemma_cursor_round_trip(i: u32, n: u32, k: nat)
    requires
        n > 0,
        i < n,
    ensures
        up_times(down_times(i, n, k), n, k) == i,
    decreases k,
{
    if k > 0 {
        let prev = down_times(i, n, (k - 1) as nat);
        lemma_down_times_in_range(i, n, (k - 1) as nat);
        lemma_up_undoes_down(prev, n);
        assert(up_times(down_times(i, n, k), n, k) == up_times(prev, n, (k - 1) as nat));
        lemma_cursor_round_trip(i, n, (k - 1) as nat);
        assert(up_times(prev, n, (k - 1) as nat) == up_times(down_times(i, n, (k - 1) as nat), n, (
        k - 1) as nat));
    }
}

/// A bounded list menu: heading, labelled entries, cursor. The capacity is
/// fixed at construction; entries past it are rejected, never truncated.
pub struct SimpleMenu {
    pub capacity: usize,
    pub heading: String,
    pub entries: Vec<String>,
    pub cursor: u32,
}

impl SimpleMenu {
    /// The entry labels, as character sequences.
    pub open spec fn labels(&self) -> Seq<Seq<char>> {
        self.entries@.map_values(|s: String| s@)
    }

    /// Well-formed: within capacity, and countable in 32 bits.
    pub open spec fn wf(&self) -> bool {
        &&& self.entries@.len() <= self.capacity
        &&& self.capacity <= 0xFFFF_FFFF
    }

    /// An empty menu with the given fixed capacity.
    pub fn new(capacity: usize) -> (r: SimpleMenu)
        requires
            capacity <= 0xFFFF_FFFF,
        ensures
            r.wf(),
            r.capacity == capacity,
            r.entries@.len() == 0,
            r.cursor == 0u32,
            r.heading@ == Seq::<char>::empty(),
    {
        let heading = String::new();
        proof {
            assert(heading@ =~= Seq::<char>::empty());
        }
        SimpleMenu { capacity, heading, entries: Vec::new(), cursor: 0 }
    }

    /// Replaces the heading; everything else is untouched.
    pub fn set_heading(&mut self, h: &str)
        ensures
            final(self).heading@ == h@,
            final(self).capacity == old(self).capacity,
            final(self).entries == old(self).entries,
            final(self).cursor == old(self).cursor,
    {
        self.heading = String::from_str(h);
    }

    /// Places the cursor; everything else is untouched.
    pub fn set_cursor(&mut self, c: u32)
        ensures
            *final(self) == (SimpleMenu { cursor: c, ..*old(self) }),
    {
        self.cursor = c;
    }

    /// Appends one entry label. Rejected, with the menu unchanged, once the
    /// fixed capacity is reached.
    pub fn add_entry(&mut self, label: &str) -> (added: bool)
        ensures
            added == (old(self).entries@.len() < old(self).capacity),
            added ==> final(self).labels() == old(self).labels().push(label@),
            added ==> final(self).entries@.len() == old(self).entries@.len() + 1,
            added ==> final(self).capacity == old(self).capacity,
            added ==> final(self).heading == old(self).heading,
            added ==> final(self).cursor == old(self).cursor,
            !added ==> *final(self) == *old(self),
    {
        if self.entries.len() < self.capacity {
            self.entries.push(String::from_str(label));
            proof {
                assert(self.labels() =~= old(self).labels().push(label@));
            }
            true
        } else {
            false
        }
    }

    /// How many entries the menu holds.
    pub fn entry_count(&self) -> (n: u32)
        requires
            self.wf(),
        ensures
            n == self.entries@.len(),
    {
        self.entries.len() as u32
    }

    /// Reads the directional edges once and reports where the cursor lands;
    /// the caller persists the returned index across frames.
    pub fn move_cursor(&self, b: &ButtonState) -> (r: u32)
        requires
            self.wf(),
        ensures
            r == moved_cursor(
                self.cursor,
                self.entries@.len() as u32,
                down_edge(b.pressed),
                up_edge(b.pressed),
            ),
    {
        let n = self.entries.len() as u32;
        let down = b.is_pressed(BTN_DPAD_DOWN);
        let up = b.is_pressed(BTN_DPAD_UP);
        if down && !up {
            if n == 0 {
                self.cursor
            } else if self.cursor >= n - 1 {
                0
            } else {
                self.cursor + 1
            }
        } else if up && !down {
            if n == 0 {
                self.cursor
            } else if self.cursor == 0 {
                n - 1
            } else {
                self.cursor - 1
            }
        } else {
            self.cursor
        }
    }

    /// Renders the heading, then every entry in order, with the highlight on
    /// the entry under the cursor.
    pub fn draw(&self) -> (out: Vec<DrawCmd>)
        requires
            self.wf(),
        ensures
            menu_list_ok(out@, self.heading@, self.labels(), self.cursor),
    {
        let mut out: Vec<DrawCmd> = Vec::new();
        out.push(DrawCmd::Heading { text: String::from_str(self.heading.as_str()) });
        let mut i: usize = 0;
        while i < self.entries.len()
            invariant
                self.wf(),
                i <= self.entries@.len(),
                out@.len() == 1 + i,
                out@[0] matches DrawCmd::Heading { text } && text@ == self.heading@,
                forall|k: int|
                    0 <= k < i ==> entry_ok(#[trigger] out@[k + 1], k, self.labels()[k], self.cursor),
            decreases self.entries@.len() - i,
        {
            let selected = (i as u32) == self.cursor;
            out.push(
                DrawCmd::Entry {
                    index: i as u32,
                    selected,
                    text: String::from_str(self.entries[i].as_str()),
                },
            );
            i = i + 1;
        }
        out
    }
}

} // verus!
