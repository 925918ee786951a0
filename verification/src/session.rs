//! The interactive session: the tagged union of merged events, the pure
//! keyboard translation, and the state machine that the event loop
//! drives. The loop itself lives in the surrounding shell; every decision
//! it takes — how an event changes the state and which outward action it
//! triggers — is made here.

use vstd::prelude::*;

use crate::list::{nav_down, nav_up, Identified, SelectionList};

verus! {

/// One event of the merged stream: an item from the network-origin
/// source, a key press, a timer tick, or an input failure.
pub enum AppEvent<T> {
    /// A validated item arrived from the network-origin source.
    NewItem(T),
    /// Move the selection towards the top.
    Up,
    /// Move the selection towards the bottom.
    Down,
    /// Act on the selected item.
    Confirm,
    /// Leave the loop cleanly.
    Quit,
    /// The terminal was resized.
    Resize,
    /// The periodic timer fired.
    Tick,
    /// The input source failed to read.
    Error(String),
}

/// A terminal input, reduced to what the key mapping reads.
pub enum TermInput {
    /// The up-arrow key.
    PressUp,
    /// The down-arrow key.
    PressDown,
    /// The enter key.
    PressEnter,
    /// A character key, and whether control was held with it.
    Press(char, bool),
    /// A resize notification.
    WindowResize,
    /// The input source reported a read error.
    ReadFailure(String),
    /// Any other input.
    Other,
}

/// The event a terminal input translates to, if any: up-arrow or `k`
/// moves up, down-arrow or `j` moves down, enter confirms, `q` or
/// control-`c` quits, a resize and a read failure pass through, and
/// everything else is discarded.
pub open spec fn spec_map_input<T>(input: TermInput) -> Option<AppEvent<T>> {
    match input {
        TermInput::PressUp => Some(AppEvent::Up),
        TermInput::PressDown => Some(AppEvent::Down),
        TermInput::PressEnter => Some(AppEvent::Confirm),
        TermInput::Press(c, ctrl) => if c == 'k' {
            Some(AppEvent::Up)
        } else if c == 'j' {
            Some(AppEvent::Down)
        } else if c == 'q' {
            Some(AppEvent::Quit)
        } else if c == 'c' && ctrl {
            Some(AppEvent::Quit)
        } else {
            None
        },
        TermInput::WindowResize => Some(AppEvent::Resize),
        TermInput::ReadFailure(m) => Some(AppEvent::Error(m)),
        TermInput::Other => None,
    }
}

/// Translates one terminal input into at most one event; the translation
/// is stateless.
pub fn map_input<T>(input: TermInput) -> (r: Option<AppEvent<T>>)
    ensures
        r == spec_map_input::<T>(input),
{
    match input {
        TermInput::PressUp => Some(AppEvent::Up),
        TermInput::PressDown => Some(AppEvent::Down),
        TermInput::PressEnter => Some(AppEvent::Confirm),
        TermInput::Press(c, ctrl) => if c == 'k' {
            Some(AppEvent::Up)
        } else if c == 'j' {
            Some(AppEvent::Down)
        } else if c == 'q' {
            Some(AppEvent::Quit)
        } else if c == 'c' && ctrl {
            Some(AppEvent::Quit)
        } else {
            None
        },
        TermInput::WindowResize => Some(AppEvent::Resize),
        TermInput::ReadFailure(m) => Some(AppEvent::Error(m)),
        TermInput::Other => None,
    }
}

/// The side effect the loop must perform after handling one event.
pub enum SessionAction {
    /// Render the current state.
    Redraw,
    /// Act on the item at this index: send to it, or accept it.
    Submit(usize),
    /// Leave the loop cleanly.
    Quit,
    /// Abort the loop with this failure.
    Fatal(String),
    /// Nothing.
    Nothing,
}

/// The animation counter after one tick: it cycles through 1, 2, 3.
pub open spec fn next_dots(d: u8) -> u8 {
    if d == 3 {
        1u8
    } else {
        ((d + 1) as u8)
    }
}

/// The animation counter after `k` ticks.
pub open spec fn ticks_after(d: u8, k: nat) -> u8
    decreases k,
{
    if k == 0 {
        d
    } else {
        next_dots(ticks_after(d, (k - 1) as nat))
    }
}

/// Law: the animation counter cycles strictly — every tick changes it,
/// it never leaves `{1, 2, 3}`, and three ticks bring it back around.
pub proof fn lemma_dots_cycle(d: u8, k: nat)
    requires
        1 <= d <= 3,
    ensures
        1 <= ticks_after(d, k) <= 3,
        ticks_after(d, k + 1) != ticks_after(d, k),
        ticks_after(d, k + 3) == ticks_after(d, k),
    decreases k,
{
    if k == 0 {
        assert(ticks_after(d, 1) == next_dots(ticks_after(d, 0)));
        assert(ticks_after(d, 2) == next_dots(ticks_after(d, 1)));
        assert(ticks_after(d, 3) == next_dots(ticks_after(d, 2)));
    } else {
        lemma_dots_cycle(d, (k - 1) as nat);
        assert(ticks_after(d, k) == next_dots(ticks_after(d, (k - 1) as nat)));
        assert(ticks_after(d, k + 1) == next_dots(ticks_after(d, k)));
        assert((k - 1) as nat + 3 == k + 2);
        assert(ticks_after(d, k + 2) == ticks_after(d, (k - 1) as nat));
        assert(ticks_after(d, k + 3) == next_dots(ticks_after(d, k + 2)));
    }
}

/// The state one interactive mode drives: the selection list and the
/// animation counter shown while the list is empty.
pub struct Session<T> {
    /// The deduplicated item list with its cursor.
    pub list: SelectionList<T>,
    /// The animation counter, always in `{1, 2, 3}`.
    pub dots: u8,
}

impl<T: Identified> Session<T> {
    /// The list is well-formed and the counter is within its cycle.
    pub open spec fn wf(self) -> bool {
        &&& self.list.wf()
        &&& 1 <= self.dots <= 3
    }

    /// A fresh session: empty list, no selection, counter at one.
    pub fn new() -> (r: Self)
        ensures
            r.wf(),
            r.list.items_seq().len() == 0,
            r.list.cursor_spec() is None,
            r.dots == 1,
    {
        Session { list: SelectionList::new(), dots: 1 }
    }

    /// Applies one event and says what the loop must do next.
    ///
    /// A new item is appended unless already present by identity and asks
    /// for a redraw; navigation moves the cursor with clamping and asks
    /// for a redraw; a confirm leaves the state alone and submits the
    /// selected index, or does nothing when no selection exists; a tick
    /// advances only the animation counter, whatever the list holds; a
    /// resize only redraws; a quit and a failure leave the state alone
    /// and end the loop.
    pub fn handle_event(&mut self, ev: AppEvent<T>) -> (act: SessionAction)
        requires
            old(self).wf(),
            old(self).list.items_seq().len() < usize::MAX,
        ensures
            final(self).wf(),
            (ev matches AppEvent::NewItem(t) ==> {
                &&& final(self).list.items_seq() == (if old(self).list.has_key(t.key()) {
                    old(self).list.items_seq()
                } else {
                    old(self).list.items_seq().push(t)
                })
                &&& final(self).list.cursor_spec() == old(self).list.cursor_spec()
                &&& final(self).dots == old(self).dots
                &&& act is Redraw
            }),
            (ev is Up ==> {
                &&& final(self).list.items_seq() == old(self).list.items_seq()
                &&& final(self).list.cursor_spec() == nav_up(
                    old(self).list.items_seq().len(),
                    old(self).list.cursor_spec(),
                )
                &&& final(self).dots == old(self).dots
                &&& act is Redraw
            }),
            (ev is Down ==> {
                &&& final(self).list.items_seq() == old(self).list.items_seq()
                &&& final(self).list.cursor_spec() == nav_down(
                    old(self).list.items_seq().len(),
                    old(self).list.cursor_spec(),
                )
                &&& final(self).dots == old(self).dots
                &&& act is Redraw
            }),
            (ev is Confirm ==> {
                &&& *final(self) == *old(self)
                &&& act == (match old(self).list.cursor_spec() {
                    Some(c) => SessionAction::Submit(c as usize),
                    None => SessionAction::Nothing,
                })
            }),
            (ev is Quit ==> *final(self) == *old(self) && act is Quit),
            (ev is Resize ==> *final(self) == *old(self) && act is Redraw),
            (ev is Tick ==> {
                &&& final(self).list == old(self).list
                &&& final(self).dots == next_dots(old(self).dots)
                &&& act is Redraw
            }),
            (ev matches AppEvent::Error(m) ==> *final(self) == *old(self) && act
                == SessionAction::Fatal(m)),
    {
        match ev {
            AppEvent::NewItem(t) => {
                let _ = self.list.insert(t);
                SessionAction::Redraw
            },
            AppEvent::Up => {
                self.list.move_up();
                SessionAction::Redraw
            },
            AppEvent::Down => {
                self.list.move_down();
                SessionAction::Redraw
            },
            AppEvent::Confirm => match self.list.selected_index() {
                Some(i) => SessionAction::Submit(i),
                None => SessionAction::Nothing,
            },
            AppEvent::Quit => SessionAction::Quit,
            AppEvent::Resize => SessionAction::Redraw,
            AppEvent::Tick => {
                self.dots = self.dots % 3 + 1;
                SessionAction::Redraw
            },
            AppEvent::Error(m) => SessionAction::Fatal(m),
        }
    }
}

} // verus!
