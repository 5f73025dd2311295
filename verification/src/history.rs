//! The past chats: a list of them which can be looked through, opened and deleted.

use vstd::prelude::*;

use crate::footer::Info;
use crate::keys::{Key, KeyEvent, KeyMods, Size, TermEvent, no_mods, shift_mods, control_mods};
use crate::requests::{ChatSummary, Request, RequestParams, Response, ResponseParams};
use crate::listing::{Line, Style};
use crate::text::{decimal, decimal_string, push_char, string_of};

verus! {

/// A chat in the history.
#[derive(Debug, Clone, PartialEq, Eq)]
pub struct Entry {
    /// Which chat it is.
    pub id: i64,
    /// What the chat is called.
    pub title: String,
}

/// What moving around a list of chats did.
#[derive(Debug, Clone, Copy, PartialEq, Eq, Structural)]
pub enum Movement {
    /// The list moved.
    Moved,
    /// There was nowhere to move to.
    Stuck,
    /// The key was not one the list responds to.
    Ignored,
}

/// The ways a list of chats can be moved around.
#[derive(Debug, Clone, Copy, PartialEq, Eq, Structural)]
pub enum Move {
    /// To the next chat.
    Down,
    /// To the previous chat.
    Up,
    /// To the last chat.
    Last,
    /// To the first chat.
    First,
    /// Show the chats after the ones shown.
    ScrollDown,
    /// Show the chats before the ones shown.
    ScrollUp,
}

/// Which way a key moves a list of chats, if it moves it at all.
pub open spec fn move_of(key_event: KeyEvent) -> Option<Move> {
    let key = key_event.key;
    let mods = key_event.mods;
    if (key == Key::Char('j') && mods == no_mods()) || (key == Key::Down && mods == no_mods()) {
        Some(Move::Down)
    } else if (key == Key::Char('k') && mods == no_mods()) || (key == Key::Up && mods == no_mods()) {
        Some(Move::Up)
    } else if (key == Key::Char('J') && mods == shift_mods()) || (key == Key::End && mods == no_mods()) {
        Some(Move::Last)
    } else if (key == Key::Char('K') && mods == shift_mods()) || (key == Key::Home && mods == no_mods()) {
        Some(Move::First)
    } else if key == Key::Char('e') && mods == control_mods() {
        Some(Move::ScrollDown)
    } else if key == Key::Char('y') && mods == control_mods() {
        Some(Move::ScrollUp)
    } else {
        None
    }
}

/// The first row shown once the selected chat is brought into view.
pub open spec fn scrolled_to(offset: usize, rows: usize, selected: usize) -> usize {
    if selected < offset {
        selected
    } else if rows > 0 && selected >= offset + rows {
        (selected + 1 - rows) as usize
    } else {
        offset
    }
}

/// Where a list is, which is all that moving around it changes: which chat is selected and the
/// first one shown.
pub struct Place {
    /// Which chat is selected.
    pub selected: Option<usize>,
    /// The first chat which is shown.
    pub offset: usize,
}

/// What moving a list of the given length and rows from a place does: the movement and the
/// place it leaves the list in.
pub open spec fn moved(len: nat, rows: usize, place: Place, how: Move) -> (Movement, Place) {
    let selected = place.selected;
    let offset = place.offset;
    match how {
        Move::Down => match selected {
            None => (Movement::Stuck, place),
            Some(s) => if s + 1 >= len {
                (Movement::Stuck, place)
            } else {
                (Movement::Moved, Place {
                    selected: Some((s + 1) as usize),
                    offset: scrolled_to(offset, rows, (s + 1) as usize),
                })
            },
        },
        Move::Up => match selected {
            None => (Movement::Stuck, place),
            Some(s) => if s == 0 {
                (Movement::Stuck, place)
            } else {
                (Movement::Moved, Place {
                    selected: Some((s - 1) as usize),
                    offset: scrolled_to(offset, rows, (s - 1) as usize),
                })
            },
        },
        Move::Last => if len == 0 || selected == Some((len - 1) as usize) {
            (Movement::Stuck, place)
        } else {
            (Movement::Moved, Place {
                selected: Some((len - 1) as usize),
                offset: scrolled_to(offset, rows, (len - 1) as usize),
            })
        },
        Move::First => if len == 0 || selected == Some(0usize) {
            (Movement::Stuck, place)
        } else {
            (Movement::Moved, Place { selected: Some(0), offset: scrolled_to(offset, rows, 0) })
        },
        Move::ScrollDown => if rows == 0 || offset + rows >= len {
            (Movement::Stuck, place)
        } else {
            let new_offset = (offset + 1) as usize;
            (Movement::Moved, Place {
                selected: match selected {
                    Some(s) => if s < new_offset { Some(new_offset) } else { Some(s) },
                    None => None,
                },
                offset: new_offset,
            })
        },
        Move::ScrollUp => if offset == 0 || rows == 0 {
            (Movement::Stuck, place)
        } else {
            let new_offset = (offset - 1) as usize;
            (Movement::Moved, Place {
                selected: match selected {
                    Some(s) => if s >= new_offset + rows {
                        Some((new_offset + rows - 1) as usize)
                    } else {
                        Some(s)
                    },
                    None => None,
                },
                offset: new_offset,
            })
        },
    }
}

/// A list of chats which can be looked through.
///
/// Both the history and the searcher of it show one of these, so what it takes to move around a
/// list of chats is written once.
pub struct Chats {
    /// The chats which are shown.
    entries: Vec<Entry>,
    /// Which chat is selected.
    selected: Option<usize>,
    /// The first chat which is shown.
    offset: usize,
    /// How many rows the list has.
    rows: usize,
}

impl Chats {
    /// The chats which are shown.
    pub closed spec fn entries(&self) -> Seq<Entry> {
        self.entries@
    }

    /// Which chat is selected.
    pub closed spec fn selected_index(&self) -> Option<usize> {
        self.selected
    }

    /// The first chat which is shown.
    pub closed spec fn offset(&self) -> usize {
        self.offset
    }

    /// How many rows the list has.
    pub closed spec fn rows(&self) -> usize {
        self.rows
    }

    /// Where the list is.
    pub open spec fn place(&self) -> Place {
        Place { selected: self.selected_index(), offset: self.offset() }
    }

    /// Whether the selected chat is one of the ones shown, which it always is when there are
    /// rows to show it in.
    pub open spec fn selected_in_view(&self) -> bool {
        self.rows() > 0 ==> match self.selected_index() {
            Some(s) => self.offset() <= s < self.offset() + self.rows(),
            None => true,
        }
    }

    /// What every list of chats keeps to: a chat is selected exactly when there are chats, the
    /// selected one is one of them, and it is in view.
    pub open spec fn wf(&self) -> bool {
        &&& (self.selected_index() is None <==> self.entries().len() == 0)
        &&& (self.selected_index() matches Some(s) ==> s < self.entries().len())
        &&& self.offset() <= self.entries().len()
        &&& self.entries().len() <= usize::MAX
        &&& self.selected_in_view()
    }

    /// Return the rows the chats are shown in, at most some number of them: the title of each
    /// chat from the first shown, with the selected one highlighted.
    pub fn shown(&self, rows: usize) -> (lines: Vec<Line>)
        requires
            self.wf(),
        ensures
            lines@.len() == (if self.entries().len() - self.offset() < rows {
                self.entries().len() - self.offset()
            } else {
                rows as int
            }),
            forall|r: int|
                #![trigger lines@[r]]
                0 <= r < lines@.len() ==> {
                    let index = self.offset() + r;
                    &&& lines@[r].text@ == self.entries()[index].title@
                    &&& lines@[r].style == if self.selected_index() == Some(index as usize) {
                        Style::Selected
                    } else {
                        Style::Plain
                    }
                },
    {
        let count: usize = if self.entries.len() - self.offset < rows {
            self.entries.len() - self.offset
        } else {
            rows
        };
        let mut lines: Vec<Line> = Vec::new();
        let mut r: usize = 0;
        while r < count
            invariant
                self.wf(),
                count <= self.entries@.len() - self.offset,
                r <= count,
                lines@.len() == r,
                forall|k: int|
                    #![trigger lines@[k]]
                    0 <= k < r ==> {
                        let index = self.offset + k;
                        &&& lines@[k].text@ == self.entries@[index].title@
                        &&& lines@[k].style == if self.selected == Some(index as usize) {
                            Style::Selected
                        } else {
                            Style::Plain
                        }
                    },
            decreases count - r,
        {
            let index = self.offset + r;
            let style = if self.selected == Some(index) {
                Style::Selected
            } else {
                Style::Plain
            };
            lines.push(Line { text: string_of(self.entries[index].title.as_str()), style });
            r = r + 1;
        }
        lines
    }

    /// Return an empty list with no rows.
    pub fn new() -> (c: Chats)
        ensures
            c.wf(),
            c.entries().len() == 0,
            c.selected_index() is None,
            c.offset() == 0,
            c.rows() == 0,
    {
        Chats { entries: Vec::new(), selected: None, offset: 0, rows: 0 }
    }

    /// Show some chats, starting again from the first.
    pub fn show(&mut self, entries: Vec<Entry>)
        requires
            old(self).wf(),
        ensures
            final(self).wf(),
            final(self).entries() == entries@,
            final(self).selected_index() == (if entries@.len() == 0 { None } else { Some(0usize) }),
            final(self).offset() == 0,
            final(self).rows() == old(self).rows(),
    {
        self.selected = if entries.len() == 0 { None } else { Some(0) };
        self.entries = entries;
        self.offset = 0;
    }

    /// Take note of how many rows the list has.
    pub fn resize(&mut self, rows: usize)
        requires
            old(self).wf(),
        ensures
            final(self).wf(),
            final(self).rows() == rows,
            final(self).entries() == old(self).entries(),
            final(self).selected_index() == old(self).selected_index(),
            final(self).offset() == match old(self).selected_index() {
                Some(s) => scrolled_to(old(self).offset(), rows, s),
                None => old(self).offset(),
            },
    {
        self.rows = rows;
        self.scroll_to_selected();
    }

    /// Return which chat is selected, if one is.
    pub fn selected(&self) -> (e: Option<&Entry>)
        requires
            self.wf(),
        ensures
            match self.selected_index() {
                Some(s) => e == Some(&self.entries()[s as int]),
                None => e is None,
            },
    {
        match self.selected {
            Some(s) => Some(&self.entries[s]),
            None => None,
        }
    }

    /// Return how many chats there are.
    pub fn len(&self) -> (n: usize)
        ensures
            n == self.entries().len(),
    {
        self.entries.len()
    }

    /// Return the number of the selected chat, if one is selected.
    pub fn selected_number(&self) -> (n: Option<usize>)
        ensures
            n == self.selected_index(),
    {
        self.selected
    }

    /// Return the first chat which is shown.
    pub fn first_shown(&self) -> (n: usize)
        ensures
            n == self.offset(),
    {
        self.offset
    }

    /// Move around the list, and say whether anything came of it.
    pub fn handle(&mut self, key_event: &KeyEvent) -> (m: Movement)
        requires
            old(self).wf(),
        ensures
            final(self).wf(),
            final(self).selected_in_view(),
            final(self).entries() == old(self).entries(),
            final(self).rows() == old(self).rows(),
            match move_of(*key_event) {
                Some(how) => {
                    let (movement, place) = moved(
                        old(self).entries().len(),
                        old(self).rows(),
                        old(self).place(),
                        how,
                    );
                    m == movement && final(self).place() == place
                },
                None => m == Movement::Ignored && final(self).place() == old(self).place(),
            },
    {
        let key = key_event.key;
        let mods = key_event.mods;
        if (key == Key::Char('j') && mods.is_none()) || (key == Key::Down && mods.is_none()) {
            self.down()
        } else if (key == Key::Char('k') && mods.is_none()) || (key == Key::Up && mods.is_none()) {
            self.up()
        } else if (key == Key::Char('J') && mods.is_shift()) || (key == Key::End && mods.is_none()) {
            self.really_down()
        } else if (key == Key::Char('K') && mods.is_shift()) || (key == Key::Home && mods.is_none()) {
            self.really_up()
        } else if key == Key::Char('e') && mods.is_control() {
            self.scroll_down()
        } else if key == Key::Char('y') && mods.is_control() {
            self.scroll_up()
        } else {
            Movement::Ignored
        }
    }

    /// Select the chat after the selected one.
    pub fn down(&mut self) -> (m: Movement)
        requires
            old(self).wf(),
        ensures
            final(self).wf(),
            final(self).entries() == old(self).entries(),
            final(self).rows() == old(self).rows(),
            (m, final(self).place()) == moved(
                old(self).entries().len(),
                old(self).rows(),
                old(self).place(),
                Move::Down,
            ),
    {
        let selected: usize = match self.selected {
            Some(selected) => selected,
            None => return Movement::Stuck,
        };
        assert(selected < self.entries@.len());
        if selected >= self.entries.len() - 1 {
            return Movement::Stuck;
        }
        self.selected = Some(selected + 1);
        self.scroll_to_selected();
        Movement::Moved
    }

    /// Select the chat before the selected one.
    pub fn up(&mut self) -> (m: Movement)
        requires
            old(self).wf(),
        ensures
            final(self).wf(),
            final(self).entries() == old(self).entries(),
            final(self).rows() == old(self).rows(),
            (m, final(self).place()) == moved(
                old(self).entries().len(),
                old(self).rows(),
                old(self).place(),
                Move::Up,
            ),
    {
        let selected: usize = match self.selected {
            Some(selected) => selected,
            None => return Movement::Stuck,
        };
        if selected == 0 {
            return Movement::Stuck;
        }
        self.selected = Some(selected - 1);
        self.scroll_to_selected();
        Movement::Moved
    }

    /// Select the last chat, bringing it into view.
    pub fn really_down(&mut self) -> (m: Movement)
        requires
            old(self).wf(),
        ensures
            final(self).wf(),
            final(self).entries() == old(self).entries(),
            final(self).rows() == old(self).rows(),
            (m, final(self).place()) == moved(
                old(self).entries().len(),
                old(self).rows(),
                old(self).place(),
                Move::Last,
            ),
    {
        if self.entries.len() == 0 {
            return Movement::Stuck;
        }
        if self.selected == Some(self.entries.len() - 1) {
            return Movement::Stuck;
        }
        self.selected = Some(self.entries.len() - 1);
        self.scroll_to_selected();
        Movement::Moved
    }

    /// Select the first chat, bringing it into view.
    pub fn really_up(&mut self) -> (m: Movement)
        requires
            old(self).wf(),
        ensures
            final(self).wf(),
            final(self).entries() == old(self).entries(),
            final(self).rows() == old(self).rows(),
            (m, final(self).place()) == moved(
                old(self).entries().len(),
                old(self).rows(),
                old(self).place(),
                Move::First,
            ),
    {
        if self.entries.len() == 0 || self.selected == Some(0) {
            return Movement::Stuck;
        }
        self.selected = Some(0);
        self.scroll_to_selected();
        Movement::Moved
    }

    /// Show the chats after the ones which are shown.
    pub fn scroll_down(&mut self) -> (m: Movement)
        requires
            old(self).wf(),
        ensures
            final(self).wf(),
            final(self).entries() == old(self).entries(),
            final(self).rows() == old(self).rows(),
            (m, final(self).place()) == moved(
                old(self).entries().len(),
                old(self).rows(),
                old(self).place(),
                Move::ScrollDown,
            ),
    {
        // The offset is never past the end, so this is `offset + rows >= len` without the sum.
        if self.rows == 0 || self.rows >= self.entries.len() - self.offset {
            return Movement::Stuck;
        }
        self.offset = self.offset + 1;
        // What is selected goes with the view rather than out of it.
        if let Some(selected) = self.selected {
            if selected < self.offset {
                self.selected = Some(self.offset);
            }
        }
        Movement::Moved
    }

    /// Show the chats before the ones which are shown.
    pub fn scroll_up(&mut self) -> (m: Movement)
        requires
            old(self).wf(),
        ensures
            final(self).wf(),
            final(self).entries() == old(self).entries(),
            final(self).rows() == old(self).rows(),
            (m, final(self).place()) == moved(
                old(self).entries().len(),
                old(self).rows(),
                old(self).place(),
                Move::ScrollUp,
            ),
    {
        if self.offset == 0 || self.rows == 0 {
            return Movement::Stuck;
        }
        self.offset = self.offset - 1;
        if let Some(selected) = self.selected {
            // The selected chat is at most `offset + rows`, so this is
            // `selected >= offset + rows` without the sum.
            if selected >= self.offset && selected - self.offset >= self.rows {
                self.selected = Some(self.offset + (self.rows - 1));
            }
        }
        Movement::Moved
    }

    /// Bring the selected chat into view.
    fn scroll_to_selected(&mut self)
        requires
            old(self).selected_index() matches Some(s) ==> s < old(self).entries().len(),
            old(self).selected_index() is None <==> old(self).entries().len() == 0,
            old(self).offset() <= old(self).entries().len(),
            old(self).entries().len() <= usize::MAX,
        ensures
            final(self).wf(),
            final(self).entries() == old(self).entries(),
            final(self).rows() == old(self).rows(),
            final(self).selected_index() == old(self).selected_index(),
            final(self).offset() == match old(self).selected_index() {
                Some(s) => scrolled_to(old(self).offset(), old(self).rows(), s),
                None => old(self).offset(),
            },
    {
        let selected: usize = match self.selected {
            Some(selected) => selected,
            None => return,
        };
        if selected < self.offset {
            self.offset = selected;
        } else if self.rows > 0 && selected - self.offset >= self.rows {
            self.offset = selected - (self.rows - 1);
        }
    }
}

impl Default for Chats {
    fn default() -> (c: Chats)
        ensures
            c.wf(),
            c.entries().len() == 0,
            c.selected_index() is None,
            c.offset() == 0,
            c.rows() == 0,
    {
        Chats::new()
    }
}

/// Where you are in a list of chats, as the footer shows it: the number of the selected chat
/// (or a dash) over how many there are.
pub open spec fn position_text(selected: Option<usize>, len: nat) -> Seq<char> {
    if len == 0 {
        seq!['-', '/', '0']
    } else {
        let number = match selected {
            Some(s) => decimal((s + 1) as nat),
            None => seq!['-'],
        };
        number + seq!['/'] + decimal(len)
    }
}

impl Chats {
    /// Return where you are in the list, as the footer shows it.
    pub fn position_string(&self) -> (p: String)
        requires
            self.wf(),
        ensures
            p@ == position_text(self.selected_index(), self.entries().len()),
    {
        if self.entries.len() == 0 {
            let mut p = String::new();
            push_char(&mut p, '-');
            push_char(&mut p, '/');
            push_char(&mut p, '0');
            assert(p@ =~= seq!['-', '/', '0']);
            return p;
        }
        let mut p = match self.selected {
            Some(selected) => decimal_string((selected + 1) as u64),
            None => {
                let mut dash = String::new();
                push_char(&mut dash, '-');
                assert(dash@ =~= seq!['-']);
                dash
            },
        };
        push_char(&mut p, '/');
        let len = decimal_string(self.entries.len() as u64);
        p.append(len.as_str());
        assert(p@ =~= position_text(self.selected_index(), self.entries().len()));
        p
    }
}

/// Where you are in a list of chats as the footer is told it, whatever the list holds: as
/// `position_text` says, where a selected chat past the end of the list is shown by its own
/// index rather than the one after it.
pub open spec fn info_position_text(selected: Option<usize>, len: nat) -> Seq<char> {
    if len == 0 {
        seq!['-', '/', '0']
    } else {
        let number = match selected {
            Some(s) => if s < len { decimal((s + 1) as nat) } else { decimal(s as nat) },
            None => seq!['-'],
        };
        number + seq!['/'] + decimal(len)
    }
}

impl Info for Chats {
    fn position(&self) -> (p: String)
        ensures
            p@ == info_position_text(self.selected_index(), self.entries().len()),
            self.wf() ==> p@ == position_text(self.selected_index(), self.entries().len()),
    {
        if self.entries.len() == 0 {
            let mut p = String::new();
            push_char(&mut p, '-');
            push_char(&mut p, '/');
            push_char(&mut p, '0');
            assert(p@ =~= seq!['-', '/', '0']);
            return p;
        }
        let mut p = match self.selected {
            Some(selected) => if selected < self.entries.len() {
                decimal_string((selected + 1) as u64)
            } else {
                decimal_string(selected as u64)
            },
            None => {
                let mut dash = String::new();
                push_char(&mut dash, '-');
                assert(dash@ =~= seq!['-']);
                dash
            },
        };
        push_char(&mut p, '/');
        let len = decimal_string(self.entries.len() as u64);
        p.append(len.as_str());
        assert(p@ =~= info_position_text(self.selected_index(), self.entries().len()));
        p
    }
}

} // verus!

verus! {

/// The most chats to ask for at a time.
pub const CHAT_LIMIT: usize = 100;

/// The rows which the footer takes.
pub const FOOTER_ROWS: usize = 1;

/// A history effect.
#[derive(Debug, PartialEq, Eq)]
pub enum Effect {
    /// Open a chat.
    Open {
        /// Which chat to open.
        id: i64,
    },
    /// Make a request.
    Request(Request),
    /// Start a new chat.
    New,
    /// Search the past chats.
    Search,
    /// Go back to the chat.
    Quit,
    /// Ring the bell.
    Bell,
}

/// What the history is told about.
#[derive(Debug, PartialEq, Eq)]
pub enum Event {
    /// The daemon answered.
    Response(Response),
    /// The terminal reported something.
    TermEvent(TermEvent),
}

/// Whether a key is the `d` which deletes a chat when it is pressed twice.
pub open spec fn is_delete_key(key_event: KeyEvent) -> bool {
    key_event.key == Key::Char('d') && key_event.mods == no_mods()
}

/// The effect of a key which neither deletes nor moves around the list, given the chat which is
/// selected.
pub open spec fn other_key_effect(key_event: KeyEvent, selected: Option<Entry>) -> Option<Effect> {
    let key = key_event.key;
    let mods = key_event.mods;
    if key == Key::Char('q') && mods == control_mods() {
        Some(Effect::Quit)
    } else if key == Key::Char('n') && mods == no_mods() {
        Some(Effect::New)
    } else if key == Key::Char('/') && mods == no_mods() {
        Some(Effect::Search)
    } else if key == Key::CarriageReturn || (key == Key::Char('l') && mods == no_mods()) {
        match selected {
            Some(entry) => Some(Effect::Open { id: entry.id }),
            None => None,
        }
    } else {
        None
    }
}

/// The chats a list shows for the chats the daemon sent.
pub open spec fn entries_of(chats: Seq<ChatSummary>) -> Seq<Entry> {
    chats.map_values(|chat: ChatSummary| Entry { id: chat.id, title: chat.title })
}

/// The past chats.
pub struct History {
    /// The chats.
    chats: Chats,
    /// Whether a `d` has been pressed and is waiting for the second one which deletes a chat.
    deleting: bool,
}

impl History {
    /// The list of chats.
    pub closed spec fn chats(&self) -> &Chats {
        &self.chats
    }

    /// Whether a `d` is waiting for a second one.
    pub closed spec fn is_deleting(&self) -> bool {
        self.deleting
    }

    /// What every history keeps to.
    pub open spec fn wf(&self) -> bool {
        self.chats().wf()
    }

    /// The chat which is selected, if one is.
    pub open spec fn selected_entry(&self) -> Option<Entry> {
        match self.chats().selected_index() {
            Some(s) => Some(self.chats().entries()[s as int]),
            None => None,
        }
    }

    /// Return an empty history with room for the given size.
    ///
    /// How much of the list is on the screen is what keeps the selected chat in view, and it is
    /// only ever told that again when the terminal changes size.
    pub fn new(size: Size) -> (h: History)
        ensures
            h.wf(),
            h.chats().entries().len() == 0,
            h.chats().rows() == (if size.rows >= FOOTER_ROWS { size.rows - FOOTER_ROWS } else { 0 }),
            !h.is_deleting(),
    {
        let mut chats = Chats::new();
        chats.resize(size.rows.saturating_sub(FOOTER_ROWS));
        History { chats, deleting: false }
    }

    /// Return the list of chats.
    pub fn list(&self) -> (c: &Chats)
        ensures
            c == self.chats(),
    {
        &self.chats
    }

    /// Return the name of the component.
    pub fn name(&self) -> (n: String)
        ensures
            n@ == "inshie history"@,
    {
        crate::text::string_of("inshie history")
    }

    /// Return the request to make when the history is opened.
    pub fn initial_request() -> (r: Request)
        ensures
            r.params == (RequestParams::ListChats { limit: CHAT_LIMIT }),
    {
        Request::new(RequestParams::ListChats { limit: CHAT_LIMIT })
    }

    /// Handle something which happened.
    pub fn handle(&mut self, event: Event) -> (r: Option<Effect>)
        requires
            old(self).wf(),
        ensures
            final(self).wf(),
            Self::handled(*old(self), *final(self), event, r),
    {
        match event {
            Event::Response(response) => self.handle_response(response),
            Event::TermEvent(TermEvent::Resize(size)) => {
                self.chats.resize(size.rows.saturating_sub(FOOTER_ROWS));
                None
            },
            Event::TermEvent(TermEvent::KeyEvent(key_event)) => self.handle_key(key_event),
            Event::TermEvent(TermEvent::Paste(_)) => None,
        }
    }

    /// What handling something which happened does to a history, and what it gives back.
    pub open spec fn handled(before: History, after: History, event: Event, r: Option<Effect>) -> bool {
        match event {
            Event::Response(response) => Self::responded(before, after, response, r),
            Event::TermEvent(TermEvent::Resize(size)) => {
                &&& r is None
                &&& after.chats().rows() == (if size.rows >= FOOTER_ROWS {
                    size.rows - FOOTER_ROWS
                } else {
                    0
                })
                &&& after.chats().entries() == before.chats().entries()
                &&& after.chats().selected_index() == before.chats().selected_index()
                &&& after.is_deleting() == before.is_deleting()
            },
            Event::TermEvent(TermEvent::KeyEvent(key_event)) => Self::keyed(before, after, key_event, r),
            Event::TermEvent(TermEvent::Paste(_)) => r is None && after == before,
        }
    }

    /// What typing a key does to a history, and what it gives back.
    pub open spec fn keyed(
        before: History,
        after: History,
        key_event: KeyEvent,
        r: Option<Effect>,
    ) -> bool {
        &&& after.chats().entries() == before.chats().entries()
        &&& after.chats().rows() == before.chats().rows()
        &&& if is_delete_key(key_event) {
            &&& after.chats().place() == before.chats().place()
            &&& if !before.is_deleting() {
                // Deleting takes two presses of `d`.
                after.is_deleting() && r is None
            } else {
                &&& !after.is_deleting()
                &&& match before.selected_entry() {
                    Some(entry) => r matches Some(Effect::Request(request)) && request.params
                        == (RequestParams::DeleteChat { chat_id: entry.id }),
                    None => r == Some(Effect::Bell),
                }
            }
        } else {
            // Anything else in between calls the deleting off.
            &&& !after.is_deleting()
            &&& match move_of(key_event) {
                Some(how) => {
                    let (movement, place) = moved(
                        before.chats().entries().len(),
                        before.chats().rows(),
                        before.chats().place(),
                        how,
                    );
                    &&& after.chats().place() == place
                    &&& r == (if movement == Movement::Moved {
                        None::<Effect>
                    } else {
                        Some(Effect::Bell)
                    })
                },
                None => {
                    &&& after.chats().place() == before.chats().place()
                    &&& r == other_key_effect(key_event, before.selected_entry())
                },
            }
        }
    }

    /// What a response does to a history, and what it gives back.
    pub open spec fn responded(
        before: History,
        after: History,
        response: Response,
        r: Option<Effect>,
    ) -> bool {
        &&& after.chats().rows() == before.chats().rows()
        &&& after.is_deleting() == before.is_deleting()
        &&& match response.params {
            ResponseParams::ListChats { chats } => {
                &&& r is None
                &&& after.chats().entries() == entries_of(chats@)
                &&& after.chats().selected_index() == (if chats@.len() == 0 {
                    None
                } else {
                    Some(0usize)
                })
                &&& after.chats().offset() == 0
            },
            // A chat which was deleted is still in the list until it is asked for again.
            ResponseParams::DeleteChat { deleted } => {
                &&& after.chats() == before.chats()
                &&& if deleted {
                    r matches Some(Effect::Request(request)) && request.params
                        == (RequestParams::ListChats { limit: CHAT_LIMIT })
                } else {
                    r == Some(Effect::Bell)
                }
            },
            _ => r is None && after == before,
        }
    }

    /// Handle something which was typed.
    fn handle_key(&mut self, key_event: KeyEvent) -> (r: Option<Effect>)
        requires
            old(self).wf(),
        ensures
            final(self).wf(),
            Self::keyed(*old(self), *final(self), key_event, r),
    {
        // Deleting takes two presses of `d`, and anything else in between calls it off.
        let deleting: bool = self.deleting;
        self.deleting = false;
        if key_event.key == Key::Char('d') && key_event.mods.is_none() {
            if !deleting {
                self.deleting = true;
                return None;
            }
            let entry: &Entry = match self.chats.selected() {
                Some(entry) => entry,
                None => return Some(Effect::Bell),
            };
            return Some(
                Effect::Request(Request::new(RequestParams::DeleteChat { chat_id: entry.id })),
            );
        }
        match self.chats.handle(&key_event) {
            Movement::Moved => return None,
            Movement::Stuck => return Some(Effect::Bell),
            Movement::Ignored => {},
        }
        let key = key_event.key;
        let mods = key_event.mods;
        if key == Key::Char('q') && mods.is_control() {
            Some(Effect::Quit)
        } else if key == Key::Char('n') && mods.is_none() {
            Some(Effect::New)
        } else if key == Key::Char('/') && mods.is_none() {
            Some(Effect::Search)
        } else if key == Key::CarriageReturn || (key == Key::Char('l') && mods.is_none()) {
            match self.chats.selected() {
                Some(entry) => Some(Effect::Open { id: entry.id }),
                None => None,
            }
        } else {
            None
        }
    }

    /// Handle a response from the daemon.
    fn handle_response(&mut self, response: Response) -> (r: Option<Effect>)
        requires
            old(self).wf(),
        ensures
            final(self).wf(),
            Self::responded(*old(self), *final(self), response, r),
    {
        match response.params {
            ResponseParams::ListChats { chats } => {
                let mut entries: Vec<Entry> = Vec::new();
                let mut i: usize = 0;
                while i < chats.len()
                    invariant
                        i <= chats.len(),
                        entries@ == entries_of(chats@.take(i as int)),
                    decreases chats.len() - i,
                {
                    entries.push(Entry { id: chats[i].id, title: chats[i].title.clone() });
                    assert(entries_of(chats@.take(i + 1)) =~= entries_of(chats@.take(i as int)).push(
                        Entry { id: chats@[i as int].id, title: chats@[i as int].title },
                    ));
                    i = i + 1;
                }
                assert(chats@.take(chats.len() as int) =~= chats@);
                self.chats.show(entries);
                None
            },
            // A chat which was deleted is still in the list until it is asked for again.
            ResponseParams::DeleteChat { deleted } => {
                if deleted {
                    Some(Effect::Request(Self::initial_request()))
                } else {
                    Some(Effect::Bell)
                }
            },
            _ => None,
        }
    }
}

impl Info for History {
    fn position(&self) -> (p: String)
        ensures
            p@ == info_position_text(self.chats().selected_index(), self.chats().entries().len()),
            self.wf() ==> p@ == position_text(
                self.chats().selected_index(),
                self.chats().entries().len(),
            ),
    {
        self.chats.position()
    }
}

} // verus!

verus! {

/// The `d` which deletes a chat when it is pressed twice.
pub open spec fn delete_key() -> KeyEvent {
    KeyEvent { key: Key::Char('d'), mods: no_mods() }
}

/// One `d` does nothing on its own, and the second one deletes the selected chat (or rings the
/// bell when no chat is selected).
pub proof fn lemma_two_ds_delete_a_chat(
    h0: History,
    h1: History,
    h2: History,
    r1: Option<Effect>,
    r2: Option<Effect>,
)
    requires
        !h0.is_deleting(),
        History::keyed(h0, h1, delete_key(), r1),
        History::keyed(h1, h2, delete_key(), r2),
    ensures
        r1 is None,
        !h2.is_deleting(),
        match h0.selected_entry() {
            Some(entry) => r2 matches Some(Effect::Request(request)) && request.params
                == (RequestParams::DeleteChat { chat_id: entry.id }),
            None => r2 == Some(Effect::Bell),
        },
{
}

/// Anything typed between two presses of `d` calls the deleting off, so the second `d` does not
/// delete anything.
pub proof fn lemma_a_key_in_between_calls_the_delete_off(
    h0: History,
    h1: History,
    h2: History,
    h3: History,
    key_event: KeyEvent,
    r1: Option<Effect>,
    r2: Option<Effect>,
    r3: Option<Effect>,
)
    requires
        History::keyed(h0, h1, delete_key(), r1),
        !is_delete_key(key_event),
        History::keyed(h1, h2, key_event, r2),
        History::keyed(h2, h3, delete_key(), r3),
    ensures
        r3 is None,
        h3.is_deleting(),
{
}

/// Jumping to the last chat selects it, and jumping there again finds nowhere to go; the same
/// holds of the first chat.
pub proof fn lemma_jumps_go_to_the_ends(len: nat, rows: usize, place: Place)
    requires
        len > 0,
        place.selected matches Some(s) ==> s < len,
        len <= usize::MAX,
    ensures
        moved(len, rows, place, Move::Last).1.selected == Some((len - 1) as usize),
        moved(len, rows, moved(len, rows, place, Move::Last).1, Move::Last).0 == Movement::Stuck,
        moved(len, rows, place, Move::First).1.selected == Some(0usize),
        moved(len, rows, moved(len, rows, place, Move::First).1, Move::First).0 == Movement::Stuck,
{
}

/// Moving around a list of chats with rows to show it in keeps the selected chat on the screen,
/// however far it is moved.
pub proof fn lemma_moving_keeps_the_selected_chat_in_view(
    before: Chats,
    after: Chats,
    how: Move,
)
    requires
        before.wf(),
        after.entries() == before.entries(),
        after.rows() == before.rows(),
        after.place() == moved(before.entries().len(), before.rows(), before.place(), how).1,
    ensures
        after.selected_in_view(),
{
    match how {
        Move::Down => {},
        Move::Up => {},
        Move::Last => {},
        Move::First => {},
        Move::ScrollDown => {},
        Move::ScrollUp => {},
    }
}


/// Pressing `k` with a chat after the first selected selects the one before it, and pressing `j`
/// with a chat before the last selected selects the one after it: each moves the selection by one
/// chat, and no further.
pub proof fn law_k_and_j_move_by_one_chat(len: nat, rows: usize, place: Place, s: usize)
    requires
        place.selected == Some(s),
        s < len,
        len <= usize::MAX,
    ensures
        0 < s ==> moved(len, rows, place, Move::Up).0 == Movement::Moved
            && moved(len, rows, place, Move::Up).1.selected == Some((s - 1) as usize),
        s == 0 ==> moved(len, rows, place, Move::Up).0 == Movement::Stuck
            && moved(len, rows, place, Move::Up).1 == place,
        s + 1 < len ==> moved(len, rows, place, Move::Down).0 == Movement::Moved
            && moved(len, rows, place, Move::Down).1.selected == Some((s + 1) as usize),
        s + 1 == len ==> moved(len, rows, place, Move::Down).0 == Movement::Stuck
            && moved(len, rows, place, Move::Down).1 == place,
{
}

/// Pressing `k` undoes pressing `j`: with a chat before the last selected, going down and then
/// up selects the same chat again.
pub proof fn law_k_undoes_j(len: nat, rows: usize, place: Place, s: usize)
    requires
        place.selected == Some(s),
        s + 1 < len,
        len <= usize::MAX,
    ensures
        moved(len, rows, moved(len, rows, place, Move::Down).1, Move::Up).1.selected == Some(s),
{
}

} // verus!
