//! Commands typed as short sequences of keys, such as `yy`, and the parser which turns the keys
//! pressed into them one key at a time.

use vstd::prelude::*;

use crate::keys::{Key, KeyEvent, KeyMods};
use crate::text::{push_char, string_of};

verus! {

/// A key which a command is typed with: the key, and the modifiers held with it, where `None`
/// stands for any modifiers at all.
#[derive(Clone, Copy, Debug, PartialEq, Eq, Structural)]
pub struct KeyPattern {
    /// The key.
    pub key: Key,
    /// The modifiers which have to be held, or `None` for any.
    pub mods: Option<KeyMods>,
}

impl KeyPattern {
    /// Whether a key pressed is one the pattern stands for.
    pub open spec fn spec_matches(self, event: KeyEvent) -> bool {
        self.key == event.key && match self.mods {
            Some(mods) => mods == event.mods,
            None => true,
        }
    }

    /// Return the pattern of a key pressed with exactly the given modifiers.
    pub fn exact(key: Key, mods: KeyMods) -> (p: KeyPattern)
        ensures
            p == (KeyPattern { key, mods: Some(mods) }),
    {
        KeyPattern { key, mods: Some(mods) }
    }

    /// Return the pattern of a key pressed with any modifiers.
    pub fn any(key: Key) -> (p: KeyPattern)
        ensures
            p == (KeyPattern { key, mods: None }),
    {
        KeyPattern { key, mods: None }
    }

    /// Return whether a key pressed is one the pattern stands for.
    pub fn matches(&self, event: &KeyEvent) -> (r: bool)
        ensures
            r == self.spec_matches(*event),
    {
        if self.key != event.key {
            return false;
        }
        match self.mods {
            Some(mods) => mods == event.mods,
            None => true,
        }
    }
}

/// Whether the keys pressed so far are the first keys of a sequence of patterns: no more of them
/// than there are patterns, and each one matched by the pattern in its place.
pub open spec fn begins(patterns: Seq<KeyPattern>, keys: Seq<KeyEvent>) -> bool {
    &&& keys.len() <= patterns.len()
    &&& forall|i: int| 0 <= i < keys.len() ==> #[trigger] patterns[i].spec_matches(keys[i])
}

/// Whether the keys pressed are exactly what a sequence of patterns stands for.
pub open spec fn spells(patterns: Seq<KeyPattern>, keys: Seq<KeyEvent>) -> bool {
    begins(patterns, keys) && keys.len() == patterns.len()
}

/// A sequence of keys and the command it types.
pub struct Binding<A> {
    /// The keys, in the order they are pressed.
    pub keys: Vec<KeyPattern>,
    /// The command.
    pub command: A,
}

/// What the keys pressed so far came to.
#[derive(Debug, PartialEq, Eq)]
pub enum Parsed<A> {
    /// A command was typed.
    Command(A),
    /// The keys are the start of a command, so more are waited for.
    Pending,
    /// The keys are not the start of any command, and are thrown away.
    Unknown(Vec<KeyEvent>),
}

/// The index of the first binding whose keys are exactly the keys pressed, if any.
pub open spec fn first_spelled<A>(bindings: Seq<(Seq<KeyPattern>, A)>, keys: Seq<KeyEvent>) -> Option<int>
    decreases bindings.len(),
{
    if bindings.len() == 0 {
        None
    } else {
        match first_spelled(bindings.drop_last(), keys) {
            Some(i) => Some(i),
            None => if spells(bindings.last().0, keys) {
                Some(bindings.len() - 1)
            } else {
                None
            },
        }
    }
}

/// Once some binding is the first one spelled by the keys among the first few, it stays the
/// first one among all of them.
pub proof fn lemma_first_spelled_grows<A>(bindings: Seq<(Seq<KeyPattern>, A)>, keys: Seq<KeyEvent>, k: int)
    requires
        0 <= k <= bindings.len(),
        first_spelled(bindings.take(k), keys) is Some,
    ensures
        first_spelled(bindings, keys) == first_spelled(bindings.take(k), keys),
    decreases bindings.len() - k,
{
    if k < bindings.len() {
        assert(bindings.take(k + 1).drop_last() =~= bindings.take(k));
        lemma_first_spelled_grows(bindings, keys, k + 1);
    } else {
        assert(bindings.take(k) =~= bindings);
    }
}

/// Whether the keys pressed are the start of some binding.
pub open spec fn some_begins<A>(bindings: Seq<(Seq<KeyPattern>, A)>, keys: Seq<KeyEvent>) -> bool {
    exists|i: int| 0 <= i < bindings.len() && begins(#[trigger] bindings[i].0, keys)
}

/// Turns keys pressed one at a time into commands.
pub struct CommandParser<A> {
    /// The bindings, in the order they were made.
    bindings: Vec<Binding<A>>,
    /// The keys pressed since the last command, which are the start of one.
    pending: Vec<KeyEvent>,
}

impl<A: Copy> CommandParser<A> {
    /// The bindings, each as its keys and its command.
    pub closed spec fn bindings(&self) -> Seq<(Seq<KeyPattern>, A)> {
        self.bindings@.map_values(|b: Binding<A>| (b.keys@, b.command))
    }

    /// The keys pressed since the last command.
    pub closed spec fn spec_pending(&self) -> Seq<KeyEvent> {
        self.pending@
    }

    /// Return a parser with no bindings.
    pub fn new() -> (p: CommandParser<A>)
        ensures
            p.bindings() == Seq::<(Seq<KeyPattern>, A)>::empty(),
            p.spec_pending() == Seq::<KeyEvent>::empty(),
    {
        let p = CommandParser { bindings: Vec::new(), pending: Vec::new() };
        assert(p.bindings() =~= Seq::<(Seq<KeyPattern>, A)>::empty());
        p
    }

    /// Return the parser with one more binding, which comes after the others.
    pub fn bind(self, keys: Vec<KeyPattern>, command: A) -> (p: CommandParser<A>)
        ensures
            p.bindings() == self.bindings().push((keys@, command)),
            p.spec_pending() == self.spec_pending(),
    {
        let mut p = self;
        let ghost before = p.bindings();
        p.bindings.push(Binding { keys, command });
        assert(p.bindings() =~= before.push((keys@, command)));
        p
    }

    /// Return the keys pressed since the last command.
    pub fn pending(&self) -> (keys: &Vec<KeyEvent>)
        ensures
            keys@ == self.spec_pending(),
    {
        &self.pending
    }

    /// Return whether a binding's keys are exactly the keys given, or only their start.
    fn compare(patterns: &Vec<KeyPattern>, keys: &Vec<KeyEvent>) -> (r: (bool, bool))
        ensures
            r.0 == begins(patterns@, keys@),
            r.1 == spells(patterns@, keys@),
    {
        if keys.len() > patterns.len() {
            return (false, false);
        }
        let mut i: usize = 0;
        while i < keys.len()
            invariant
                i <= keys.len() <= patterns.len(),
                forall|j: int| 0 <= j < i ==> #[trigger] patterns@[j].spec_matches(keys@[j]),
            decreases keys.len() - i,
        {
            if !patterns[i].matches(&keys[i]) {
                return (false, false);
            }
            i = i + 1;
        }
        (true, keys.len() == patterns.len())
    }

    /// Return the command which a key would complete, if it would complete one, without taking
    /// the key in.
    pub fn peek(&self, key: KeyEvent) -> (command: Option<A>)
        ensures
            match first_spelled(self.bindings(), self.spec_pending().push(key)) {
                Some(i) => command == Some(self.bindings()[i].1),
                None => command is None,
            },
    {
        let mut keys: Vec<KeyEvent> = Vec::new();
        let mut k: usize = 0;
        while k < self.pending.len()
            invariant
                k <= self.pending.len(),
                keys@ == self.pending@.take(k as int),
            decreases self.pending.len() - k,
        {
            keys.push(self.pending[k]);
            assert(keys@ =~= self.pending@.take(k + 1));
            k = k + 1;
        }
        keys.push(key);
        assert(keys@ =~= self.spec_pending().push(key));
        let ghost bindings = self.bindings();
        let mut i: usize = 0;
        while i < self.bindings.len()
            invariant
                i <= self.bindings.len(),
                keys@ == self.spec_pending().push(key),
                bindings == self.bindings(),
                bindings.len() == self.bindings@.len(),
                first_spelled(bindings.take(i as int), keys@) is None,
            decreases self.bindings.len() - i,
        {
            let (_, whole) = Self::compare(&self.bindings[i].keys, &keys);
            assert(bindings.take(i + 1).drop_last() =~= bindings.take(i as int));
            assert(bindings.take(i + 1).last() == bindings[i as int]);
            assert(bindings[i as int].0 == self.bindings@[i as int].keys@);
            if whole {
                proof {
                    lemma_first_spelled_grows(bindings, keys@, i + 1);
                }
                return Some(self.bindings[i].command);
            }
            i = i + 1;
        }
        assert(bindings.take(i as int) =~= bindings);
        None
    }

    /// Take in a key: the keys pressed since the last command, this one included, are a command,
    /// the start of one, or neither, in which case they are given back and forgotten. Where they
    /// are more than one command, the one bound first is taken.
    pub fn parse(&mut self, key: KeyEvent) -> (parsed: Parsed<A>)
        ensures
            final(self).bindings() == old(self).bindings(),
            ({
                let keys = old(self).spec_pending().push(key);
                match first_spelled(old(self).bindings(), keys) {
                    Some(i) => parsed == Parsed::Command(old(self).bindings()[i].1)
                        && final(self).spec_pending() == Seq::<KeyEvent>::empty(),
                    None => if some_begins(old(self).bindings(), keys) {
                        parsed == Parsed::<A>::Pending && final(self).spec_pending() == keys
                    } else {
                        parsed matches Parsed::Unknown(unknown) && unknown@ == keys
                            && final(self).spec_pending() == Seq::<KeyEvent>::empty()
                    },
                }
            }),
    {
        self.pending.push(key);
        let ghost keys = self.pending@;
        let ghost bindings = self.bindings();
        let mut begun = false;
        let mut i: usize = 0;
        while i < self.bindings.len()
            invariant
                i <= self.bindings.len(),
                self.pending@ == keys,
                keys == old(self).spec_pending().push(key),
                self.bindings() == bindings,
                bindings == old(self).bindings(),
                bindings.len() == self.bindings@.len(),
                first_spelled(bindings.take(i as int), keys) is None,
                begun <==> some_begins(bindings.take(i as int), keys),
            decreases self.bindings.len() - i,
        {
            let (starts, whole) = Self::compare(&self.bindings[i].keys, &self.pending);
            assert(bindings.take(i + 1).drop_last() =~= bindings.take(i as int));
            assert(bindings.take(i + 1).last() == bindings[i as int]);
            if whole {
                let command: A = self.bindings[i].command;
                proof {
                    lemma_first_spelled_grows(bindings, keys, i + 1);
                }
                self.pending = Vec::new();
                return Parsed::Command(command);
            }
            let ghost was_begun = begun;
            if starts {
                begun = true;
            }
            proof {
                let t0 = bindings.take(i as int);
                let t1 = bindings.take(i + 1);
                assert(bindings[i as int].0 == self.bindings@[i as int].keys@);
                assert(t1[i as int] == bindings[i as int]);
                assert forall|j: int| 0 <= j < i implies t1[j] == t0[j] by {}
                if starts {
                    assert(begins(t1[i as int].0, keys));
                }
                if some_begins(t1, keys) {
                    let j = choose|j: int| 0 <= j < i + 1 && begins(#[trigger] t1[j].0, keys);
                    if j < i {
                        assert(begins(t0[j].0, keys));
                    }
                }
                if some_begins(t0, keys) {
                    let j = choose|j: int| 0 <= j < i && begins(#[trigger] t0[j].0, keys);
                    assert(begins(t1[j].0, keys));
                }
                assert(begun <==> some_begins(t1, keys));
            }
            i = i + 1;
        }
        assert(bindings.take(i as int) =~= bindings);
        if begun {
            Parsed::Pending
        } else {
            let mut unknown: Vec<KeyEvent> = Vec::new();
            std::mem::swap(&mut unknown, &mut self.pending);
            Parsed::Unknown(unknown)
        }
    }
}

/// The name a key other than a character is written as.
pub open spec fn key_name(key: Key) -> Seq<char> {
    match key {
        Key::Char(c) => seq![c],
        Key::CarriageReturn => seq!['C', 'R'],
        Key::Backspace => seq!['B', 'S'],
        Key::HorizontalTab => seq!['T', 'a', 'b'],
        Key::Escape => seq!['E', 's', 'c'],
        Key::Up => seq!['U', 'p'],
        Key::Down => seq!['D', 'o', 'w', 'n'],
        Key::Left => seq!['L', 'e', 'f', 't'],
        Key::Right => seq!['R', 'i', 'g', 'h', 't'],
        Key::Home => seq!['H', 'o', 'm', 'e'],
        Key::End => seq!['E', 'n', 'd'],
    }
}

/// How a key pressed is written: a character typed on its own (shifted or not) as itself, and
/// anything else in angle brackets, as its name after `C-` for control, `A-` for alt and, for a
/// key which is not a character, `S-` for shift.
pub open spec fn key_text(event: KeyEvent) -> Seq<char> {
    let mods = event.mods;
    match event.key {
        Key::Char(c) if !mods.control && !mods.alt => seq![c],
        _ => {
            let shift = match event.key {
                Key::Char(_) => false,
                _ => mods.shift,
            };
            seq!['<'] + (if mods.control { seq!['C', '-'] } else { Seq::empty() }) + (if mods.alt {
                seq!['A', '-']
            } else {
                Seq::empty()
            }) + (if shift { seq!['S', '-'] } else { Seq::empty() }) + key_name(event.key) + seq![
                '>',
            ]
        },
    }
}

/// How some keys pressed one after another are written: each as `key_text` has it, with nothing
/// in between.
pub open spec fn keys_text(keys: Seq<KeyEvent>) -> Seq<char>
    decreases keys.len(),
{
    if keys.len() == 0 {
        Seq::empty()
    } else {
        keys_text(keys.drop_last()) + key_text(keys.last())
    }
}

/// Add a piece of text to the end of a string.
fn push_text(s: &mut String, text: &str)
    ensures
        final(s)@ == old(s)@ + text@,
{
    s.append(text);
}

/// Add the name of a key to the end of a string.
fn push_key_name(s: &mut String, key: Key)
    ensures
        final(s)@ == old(s)@ + key_name(key),
{
    match key {
        Key::Char(c) => {
            push_char(s, c);
            assert(old(s)@.push(c) =~= old(s)@ + seq![c]);
        },
        Key::CarriageReturn => {
            push_text(s, "CR");
            proof { reveal_strlit("CR"); }
        },
        Key::Backspace => {
            push_text(s, "BS");
            proof { reveal_strlit("BS"); }
        },
        Key::HorizontalTab => {
            push_text(s, "Tab");
            proof { reveal_strlit("Tab"); }
        },
        Key::Escape => {
            push_text(s, "Esc");
            proof { reveal_strlit("Esc"); }
        },
        Key::Up => {
            push_text(s, "Up");
            proof { reveal_strlit("Up"); }
        },
        Key::Down => {
            push_text(s, "Down");
            proof { reveal_strlit("Down"); }
        },
        Key::Left => {
            push_text(s, "Left");
            proof { reveal_strlit("Left"); }
        },
        Key::Right => {
            push_text(s, "Right");
            proof { reveal_strlit("Right"); }
        },
        Key::Home => {
            push_text(s, "Home");
            proof { reveal_strlit("Home"); }
        },
        Key::End => {
            push_text(s, "End");
            proof { reveal_strlit("End"); }
        },
    }
}

/// Add how a key pressed is written to the end of a string.
fn push_key_text(s: &mut String, event: KeyEvent)
    ensures
        final(s)@ == old(s)@ + key_text(event),
{
    let mods = event.mods;
    if let Key::Char(c) = event.key {
        if !mods.control && !mods.alt {
            push_char(s, c);
            assert(old(s)@.push(c) =~= old(s)@ + seq![c]);
            return;
        }
    }
    push_char(s, '<');
    let ghost a = s@;
    if mods.control {
        push_char(s, 'C');
        push_char(s, '-');
    }
    let ghost b = s@;
    assert(b =~= a + (if mods.control { seq!['C', '-'] } else { Seq::<char>::empty() }));
    if mods.alt {
        push_char(s, 'A');
        push_char(s, '-');
    }
    let ghost c = s@;
    assert(c =~= b + (if mods.alt { seq!['A', '-'] } else { Seq::<char>::empty() }));
    let shift = match event.key {
        Key::Char(_) => false,
        _ => mods.shift,
    };
    if shift {
        push_char(s, 'S');
        push_char(s, '-');
    }
    let ghost d = s@;
    assert(d =~= c + (if shift { seq!['S', '-'] } else { Seq::<char>::empty() }));
    push_key_name(s, event.key);
    push_char(s, '>');
    assert(s@ =~= old(s)@ + key_text(event));
}

/// Return how some keys pressed one after another are written.
pub fn keys_string(keys: &Vec<KeyEvent>) -> (s: String)
    ensures
        s@ == keys_text(keys@),
{
    let mut s = string_of("");
    proof {
        reveal_strlit("");
    }
    let mut i: usize = 0;
    while i < keys.len()
        invariant
            i <= keys.len(),
            s@ == keys_text(keys@.take(i as int)),
        decreases keys.len() - i,
    {
        push_key_text(&mut s, keys[i]);
        assert(keys@.take(i + 1).drop_last() =~= keys@.take(i as int));
        i = i + 1;
    }
    assert(keys@.take(keys.len() as int) =~= keys@);
    s
}

} // verus!
