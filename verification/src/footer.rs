//! The bar which is shown along the bottom of a component.

use vstd::prelude::*;

verus! {

/// What a component shows in its footer.
///
/// Only the name of the component is shown by default. Anything else is up to the component,
/// since what is worth showing is different for each one.
pub trait Info {
    /// Return what is shown on the left of the footer, which is nothing unless the component
    /// says otherwise.
    fn text(&self) -> (t: String)
        default_ensures
            t@ == Seq::<char>::empty(),
    {
        String::new()
    }

    /// Return where you are in what is shown, which goes just before the name; nothing unless
    /// the component says otherwise.
    fn position(&self) -> (p: String)
        default_ensures
            p@ == Seq::<char>::empty(),
    {
        String::new()
    }
}

} // verus!

verus! {

/// What the right of the footer shows: where you are and the name of the component, or just the
/// name when there is no position.
pub open spec fn right_of(position: Seq<char>, name: Seq<char>) -> Seq<char> {
    if position.len() == 0 {
        name
    } else {
        position + seq![' ', ' '] + name
    }
}

/// A row of blanks.
pub open spec fn blanks(n: nat) -> Seq<char> {
    Seq::new(n, |i: int| ' ')
}

/// The characters of a footer of some width.
///
/// The text of the component is on the left and where you are (the position and the name of the
/// component) on the right. The left is what is cut off when there is not enough room for
/// everything, since where you are is worth more than how you got there, and a blank column is
/// kept between the two so that they never run together. Where you are is cut from its start.
pub open spec fn footer_chars(text: Seq<char>, position: Seq<char>, name: Seq<char>, columns: nat) -> Seq<char> {
    let right = right_of(position, name);
    let right_len = if right.len() < columns { right.len() } else { columns };
    let room = if columns > right_len + 1 { (columns - right_len - 1) as nat } else { 0 };
    let text_len = if text.len() < room { text.len() } else { room };
    text.take(text_len as int) + blanks((columns - text_len - right_len) as nat) + right.skip(
        right.len() - right_len,
    )
}

/// Return the characters of a footer of some width.
pub fn footer_line(text: &str, position: &str, name: &str, columns: usize) -> (line: Vec<char>)
    ensures
        line@ == footer_chars(text@, position@, name@, columns as nat),
        line@.len() == columns,
{
    let text = crate::text::chars_of(text);
    let position = crate::text::chars_of(position);
    let name = crate::text::chars_of(name);

    let mut right: Vec<char> = Vec::new();
    if position.len() > 0 {
        let mut i: usize = 0;
        while i < position.len()
            invariant
                i <= position.len(),
                right@ == position@.take(i as int),
            decreases position.len() - i,
        {
            right.push(position[i]);
            assert(position@.take(i + 1) =~= position@.take(i as int).push(position@[i as int]));
            i = i + 1;
        }
        assert(position@.take(position.len() as int) =~= position@);
        right.push(' ');
        right.push(' ');
    }
    let ghost prefix = right@;
    let mut i: usize = 0;
    while i < name.len()
        invariant
            i <= name.len(),
            right@ == prefix + name@.take(i as int),
        decreases name.len() - i,
    {
        right.push(name[i]);
        assert(name@.take(i + 1) =~= name@.take(i as int).push(name@[i as int]));
        i = i + 1;
    }
    assert(name@.take(name.len() as int) =~= name@);
    assert(right@ =~= right_of(position@, name@));

    let right_len: usize = if right.len() < columns { right.len() } else { columns };
    let room: usize = if columns > right_len && columns - right_len > 1 { columns - right_len - 1 } else { 0 };
    let text_len: usize = if text.len() < room { text.len() } else { room };

    let mut line: Vec<char> = Vec::new();
    let mut j: usize = 0;
    while j < text_len
        invariant
            j <= text_len <= text.len(),
            line@ == text@.take(j as int),
        decreases text_len - j,
    {
        line.push(text[j]);
        assert(text@.take(j + 1) =~= text@.take(j as int).push(text@[j as int]));
        j = j + 1;
    }
    let gap: usize = columns - text_len - right_len;
    let mut k: usize = 0;
    while k < gap
        invariant
            k <= gap,
            line@ == text@.take(text_len as int) + blanks(k as nat),
        decreases gap - k,
    {
        line.push(' ');
        assert(blanks((k + 1) as nat) =~= blanks(k as nat).push(' '));
        k = k + 1;
    }
    let skip: usize = right.len() - right_len;
    let ghost before_right = line@;
    let mut m: usize = skip;
    while m < right.len()
        invariant
            skip <= m <= right.len(),
            line@ == before_right + right@.subrange(skip as int, m as int),
        decreases right.len() - m,
    {
        line.push(right[m]);
        assert(right@.subrange(skip as int, m + 1) =~= right@.subrange(skip as int, m as int).push(right@[m as int]));
        m = m + 1;
    }
    assert(right@.subrange(skip as int, right.len() as int) =~= right@.skip(skip as int));
    assert(line@ =~= footer_chars(text@, position@, name@, columns as nat));
    line
}

/// Return the characters of the footer of a component, given its name and what it shows.
///
/// What the component says it shows is up to its own `Info`, so what is known of the footer is
/// that it is the footer of the name and of some text and some position.
pub fn footer_of<I: Info>(name: &str, info: &I, columns: usize) -> (line: Vec<char>)
    ensures
        line@.len() == columns,
        exists|text: Seq<char>, position: Seq<char>|
            line@ == #[trigger] footer_chars(text, position, name@, columns as nat),
{
    let text = info.text();
    let position = info.position();
    footer_line(text.as_str(), position.as_str(), name, columns)
}

} // verus!
