//! What insh is asked to do when it is started, and the `<file>:<line>,<column>` form which a
//! file to edit is given in.

use vstd::prelude::*;

use crate::keys::{Key, KeyEvent, KeyMods, TermEvent, no_mods};
use crate::paths::{is_absolute, join, parent, path_is_absolute, path_join, path_parent};
use crate::text::{
    append, chars_of, decimal, decimal_string, digit, last_index, last_index_of, opt_view, push_char,
    slice, split_at_last, string_of, string_of_chars,
};

verus! {

/// What to do.
#[derive(Clone, Debug, PartialEq, Eq)]
pub enum Command {
    /// Browse a directory.
    Browse,
    /// Find files by name.
    Find {
        /// The pattern to start with.
        phrase: Option<String>,
    },
    /// Search file contents.
    Search {
        /// The phrase to start with.
        phrase: Option<String>,
    },
    /// Chat with an inference engine.
    Chat {
        /// What to say to start with.
        prompt: Option<String>,
    },
    /// Edit a file using the editor if a file is provided or just open the editor if no file is
    /// provided.
    Edit {
        /// Open the browser afterwards.
        browse: bool,
        /// The file to edit.
        file_line_column: Option<FileLineColumn>,
    },
}

/// What the editor is opened on.
#[derive(Clone, Debug, PartialEq, Eq)]
pub struct VimArgs {
    /// The file to edit, if there is one.
    pub path: Option<String>,
    /// The line to start on, if there is one.
    pub line: Option<usize>,
    /// The column to start on, if there is one.
    pub column: Option<usize>,
}

/// Something done before anything is shown.
#[derive(Clone, Debug, PartialEq, Eq)]
pub enum StartingEffect {
    /// Run the editor.
    RunVim(VimArgs),
    /// Exit insh.
    Exit,
}

/// What insh was asked to do when it was started.
#[derive(Clone, Debug, PartialEq, Eq)]
pub struct Args {
    /// The starting directory, if one was given.
    pub dir: Option<String>,
    /// What to do, if anything was asked.
    pub command: Option<Command>,
}

/// What the editor is opened on for a file given as `<file>:<line>,<column>`.
pub open spec fn vim_args_of(file_line_column: Option<FileLineColumn>) -> VimArgs {
    match file_line_column {
        Some(flc) => VimArgs { path: flc.file, line: flc.line, column: flc.column },
        None => VimArgs { path: None, line: None, column: None },
    }
}

/// What is done before anything is shown when editing a file: the editor is run, and insh exits
/// afterwards unless the browser is shown.
pub open spec fn starting_effects_of(
    browse: bool,
    file_line_column: Option<FileLineColumn>,
) -> Seq<StartingEffect> {
    let run = StartingEffect::RunVim(vim_args_of(file_line_column));
    if browse {
        seq![run]
    } else {
        seq![run, StartingEffect::Exit]
    }
}

impl Args {
    /// Return what to do.
    pub fn command(&self) -> (c: &Option<Command>)
        ensures
            *c == self.command,
    {
        &self.command
    }

    /// Whether the browser is shown.
    pub open spec fn spec_browse(&self) -> bool {
        match self.command {
            Some(Command::Edit { browse, .. }) => browse,
            Some(Command::Browse) => true,
            None => true,
            _ => false,
        }
    }

    /// Return whether the browser is shown: when browsing, when nothing was asked, and when
    /// editing a file and then browsing.
    pub fn browse(&self) -> (b: bool)
        ensures
            b == self.spec_browse(),
    {
        match &self.command {
            Some(Command::Edit { browse, .. }) => *browse,
            Some(Command::Browse) => true,
            None => true,
            _ => false,
        }
    }

    /// Return what is done before anything is shown: editing a file runs the editor on it, and
    /// then exits unless the browser is to be shown afterwards.
    pub fn starting_effects(&self) -> (effects: Option<Vec<StartingEffect>>)
        ensures
            match self.command {
                Some(Command::Edit { browse, file_line_column }) => effects matches Some(v)
                    && v@ == starting_effects_of(browse, file_line_column),
                _ => effects is None,
            },
    {
        match &self.command {
            Some(Command::Edit { browse, file_line_column }) => {
                let vim_args = match file_line_column {
                    Some(flc) => VimArgs {
                        path: match &flc.file {
                            Some(file) => Some(file.clone()),
                            None => None,
                        },
                        line: flc.line,
                        column: flc.column,
                    },
                    None => VimArgs { path: None, line: None, column: None },
                };
                let mut effects: Vec<StartingEffect> = Vec::new();
                effects.push(StartingEffect::RunVim(vim_args));
                if !*browse {
                    effects.push(StartingEffect::Exit);
                }
                assert(effects@ =~= starting_effects_of(*browse, *file_line_column));
                Some(effects)
            },
            _ => None,
        }
    }

    /// Return the terminal events which are handled before anything is typed: finding files
    /// starts with an enter, so that the finder looks for the pattern it was given.
    pub fn starting_term_events(&self) -> (events: Option<Vec<TermEvent>>)
        ensures
            match self.command {
                Some(Command::Find { .. }) => events matches Some(v) && v@ == seq![
                    TermEvent::KeyEvent(KeyEvent { key: Key::CarriageReturn, mods: no_mods() }),
                ],
                _ => events is None,
            },
    {
        match &self.command {
            Some(Command::Find { .. }) => {
                let mut events: Vec<TermEvent> = Vec::new();
                events.push(TermEvent::KeyEvent(KeyEvent { key: Key::CarriageReturn, mods: KeyMods::none() }));
                assert(events@ =~= seq![
                    TermEvent::KeyEvent(KeyEvent { key: Key::CarriageReturn, mods: no_mods() }),
                ]);
                Some(events)
            },
            _ => None,
        }
    }
}

} // verus!

verus! {

/// A file, line, and column number. The line and column numbers are 1-based.
#[derive(Clone, Debug, PartialEq, Eq)]
pub struct FileLineColumn {
    /// The file.
    pub file: Option<String>,
    /// The line.
    pub line: Option<usize>,
    /// The column.
    pub column: Option<usize>,
}

impl Default for FileLineColumn {
    fn default() -> (f: FileLineColumn)
        ensures
            f.file is None,
            f.line is None,
            f.column is None,
    {
        FileLineColumn { file: None, line: None, column: None }
    }
}

impl FileLineColumn {
    /// Return a file, line and column.
    pub fn new(file: Option<String>, line: Option<usize>, column: Option<usize>) -> (f: Self)
        ensures
            f == (FileLineColumn { file, line, column }),
    {
        FileLineColumn { file, line, column }
    }

    /// Return the file.
    pub fn file(&self) -> (f: &Option<String>)
        ensures
            *f == self.file,
    {
        &self.file
    }

    /// Return the line.
    pub fn line(&self) -> (l: Option<usize>)
        ensures
            l == self.line,
    {
        self.line
    }

    /// Return the column.
    pub fn column(&self) -> (c: Option<usize>)
        ensures
            c == self.column,
    {
        self.column
    }
}

/// A string which could not be read as a file, a line and a column.
#[derive(Clone, Debug, PartialEq, Eq)]
pub struct FileLineColumnParseError {
    /// What could not be read as a file.
    pub bad_file: Option<String>,
    /// What could not be read as a line number.
    pub bad_line: Option<String>,
    /// What could not be read as a column number.
    pub bad_column: Option<String>,
}

impl Default for FileLineColumnParseError {
    fn default() -> (e: FileLineColumnParseError)
        ensures
            e.bad_file is None,
            e.bad_line is None,
            e.bad_column is None,
    {
        FileLineColumnParseError { bad_file: None, bad_line: None, bad_column: None }
    }
}

impl FileLineColumnParseError {
    /// Return a new parse error.
    pub fn new(
        bad_file: Option<String>,
        bad_line: Option<String>,
        bad_column: Option<String>,
    ) -> (e: Self)
        ensures
            e == (FileLineColumnParseError { bad_file, bad_line, bad_column }),
    {
        FileLineColumnParseError { bad_file, bad_line, bad_column }
    }

    /// Return a parse error from a string that cannot be parsed as a file.
    pub fn from_bad_file(bad_file: String) -> (e: Self)
        ensures
            e == (FileLineColumnParseError { bad_file: Some(bad_file), bad_line: None, bad_column: None }),
    {
        FileLineColumnParseError { bad_file: Some(bad_file), bad_line: None, bad_column: None }
    }

    /// Return a parse error from a string that cannot be parsed as a line number.
    pub fn from_bad_line(bad_line: String) -> (e: Self)
        ensures
            e == (FileLineColumnParseError { bad_file: None, bad_line: Some(bad_line), bad_column: None }),
    {
        FileLineColumnParseError { bad_file: None, bad_line: Some(bad_line), bad_column: None }
    }

    /// Return a parse error from a string that cannot be parsed as a column number.
    pub fn from_bad_column(bad_column: String) -> (e: Self)
        ensures
            e == (FileLineColumnParseError { bad_file: None, bad_line: None, bad_column: Some(bad_column) }),
    {
        FileLineColumnParseError { bad_file: None, bad_line: None, bad_column: Some(bad_column) }
    }
}

/// Whether a character is a decimal digit.
pub open spec fn is_digit(c: char) -> bool {
    '0' <= c <= '9'
}

/// The value of a decimal digit.
pub open spec fn digit_value(c: char) -> nat {
    (c as int - '0' as int) as nat
}

/// The value of a string of decimal digits, the most significant first.
pub open spec fn digits_value(s: Seq<char>) -> nat
    decreases s.len(),
{
    if s.len() == 0 {
        0
    } else {
        digits_value(s.drop_last()) * 10 + digit_value(s.last())
    }
}

/// Whether every character is a decimal digit.
pub open spec fn all_digits(s: Seq<char>) -> bool {
    forall|i: int| 0 <= i < s.len() ==> is_digit(#[trigger] s[i])
}

/// The digits of a number written the way `usize::from_str` reads one: with a `+` in front or
/// not, and at least one digit.
pub open spec fn unsigned_digits(s: Seq<char>) -> Option<Seq<char>> {
    let digits = if s.len() > 0 && s[0] == '+' { s.drop_first() } else { s };
    if digits.len() > 0 && all_digits(digits) {
        Some(digits)
    } else {
        None
    }
}

/// The number which `usize::from_str` reads from a string, if it reads one: the string is
/// digits (after a `+`, if there is one) and the number they make fits in a `usize`.
pub open spec fn usize_of(s: Seq<char>) -> Option<usize> {
    match unsigned_digits(s) {
        Some(digits) => if digits_value(digits) <= usize::MAX {
            Some(digits_value(digits) as usize)
        } else {
            None
        },
        None => None,
    }
}

proof fn lemma_digits_value_grows(s: Seq<char>, i: int)
    requires
        0 <= i <= s.len(),
    ensures
        digits_value(s.take(i)) <= digits_value(s),
    decreases s.len() - i,
{
    if i < s.len() {
        lemma_digits_value_grows(s, i + 1);
        assert(s.take(i + 1).drop_last() =~= s.take(i));
    } else {
        assert(s.take(i) =~= s);
    }
}

/// Return the number written in some characters, the way `usize::from_str` reads it.
pub fn parse_usize(s: &Vec<char>) -> (r: Option<usize>)
    ensures
        r == usize_of(s@),
{
    let start: usize = if s.len() > 0 && s[0] == '+' { 1 } else { 0 };
    let ghost digits = if s@.len() > 0 && s@[0] == '+' { s@.drop_first() } else { s@ };
    assert(digits =~= s@.skip(start as int));
    if start >= s.len() {
        return None;
    }
    let mut value: usize = 0;
    let mut i: usize = start;
    while i < s.len()
        invariant
            start <= i <= s.len(),
            start < s.len(),
            digits == s@.skip(start as int),
            digits == (if s@.len() > 0 && s@[0] == '+' { s@.drop_first() } else { s@ }),
            forall|j: int| 0 <= j < i - start ==> is_digit(#[trigger] digits[j]),
            value == digits_value(digits.take(i - start)),
        decreases s.len() - i,
    {
        let c = s[i];
        assert(digits[i - start] == c);
        if !('0' <= c && c <= '9') {
            assert(!is_digit(digits[i - start]));
            return None;
        }
        let d: usize = (c as u32 - '0' as u32) as usize;
        assert(digits.take(i - start + 1).drop_last() =~= digits.take(i - start));
        assert(digits_value(digits.take(i - start + 1)) == value * 10 + d);
        let next = match value.checked_mul(10) {
            Some(times_ten) => times_ten.checked_add(d),
            None => None,
        };
        match next {
            Some(next) => {
                value = next;
            },
            None => {
                proof {
                    lemma_digits_value_grows(digits, i - start + 1);
                }
                return None;
            },
        }
        i = i + 1;
    }
    assert(digits.take(s.len() - start) =~= digits);
    Some(value)
}


/// The parts which `<file>:<line>,<column>` is split into: the file is everything before the last
/// colon, and what comes after it is the line, or the line and the column either side of the last
/// comma.
pub open spec fn file_line_column_parts(s: Seq<char>) -> (Seq<char>, Option<Seq<char>>, Option<Seq<char>>) {
    let (file, rest) = match split_at_last(s, ':') {
        Some((file, rest)) => (file, Some(rest)),
        None => (s, None),
    };
    match rest {
        Some(rest) => match split_at_last(rest, ',') {
            Some((line, column)) => (file, Some(line), Some(column)),
            None => (file, Some(rest), None),
        },
        None => (file, None, None),
    }
}

/// The number a part is read as, if there is a part and it is one.
pub open spec fn number_of(part: Option<Seq<char>>) -> Option<usize> {
    match part {
        Some(part) => usize_of(part),
        None => None,
    }
}

/// Whether there is a part and it is not a number.
pub open spec fn is_bad(part: Option<Seq<char>>) -> bool {
    part matches Some(part) && usize_of(part) is None
}

/// A part when it is not a number, and nothing otherwise.
pub open spec fn bad_part(part: Option<Seq<char>>) -> Option<Seq<char>> {
    if is_bad(part) { part } else { None }
}

/// Return the characters of a part of some text, split where a character last appears.
fn split_last(s: &Vec<char>, c: char) -> (r: Option<(Vec<char>, Vec<char>)>)
    ensures
        match split_at_last(s@, c) {
            Some((before, after)) => r matches Some((b, a)) && b@ == before && a@ == after,
            None => r is None,
        },
{
    match last_index(s, c) {
        Some(i) => {
            assert(i < s.len());
            Some((slice(s, 0, i), slice(s, i + 1, s.len())))
        },
        None => None,
    }
}

impl FileLineColumn {
    /// Return the file, line and column which a string of the form `<file>`, `<file>:<line>` or
    /// `<file>:<line>,<column>` gives, or what could not be read as a line and a column. An
    /// empty string gives no file, line or column.
    pub fn parse(string: &str) -> (r: Result<FileLineColumn, FileLineColumnParseError>)
        ensures
            string@.len() == 0 ==> r == Ok::<FileLineColumn, FileLineColumnParseError>(
                FileLineColumn { file: None, line: None, column: None },
            ),
            string@.len() > 0 ==> {
                let (file, line, column) = file_line_column_parts(string@);
                if is_bad(line) || is_bad(column) {
                    r matches Err(e) && e.bad_file is None && opt_view(e.bad_line) == bad_part(line)
                        && opt_view(e.bad_column) == bad_part(column)
                } else {
                    r matches Ok(f) && opt_view(f.file) == Some(file) && f.line == number_of(line)
                        && f.column == number_of(column)
                }
            },
    {
        let chars = chars_of(string);
        if chars.len() == 0 {
            return Ok(FileLineColumn::default());
        }
        let (file_chars, rest): (Vec<char>, Option<Vec<char>>) = match split_last(&chars, ':') {
            Some((file, rest)) => (file, Some(rest)),
            None => (chars, None),
        };
        let (line_chars, column_chars): (Option<Vec<char>>, Option<Vec<char>>) = match rest {
            Some(rest) => match split_last(&rest, ',') {
                Some((line, column)) => (Some(line), Some(column)),
                None => (Some(rest), None),
            },
            None => (None, None),
        };

        let mut bad_line: Option<String> = None;
        let mut bad_column: Option<String> = None;
        let mut line: Option<usize> = None;
        let mut column: Option<usize> = None;

        if let Some(line_chars) = &line_chars {
            match parse_usize(line_chars) {
                Some(number) => {
                    line = Some(number);
                },
                None => {
                    bad_line = Some(string_of_chars(line_chars));
                },
            }
        }
        if let Some(column_chars) = &column_chars {
            match parse_usize(column_chars) {
                Some(number) => {
                    column = Some(number);
                },
                None => {
                    bad_column = Some(string_of_chars(column_chars));
                },
            }
        }

        if bad_line.is_some() || bad_column.is_some() {
            Err(FileLineColumnParseError::new(None, bad_line, bad_column))
        } else {
            Ok(FileLineColumn::new(Some(string_of_chars(&file_chars)), line, column))
        }
    }
}

/// How a file, line and column are written: the file, then the line after a colon if there is
/// one, then the column after a comma if there is one. Nothing is written without a file.
pub open spec fn file_line_column_text(f: FileLineColumn) -> Seq<char> {
    match f.file {
        None => Seq::empty(),
        Some(file) => file@ + match f.line {
            Some(line) => seq![':'] + decimal(line as nat),
            None => Seq::empty(),
        } + match f.column {
            Some(column) => seq![','] + decimal(column as nat),
            None => Seq::empty(),
        },
    }
}

impl FileLineColumn {
    /// Return how the file, line and column are written.
    pub fn text(&self) -> (t: String)
        ensures
            t@ == file_line_column_text(*self),
    {
        let mut t = String::new();
        match &self.file {
            None => {
                return t;
            },
            Some(file) => append(&mut t, file.as_str()),
        }
        if let Some(line) = self.line {
            push_char(&mut t, ':');
            append(&mut t, decimal_string(line as u64).as_str());
        }
        if let Some(column) = self.column {
            push_char(&mut t, ',');
            append(&mut t, decimal_string(column as u64).as_str());
        }
        t
    }
}

/// A digit is a digit, and has its value.
proof fn lemma_digit(d: nat)
    requires
        d < 10,
    ensures
        is_digit(digit(d)),
        digit_value(digit(d)) == d,
{
    if d == 0 { assert(digit_value('0') == 0); }
    else if d == 1 { assert(digit_value('1') == 1); }
    else if d == 2 { assert(digit_value('2') == 2); }
    else if d == 3 { assert(digit_value('3') == 3); }
    else if d == 4 { assert(digit_value('4') == 4); }
    else if d == 5 { assert(digit_value('5') == 5); }
    else if d == 6 { assert(digit_value('6') == 6); }
    else if d == 7 { assert(digit_value('7') == 7); }
    else if d == 8 { assert(digit_value('8') == 8); }
    else { assert(digit_value('9') == 9); }
}

/// A number written out in decimal is digits, and at least one of them.
proof fn lemma_decimal_is_digits(n: nat)
    ensures
        decimal(n).len() > 0,
        all_digits(decimal(n)),
        digits_value(decimal(n)) == n,
    decreases n,
{
    if n < 10 {
        lemma_digit(n);
        assert(decimal(n).drop_last() =~= Seq::<char>::empty());
        assert(digits_value(Seq::<char>::empty()) == 0);
        assert(decimal(n).last() == digit(n));
    } else {
        lemma_decimal_is_digits(n / 10);
        lemma_digit(n % 10);
        let d = decimal(n);
        assert(d.drop_last() == decimal(n / 10));
        assert(d.last() == digit(n % 10));
        assert(digits_value(d) == digits_value(decimal(n / 10)) * 10 + digit_value(digit(n % 10)));
        assert(n == (n / 10) * 10 + n % 10) by (nonlinear_arith);
        assert forall|i: int| 0 <= i < d.len() implies is_digit(#[trigger] d[i]) by {
            if i < d.len() - 1 {
                assert(d[i] == decimal(n / 10)[i]);
            }
        }
    }
}

/// A number written out in decimal is read back as itself.
proof fn lemma_decimal_reads_back(n: usize)
    ensures
        usize_of(decimal(n as nat)) == Some(n),
{
    lemma_decimal_is_digits(n as nat);
    let d = decimal(n as nat);
    assert(is_digit(d[0]));
    assert(unsigned_digits(d) == Some(d));
}

/// A character which is not in some text does not change where it last appears in what the text
/// is added to.
proof fn lemma_last_index_of_past(s: Seq<char>, t: Seq<char>, c: char)
    requires
        forall|i: int| 0 <= i < t.len() ==> t[i] != c,
    ensures
        last_index_of(s + t, c) == last_index_of(s, c),
    decreases t.len(),
{
    if t.len() > 0 {
        assert((s + t).drop_last() =~= s + t.drop_last());
        lemma_last_index_of_past(s, t.drop_last(), c);
    } else {
        assert(s + t =~= s);
    }
}

/// Where a character last appears in some text followed by it, then by text without it.
proof fn lemma_split_after(s: Seq<char>, c: char, t: Seq<char>)
    requires
        forall|i: int| 0 <= i < t.len() ==> t[i] != c,
    ensures
        split_at_last(s + seq![c] + t, c) == Some((s, t)),
{
    lemma_last_index_of_past(s + seq![c], t, c);
    assert((s + seq![c]).last() == c);
    assert((s + seq![c] + t).take(s.len() as int) =~= s);
    assert((s + seq![c] + t).skip(s.len() as int + 1) =~= t);
}

/// A character which is not in some text is not found in it.
proof fn lemma_not_found(s: Seq<char>, c: char)
    requires
        forall|i: int| 0 <= i < s.len() ==> s[i] != c,
    ensures
        split_at_last(s, c) is None,
{
    lemma_last_index_of_past(Seq::empty(), s, c);
    assert(Seq::<char>::empty() + s =~= s);
}

/// A file, line and column, written out, are read back as themselves: the file as the part
/// before the last colon, the line after it and the column after the last comma. This holds
/// unless the column would be lost, written without a line, or the file would be misread,
/// empty or with a colon in it and no line after.
pub proof fn law_text_reads_back(f: FileLineColumn)
    requires
        f.file is Some,
        f.line is None ==> f.column is None && f.file.unwrap()@.len() > 0 && forall|i: int|
            0 <= i < f.file.unwrap()@.len() ==> f.file.unwrap()@[i] != ':',
    ensures
        file_line_column_text(f).len() > 0,
        ({
            let (file, line, column) = file_line_column_parts(file_line_column_text(f));
            &&& file == f.file.unwrap()@
            &&& !is_bad(line)
            &&& !is_bad(column)
            &&& number_of(line) == f.line
            &&& number_of(column) == f.column
        }),
{
    let p = f.file.unwrap()@;
    let text = file_line_column_text(f);
    match f.line {
        None => {
            assert(text =~= p);
            lemma_not_found(p, ':');
        },
        Some(line) => {
            let dl = decimal(line as nat);
            lemma_decimal_is_digits(line as nat);
            lemma_decimal_reads_back(line);
            match f.column {
                None => {
                    assert(text =~= p + seq![':'] + dl);
                    lemma_split_after(p, ':', dl);
                    lemma_not_found(dl, ',');
                },
                Some(column) => {
                    let dc = decimal(column as nat);
                    lemma_decimal_is_digits(column as nat);
                    lemma_decimal_reads_back(column);
                    let rest = dl + seq![','] + dc;
                    assert(text =~= p + seq![':'] + rest);
                    assert forall|i: int| 0 <= i < rest.len() implies rest[i] != ':' by {
                        if i < dl.len() {
                            assert(is_digit(dl[i]));
                        } else if i > dl.len() {
                            assert(is_digit(dc[i - dl.len() - 1]));
                        }
                    }
                    lemma_split_after(p, ':', rest);
                    lemma_split_after(dl, ',', dc);
                },
            }
        },
    }
}

impl FileLineColumnParseError {
    /// Return what is wrong, as a sentence: each part which could not be read, joined with
    /// `and`.
    pub fn message(&self) -> (m: String)
        ensures
            m@ == parse_error_message(*self),
    {
        let ghost parts = parse_error_parts(*self);
        let n: usize = (if self.bad_file.is_some() { 1 } else { 0 }) + (if self.bad_line.is_some() {
            1
        } else {
            0
        }) + (if self.bad_column.is_some() { 1 } else { 0 });
        assert(parts.len() == n);
        if n == 0 {
            let m = string_of(
                "Something went wrong parsing the file, optional line, and or the optional column.",
            );
            proof {
                reveal_strlit(
                    "Something went wrong parsing the file, optional line, and or the optional column.",
                );
            }
            return m;
        }
        proof {
            reveal_strlit("\" as a file path");
            reveal_strlit("\" as a line number");
            reveal_strlit("\" as a column number");
        }
        let mut m = String::new();
        let mut k: usize = 0;
        assert(parts.take(0) =~= Seq::<(Seq<char>, Seq<char>)>::empty());
        assert(listed(parts.take(0), n as int) == Seq::<char>::empty());
        assert(m@ == listed(parts.take(0), n as int));
        if let Some(bad) = &self.bad_file {
            write_clause(&mut m, k, n, bad.as_str(), "\" as a file path");
            assert(parts[0] == (bad@, "\" as a file path"@));
            assert(parts.take(1).drop_last() =~= parts.take(0));
            assert(parts.take(1).last() == parts[0]);
            assert(m@ == listed(parts.take(1), n as int));
            k = k + 1;
        }
        assert(m@ == listed(parts.take(k as int), n as int));
        if let Some(bad) = &self.bad_line {
            write_clause(&mut m, k, n, bad.as_str(), "\" as a line number");
            assert(parts[k as int] == (bad@, "\" as a line number"@));
            assert(parts.take(k + 1).drop_last() =~= parts.take(k as int));
            assert(parts.take(k + 1).last() == parts[k as int]);
            assert(m@ == listed(parts.take(k + 1), n as int));
            k = k + 1;
        }
        assert(m@ == listed(parts.take(k as int), n as int));
        if let Some(bad) = &self.bad_column {
            write_clause(&mut m, k, n, bad.as_str(), "\" as a column number");
            assert(parts[k as int] == (bad@, "\" as a column number"@));
            assert(parts.take(k + 1).drop_last() =~= parts.take(k as int));
            assert(parts.take(k + 1).last() == parts[k as int]);
            assert(m@ == listed(parts.take(k + 1), n as int));
            k = k + 1;
        }
        assert(parts.take(n as int) =~= parts);
        push_char(&mut m, '.');
        m
    }
}

/// What could not be read, each with what it was read as: the file, then the line, then the
/// column.
pub open spec fn parse_error_parts(e: FileLineColumnParseError) -> Seq<(Seq<char>, Seq<char>)> {
    (match e.bad_file {
        Some(bad) => seq![(bad@, "\" as a file path"@)],
        None => Seq::empty(),
    }) + (match e.bad_line {
        Some(bad) => seq![(bad@, "\" as a line number"@)],
        None => Seq::empty(),
    }) + (match e.bad_column {
        Some(bad) => seq![(bad@, "\" as a column number"@)],
        None => Seq::empty(),
    })
}

/// The clause saying that something could not be read, with a capital letter when it starts
/// the sentence.
pub open spec fn clause(part: (Seq<char>, Seq<char>), first: bool) -> Seq<char> {
    (if first {
        "Could not parse \""@
    } else {
        "could not parse \""@
    }) + part.0 + part.1
}

/// What goes before the clause with some number in a list of some length: nothing before the
/// first, `and` before the second of two, and commas otherwise, the last with `and`.
pub open spec fn conjunction(i: int, n: int) -> Seq<char> {
    if i == 0 {
        Seq::empty()
    } else if n == 2 {
        " and "@
    } else if i == n - 1 {
        ", and "@
    } else {
        ", "@
    }
}

/// The clauses for some of the parts of a list of some length, joined.
pub open spec fn listed(parts: Seq<(Seq<char>, Seq<char>)>, n: int) -> Seq<char>
    decreases parts.len(),
{
    if parts.len() == 0 {
        Seq::empty()
    } else {
        listed(parts.drop_last(), n) + conjunction(parts.len() - 1, n) + clause(
            parts.last(),
            parts.len() == 1,
        )
    }
}

/// What a parse error says: each part which could not be read, in a list, as a sentence.
pub open spec fn parse_error_message(e: FileLineColumnParseError) -> Seq<char> {
    let parts = parse_error_parts(e);
    if parts.len() == 0 {
        "Something went wrong parsing the file, optional line, and or the optional column."@
    } else {
        listed(parts, parts.len() as int) + seq!['.']
    }
}

/// Add the clause with some number in a list of some length to what has been written of it.
fn write_clause(m: &mut String, k: usize, n: usize, bad: &str, ending: &str)
    requires
        k < n <= 3,
    ensures
        final(m)@ == old(m)@ + conjunction(k as int, n as int) + clause((bad@, ending@), k == 0),
{
    proof {
        reveal_strlit(" and ");
        reveal_strlit(", and ");
        reveal_strlit(", ");
        reveal_strlit("Could not parse \"");
        reveal_strlit("could not parse \"");
    }
    if k > 0 {
        if n == 2 {
            append(m, " and ");
        } else if k == n - 1 {
            append(m, ", and ");
        } else {
            append(m, ", ");
        }
    }
    if k == 0 {
        append(m, "Could not parse \"");
    } else {
        append(m, "could not parse \"");
    }
    append(m, bad);
    append(m, ending);
}

/// The directory insh was asked to start in: the one given, or, when a file is edited and then
/// browsed, the directory the file is in (the root when it is in none).
pub open spec fn chosen_dir(args: Args) -> Option<Seq<char>> {
    match args.dir {
        Some(dir) => Some(dir@),
        None => match args.command {
            Some(Command::Edit { browse, file_line_column }) => if browse {
                match file_line_column {
                    Some(flc) => match flc.file {
                        Some(file) => Some(
                            match path_parent(file@) {
                                Some(p) => p,
                                None => "/"@,
                            },
                        ),
                        None => None,
                    },
                    None => None,
                }
            } else {
                None
            },
            _ => None,
        },
    }
}

/// The directory insh starts in, made absolute from the directory it was started from.
pub open spec fn starting_dir(args: Args, current_dir: Seq<char>) -> Option<Seq<char>> {
    match chosen_dir(args) {
        Some(dir) => Some(
            if path_is_absolute(dir) {
                dir
            } else {
                path_join(current_dir, dir)
            },
        ),
        None => None,
    }
}

impl Args {
    /// Return the directory to start in, if one was asked for, made absolute from the directory
    /// insh was started from.
    pub fn dir(&self, current_dir: &str) -> (d: Option<String>)
        ensures
            match d {
                Some(d) => starting_dir(*self, current_dir@) == Some(d@),
                None => starting_dir(*self, current_dir@) is None,
            },
    {
        let dir: Option<String> = match &self.dir {
            Some(dir) => Some(dir.clone()),
            None => match &self.command {
                Some(Command::Edit { browse, file_line_column }) => if *browse {
                    match file_line_column {
                        Some(flc) => match &flc.file {
                            Some(file) => match parent(file.as_str()) {
                                Some(p) => Some(p),
                                None => {
                                    proof {
                                        reveal_strlit("/");
                                    }
                                    Some(string_of("/"))
                                },
                            },
                            None => None,
                        },
                        None => None,
                    }
                } else {
                    None
                },
                _ => None,
            },
        };
        match dir {
            Some(dir) => if is_absolute(dir.as_str()) {
                Some(dir)
            } else {
                Some(join(current_dir, dir.as_str()))
            },
            None => None,
        }
    }
}

impl std::str::FromStr for FileLineColumn {
    type Err = FileLineColumnParseError;

    fn from_str(string: &str) -> (r: Result<Self, Self::Err>)
        ensures
            string@.len() == 0 ==> r == Ok::<FileLineColumn, FileLineColumnParseError>(
                FileLineColumn { file: None, line: None, column: None },
            ),
            string@.len() > 0 ==> {
                let (file, line, column) = file_line_column_parts(string@);
                if is_bad(line) || is_bad(column) {
                    r matches Err(e) && e.bad_file is None && opt_view(e.bad_line) == bad_part(line)
                        && opt_view(e.bad_column) == bad_part(column)
                } else {
                    r matches Ok(f) && opt_view(f.file) == Some(file) && f.line == number_of(line)
                        && f.column == number_of(column)
                }
            },
    {
        Self::parse(string)
    }
}

} // verus!
