//! How the entries of a directory are shown in the browser: by name, or with their metadata the
//! way `ls -l` shows them.

use vstd::prelude::*;

use crate::text::{decimal, decimal_string, push_char};

verus! {

/// What kind of file an entry is.
#[derive(Debug, Clone, Copy, PartialEq, Eq, Structural)]
pub enum FileType {
    /// A file.
    File,
    /// A directory.
    Dir,
    /// A symbolic link.
    Symlink,
    /// Something else.
    Other,
}

/// The metadata of an entry.
#[derive(Debug, Clone, PartialEq, Eq)]
pub struct FileMetadata {
    /// The mode bits.
    pub mode: u32,
    /// How many hard links there are to it.
    pub hard_links: u64,
    /// The id of the user which owns it.
    pub uid: u32,
    /// The name of the user which owns it, if it is known.
    pub user: Option<String>,
    /// The id of the group which owns it.
    pub gid: u32,
    /// The name of the group which owns it, if it is known.
    pub group: Option<String>,
    /// How many bytes it is.
    pub size: u64,
    /// When it was last changed, in seconds since the Unix epoch.
    pub modified: i64,
    /// What it links to, if it is a symbolic link.
    pub link_target: Option<String>,
}

/// An entry of a directory.
#[derive(Debug, Clone, PartialEq, Eq)]
pub struct FileInfo {
    /// Its path.
    pub path: String,
    /// Its name, which is the last part of its path, if it has one.
    pub name: Option<String>,
    /// What kind of file it is, if that could be read.
    pub file_type: Option<FileType>,
    /// Its metadata, if it was asked for and could be read.
    pub metadata: Option<FileMetadata>,
}

/// The string used to separate the name of a symlink from the name of its target.
pub open spec fn link_arrow() -> Seq<char> {
    seq![' ', '-', '>', ' ']
}

/// The number of columns a file mode is shown in.
pub const FILE_MODE_WIDTH: usize = 10;

/// The number of columns a time is shown in.
pub const FILE_TIME_WIDTH: usize = 12;

/// The name of an entry as it is shown: with a trailing slash if it is a directory.
pub open spec fn spec_name(file_info: FileInfo) -> Seq<char> {
    let name = match file_info.name {
        Some(name) => name@,
        None => Seq::empty(),
    };
    if file_info.file_type == Some(FileType::Dir) {
        name.push('/')
    } else {
        name
    }
}

/// Return the name of the entry (with a trailing slash if the entry is a directory).
pub fn name(file_info: &FileInfo) -> (n: String)
    ensures
        n@ == spec_name(*file_info),
{
    let mut name: String = match &file_info.name {
        Some(name) => name.clone(),
        None => String::new(),
    };
    if let Some(FileType::Dir) = file_info.file_type {
        push_char(&mut name, '/');
    }
    name
}

/// The name of an entry along with what it links to if it is a symbolic link.
pub open spec fn spec_name_and_link_target(file_info: FileInfo) -> Seq<char> {
    match file_info.metadata {
        Some(metadata) => match metadata.link_target {
            Some(target) => spec_name(file_info) + link_arrow() + target@,
            None => spec_name(file_info),
        },
        None => spec_name(file_info),
    }
}

/// Return the name of the entry along with the target of the entry if it is a symlink.
pub fn name_and_link_target(file_info: &FileInfo) -> (s: String)
    ensures
        s@ == spec_name_and_link_target(*file_info),
{
    let mut string: String = name(file_info);
    if let Some(metadata) = &file_info.metadata {
        if let Some(target) = &metadata.link_target {
            crate::text::push_char(&mut string, ' ');
            crate::text::push_char(&mut string, '-');
            crate::text::push_char(&mut string, '>');
            crate::text::push_char(&mut string, ' ');
            string.append(target.as_str());
            assert(string@ =~= spec_name(*file_info) + link_arrow() + target@);
        }
    }
    string
}

/// The owner of an entry as it is shown: the name of the user, or the id if the name is not
/// known.
pub open spec fn spec_user(metadata: FileMetadata) -> Seq<char> {
    match metadata.user {
        Some(user) => user@,
        None => decimal(metadata.uid as nat),
    }
}

/// Return the name of the user which owns the entry (or the id of the user if the name is not
/// known).
pub fn user(metadata: &FileMetadata) -> (u: String)
    ensures
        u@ == spec_user(*metadata),
{
    match &metadata.user {
        Some(user) => user.clone(),
        None => decimal_string(metadata.uid as u64),
    }
}

/// The group of an entry as it is shown: the name of the group, or the id if the name is not
/// known.
pub open spec fn spec_group(metadata: FileMetadata) -> Seq<char> {
    match metadata.group {
        Some(group) => group@,
        None => decimal(metadata.gid as nat),
    }
}

/// Return the name of the group which owns the entry (or the id of the group if the name is
/// not known).
pub fn group(metadata: &FileMetadata) -> (g: String)
    ensures
        g@ == spec_group(*metadata),
{
    match &metadata.group {
        Some(group) => group.clone(),
        None => decimal_string(metadata.gid as u64),
    }
}

/// The number of columns which come before the name of an entry shown with its metadata: the
/// mode, the hard links, the user, the group, the size and the time, each followed by a blank.
pub open spec fn spec_name_offset(
    hard_links_width: nat,
    user_width: nat,
    group_width: nat,
    size_width: nat,
) -> nat {
    (FILE_MODE_WIDTH as nat) + 1 + hard_links_width + 1 + user_width + 1 + group_width + 1
        + size_width + 1 + (FILE_TIME_WIDTH as nat) + 1
}

/// Return the number of columns which come before the name of an entry shown with its
/// metadata.
pub fn name_offset(
    hard_links_width: usize,
    user_width: usize,
    group_width: usize,
    size_width: usize,
) -> (n: usize)
    requires
        spec_name_offset(hard_links_width as nat, user_width as nat, group_width as nat, size_width as nat) <= usize::MAX,
    ensures
        n == spec_name_offset(hard_links_width as nat, user_width as nat, group_width as nat, size_width as nat),
{
    FILE_MODE_WIDTH + 1 + hard_links_width + 1 + user_width + 1 + group_width + 1 + size_width + 1
        + FILE_TIME_WIDTH + 1
}

/// Return the number of columns needed to show the entries with their metadata without cutting
/// anything off.
pub fn width(
    hard_links_width: usize,
    user_width: usize,
    group_width: usize,
    size_width: usize,
    name_width: usize,
) -> (w: usize)
    requires
        spec_name_offset(hard_links_width as nat, user_width as nat, group_width as nat, size_width as nat) + name_width <= usize::MAX,
    ensures
        w == spec_name_offset(hard_links_width as nat, user_width as nat, group_width as nat, size_width as nat) + name_width,
{
    name_offset(hard_links_width, user_width, group_width, size_width) + name_width
}

/// A string of some width which says that metadata is not known.
pub open spec fn spec_unknown(width: nat) -> Seq<char> {
    Seq::new(width, |i: int| '?')
}

/// Return a string of the given width indicating that metadata is not known.
pub fn unknown(width: usize) -> (u: String)
    ensures
        u@ == spec_unknown(width as nat),
{
    let mut u = String::new();
    let mut i: usize = 0;
    while i < width
        invariant
            i <= width,
            u@ == spec_unknown(i as nat),
        decreases width - i,
    {
        push_char(&mut u, '?');
        assert(spec_unknown((i + 1) as nat) =~= spec_unknown(i as nat).push('?'));
        i = i + 1;
    }
    u
}

/// Some text padded with blanks on the left to a width, as `{:>width$}` writes it.
pub open spec fn pad_left(s: Seq<char>, width: nat) -> Seq<char> {
    if s.len() >= width {
        s
    } else {
        Seq::new((width - s.len()) as nat, |i: int| ' ') + s
    }
}

/// Some text padded with blanks on the right to a width, as `{:<width$}` writes it.
pub open spec fn pad_right(s: Seq<char>, width: nat) -> Seq<char> {
    if s.len() >= width {
        s
    } else {
        s + Seq::new((width - s.len()) as nat, |i: int| ' ')
    }
}

/// Return some text padded with blanks on the left to a width.
pub fn right_aligned(s: &str, width: usize) -> (r: String)
    ensures
        r@ == pad_left(s@, width as nat),
{
    let n = s.unicode_len();
    let mut r = String::new();
    if n < width {
        let mut i: usize = 0;
        while i < width - n
            invariant
                n < width,
                i <= width - n,
                r@ == Seq::new(i as nat, |j: int| ' '),
            decreases width - n - i,
        {
            push_char(&mut r, ' ');
            assert(Seq::new((i + 1) as nat, |j: int| ' ') =~= Seq::new(i as nat, |j: int| ' ').push(' '));
            i = i + 1;
        }
    }
    r.append(s);
    assert(r@ =~= pad_left(s@, width as nat));
    r
}

/// Return some text padded with blanks on the right to a width.
pub fn left_aligned(s: &str, width: usize) -> (r: String)
    ensures
        r@ == pad_right(s@, width as nat),
{
    let n = s.unicode_len();
    let mut r = crate::text::string_of(s);
    if n < width {
        let mut i: usize = 0;
        while i < width - n
            invariant
                n < width,
                n == s@.len(),
                i <= width - n,
                r@ == s@ + Seq::new(i as nat, |j: int| ' '),
            decreases width - n - i,
        {
            push_char(&mut r, ' ');
            assert(s@ + Seq::new((i + 1) as nat, |j: int| ' ') =~= (s@ + Seq::new(i as nat, |j: int| ' ')).push(' '));
            i = i + 1;
        }
    }
    assert(r@ =~= pad_right(s@, width as nat));
    r
}

/// The widths which the columns of metadata are shown in.
#[derive(Debug, Clone, Copy, PartialEq, Eq, Structural)]
pub struct Widths {
    /// The number of hard links.
    pub hard_links: usize,
    /// The user.
    pub user: usize,
    /// The group.
    pub group: usize,
    /// The size.
    pub size: usize,
}

/// An entry shown with its metadata the same way that `ls -l` shows it, given how its mode and
/// time are written. Metadata which could not be read is shown as not known, the same way that
/// `ls` shows it.
pub open spec fn spec_row(file_info: FileInfo, mode: Seq<char>, time: Seq<char>, widths: Widths) -> Seq<char> {
    let name = spec_name_and_link_target(file_info);
    let (mode, hard_links, user, group, size, time) = match file_info.metadata {
        Some(metadata) => (
            mode,
            decimal(metadata.hard_links as nat),
            spec_user(metadata),
            spec_group(metadata),
            decimal(metadata.size as nat),
            time,
        ),
        None => (
            spec_unknown(FILE_MODE_WIDTH as nat),
            spec_unknown(widths.hard_links as nat),
            spec_unknown(widths.user as nat),
            spec_unknown(widths.group as nat),
            spec_unknown(widths.size as nat),
            spec_unknown(FILE_TIME_WIDTH as nat),
        ),
    };
    mode + seq![' '] + pad_left(hard_links, widths.hard_links as nat) + seq![' '] + pad_right(
        user,
        widths.user as nat,
    ) + seq![' '] + pad_right(group, widths.group as nat) + seq![' '] + pad_left(
        size,
        widths.size as nat,
    ) + seq![' '] + time + seq![' '] + name
}

/// Whether the metadata of an entry fits in the widths it is shown in, its mode and time taking
/// the columns kept for them; metadata which could not be read always fits.
pub open spec fn fits_in(file_info: FileInfo, mode: Seq<char>, time: Seq<char>, widths: Widths) -> bool {
    match file_info.metadata {
        Some(metadata) => {
            &&& mode.len() == FILE_MODE_WIDTH
            &&& time.len() == FILE_TIME_WIDTH
            &&& decimal(metadata.hard_links as nat).len() <= widths.hard_links
            &&& spec_user(metadata).len() <= widths.user
            &&& spec_group(metadata).len() <= widths.group
            &&& decimal(metadata.size as nat).len() <= widths.size
        },
        None => true,
    }
}

/// The width of the entries shown with their metadata is the width of an entry's row, when its
/// metadata fits in the widths it is shown in.
pub proof fn law_width_is_the_width_of_the_row(file_info: FileInfo, mode: Seq<char>, time: Seq<char>, widths: Widths)
    requires
        fits_in(file_info, mode, time, widths),
    ensures
        spec_row(file_info, mode, time, widths).len() == spec_name_offset(
            widths.hard_links as nat,
            widths.user as nat,
            widths.group as nat,
            widths.size as nat,
        ) + spec_name_and_link_target(file_info).len(),
{
}

/// Return the entry shown with its metadata the same way that `ls -l` shows it, given how its
/// mode and time are written.
pub fn row(file_info: &FileInfo, mode: &str, time: &str, widths: Widths) -> (r: String)
    ensures
        r@ == spec_row(*file_info, mode@, time@, widths),
{
    let name: String = name_and_link_target(file_info);
    let (mode, hard_links, user, group, size, time): (String, String, String, String, String, String) =
        match &file_info.metadata {
        Some(metadata) => (
            crate::text::string_of(mode),
            decimal_string(metadata.hard_links),
            user(metadata),
            group(metadata),
            decimal_string(metadata.size),
            crate::text::string_of(time),
        ),
        None => (
            unknown(FILE_MODE_WIDTH),
            unknown(widths.hard_links),
            unknown(widths.user),
            unknown(widths.group),
            unknown(widths.size),
            unknown(FILE_TIME_WIDTH),
        ),
    };
    let mut r = mode;
    push_char(&mut r, ' ');
    r.append(right_aligned(hard_links.as_str(), widths.hard_links).as_str());
    push_char(&mut r, ' ');
    r.append(left_aligned(user.as_str(), widths.user).as_str());
    push_char(&mut r, ' ');
    r.append(left_aligned(group.as_str(), widths.group).as_str());
    push_char(&mut r, ' ');
    r.append(right_aligned(size.as_str(), widths.size).as_str());
    push_char(&mut r, ' ');
    r.append(time.as_str());
    push_char(&mut r, ' ');
    r.append(name.as_str());
    r
}

} // verus!
