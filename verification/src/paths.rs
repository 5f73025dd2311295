//! What is done with paths, which are kept as text.

use vstd::prelude::*;

use crate::text::{chars_of, string_of_chars};

verus! {

/// The directory a path is in, as `std::path::Path::parent` gives it: the path without its last
/// component, or nothing when the path is a root or empty.
pub uninterp spec fn path_parent(path: Seq<char>) -> Option<Seq<char>>;

/// Return the directory a path is in, if it has one.
///
/// Calls `std::path::Path::parent`, and writes the path it gives back as text with
/// `Path::to_string_lossy`; a path which came from text is valid text, and so is every path
/// above it. What the parent is is not written out here: it is named `path_parent`, which is
/// whatever `Path::parent` gives for the path.
#[verifier::external_body]
pub fn parent(path: &str) -> (p: Option<String>)
    ensures
        match p {
            Some(p) => path_parent(path@) == Some(p@),
            None => path_parent(path@) is None,
        },
{
    std::path::Path::new(path).parent().map(|p| p.to_string_lossy().into_owned())
}

/// The last component of a path, as `std::path::Path::file_name` gives it: the name of the file
/// or directory the path leads to, or nothing when the path ends in `..` or has no components.
pub uninterp spec fn path_file_name(path: Seq<char>) -> Option<Seq<char>>;

/// Return the last component of a path, if it has one.
///
/// Calls `std::path::Path::file_name`, and writes the name it gives back as text with
/// `OsStr::to_string_lossy`; a name which is part of a path which came from text is valid text.
/// Which name that is is not written out here: it is named `path_file_name`, which is whatever
/// `Path::file_name` gives for the path.
#[verifier::external_body]
pub fn file_name(path: &str) -> (name: Option<String>)
    ensures
        match name {
            Some(name) => path_file_name(path@) == Some(name@),
            None => path_file_name(path@) is None,
        },
{
    std::path::Path::new(path).file_name().map(|n| n.to_string_lossy().into_owned())
}

/// What is left of a path once a base it starts with is taken off, as
/// `std::path::Path::strip_prefix` gives it: nothing when the path does not start with every
/// component of the base.
pub uninterp spec fn path_strip_prefix(path: Seq<char>, base: Seq<char>) -> Option<Seq<char>>;

/// Return what is left of a path once a base it starts with is taken off, if it starts with it.
///
/// Calls `std::path::Path::strip_prefix`, which compares the paths a component at a time, and
/// writes what is left as text with `Path::to_string_lossy`; what is left of a path which came
/// from text is valid text. Which path that is is not written out here: it is named
/// `path_strip_prefix`, which is whatever `Path::strip_prefix` gives for the two paths.
#[verifier::external_body]
pub fn strip_prefix(path: &str, base: &str) -> (rest: Option<String>)
    ensures
        match rest {
            Some(rest) => path_strip_prefix(path@, base@) == Some(rest@),
            None => path_strip_prefix(path@, base@) is None,
        },
{
    std::path::Path::new(path).strip_prefix(base).ok().map(|p| p.to_string_lossy().into_owned())
}

/// A path with another after it, as `std::path::Path::join` gives it on Unix: the other path
/// when it is absolute, and otherwise the base, a separator unless the base is empty or already
/// ends in one, and the other path.
pub open spec fn path_join(base: Seq<char>, path: Seq<char>) -> Seq<char> {
    if path_is_absolute(path) {
        path
    } else if base.len() == 0 || base.last() == '/' {
        base + path
    } else {
        base + seq!['/'] + path
    }
}

/// Return a path with another after it.
///
/// Calls `std::path::Path::join`, which pushes the other path onto the base: an absolute path
/// takes the place of the base, and any other is put after it with a separator between them
/// where the base does not end in one. The path it gives is written back as text with
/// `Path::to_string_lossy`; a path made of text is valid text.
#[verifier::external_body]
pub fn join(base: &str, path: &str) -> (joined: String)
    ensures
        joined@ == path_join(base@, path@),
{
    std::path::Path::new(base).join(path).to_string_lossy().into_owned()
}

/// Whether a path is absolute. `std::path::Path::is_absolute` documents that on Unix, the
/// platform this library is for, a path is absolute when it has a root, which is when it begins
/// with `/`.
pub open spec fn path_is_absolute(path: Seq<char>) -> bool {
    path.len() > 0 && path[0] == '/'
}

/// Return whether a path is absolute: on Unix, whether it begins with `/`, as
/// `std::path::Path::is_absolute` documents.
pub fn is_absolute(path: &str) -> (absolute: bool)
    ensures
        absolute == path_is_absolute(path@),
{
    path.unicode_len() > 0 && path.get_char(0) == '/'
}

/// A path split at each separator, the way `str::split('/')` splits it: two separators in a
/// row have an empty piece between them, and there is always at least one piece.
pub open spec fn split_at_separators(path: Seq<char>) -> Seq<Seq<char>>
    decreases path.len(),
{
    if path.len() == 0 {
        seq![Seq::empty()]
    } else {
        let pieces = split_at_separators(path.drop_last());
        if path.last() == '/' {
            pieces.push(Seq::empty())
        } else {
            pieces.update(pieces.len() - 1, pieces.last().push(path.last()))
        }
    }
}

/// Whether a piece of a path names something: it is neither empty nor `.`.
pub open spec fn names_something(piece: Seq<char>) -> bool {
    piece.len() > 0 && piece != seq!['.']
}

/// The pieces of a path which name something, in order.
pub open spec fn named_pieces(pieces: Seq<Seq<char>>) -> Seq<Seq<char>>
    decreases pieces.len(),
{
    if pieces.len() == 0 {
        Seq::empty()
    } else if names_something(pieces.last()) {
        named_pieces(pieces.drop_last()).push(pieces.last())
    } else {
        named_pieces(pieces.drop_last())
    }
}

/// Pieces of a path with a separator between each two.
pub open spec fn joined_pieces(pieces: Seq<Seq<char>>) -> Seq<char>
    decreases pieces.len(),
{
    if pieces.len() == 0 {
        Seq::empty()
    } else if pieces.len() == 1 {
        pieces[0]
    } else {
        joined_pieces(pieces.drop_last()) + seq!['/'] + pieces.last()
    }
}

/// Whether a path which is not absolute starts with the current directory, `.`, as a component
/// of its own.
pub open spec fn starts_with_current_dir(path: Seq<char>) -> bool {
    path.len() > 0 && path[0] == '.' && (path.len() == 1 || path[1] == '/')
}

/// A path put back together from its components, as collecting `std::path::Path::components`
/// into a `PathBuf` gives it on Unix: the root if there is one, or else a leading `.` if the path
/// starts with one, and then the pieces which name something with a separator between each two.
/// Repeated separators, every other `.`, and a separator at the end are gone.
pub open spec fn path_normalized(path: Seq<char>) -> Seq<char> {
    let pieces = named_pieces(split_at_separators(path));
    if path_is_absolute(path) {
        seq!['/'] + joined_pieces(pieces)
    } else if starts_with_current_dir(path) {
        if pieces.len() == 0 {
            seq!['.']
        } else {
            seq!['.', '/'] + joined_pieces(pieces)
        }
    } else {
        joined_pieces(pieces)
    }
}

/// Return a path split at each separator.
fn split_path(cs: &Vec<char>) -> (pieces: Vec<Vec<char>>)
    ensures
        pieces@.map_values(|p: Vec<char>| p@) == split_at_separators(cs@),
{
    let mut pieces: Vec<Vec<char>> = Vec::new();
    let mut piece: Vec<char> = Vec::new();
    let mut i: usize = 0;
    assert(cs@.take(0) =~= Seq::<char>::empty());
    assert(pieces@.map_values(|p: Vec<char>| p@).push(piece@) =~= seq![Seq::<char>::empty()]);
    while i < cs.len()
        invariant
            i <= cs.len(),
            pieces@.map_values(|p: Vec<char>| p@).push(piece@) == split_at_separators(cs@.take(i as int)),
        decreases cs.len() - i,
    {
        let ghost before = split_at_separators(cs@.take(i as int));
        assert(cs@.take(i + 1).drop_last() =~= cs@.take(i as int));
        assert(cs@.take(i + 1).last() == cs@[i as int]);
        let c = cs[i];
        if c == '/' {
            let ghost old_pieces = pieces@;
            let done = piece;
            pieces.push(done);
            piece = Vec::new();
            assert(pieces@.map_values(|p: Vec<char>| p@) =~= old_pieces.map_values(|p: Vec<char>| p@).push(done@));
            assert(pieces@.map_values(|p: Vec<char>| p@).push(piece@) =~= before.push(Seq::empty()));
        } else {
            piece.push(c);
            assert(pieces@.map_values(|p: Vec<char>| p@).push(piece@) =~= before.update(
                before.len() - 1,
                before.last().push(c),
            ));
        }
        i = i + 1;
    }
    let ghost old_pieces = pieces@;
    let last = piece;
    pieces.push(last);
    assert(pieces@.map_values(|p: Vec<char>| p@) =~= old_pieces.map_values(|p: Vec<char>| p@).push(last@));
    assert(cs@.take(cs.len() as int) =~= cs@);
    pieces
}

/// Return the pieces of a path which name something, with a separator between each two.
fn join_named(pieces: &Vec<Vec<char>>) -> (r: (Vec<char>, usize))
    ensures
        r.0@ == joined_pieces(named_pieces(pieces@.map_values(|p: Vec<char>| p@))),
        r.1 == named_pieces(pieces@.map_values(|p: Vec<char>| p@)).len(),
{
    let ghost ps = pieces@.map_values(|p: Vec<char>| p@);
    let mut out: Vec<char> = Vec::new();
    let mut count: usize = 0;
    let mut i: usize = 0;
    assert(ps.take(0) =~= Seq::<Seq<char>>::empty());
    while i < pieces.len()
        invariant
            ps == pieces@.map_values(|p: Vec<char>| p@),
            i <= pieces.len(),
            count <= i,
            count == named_pieces(ps.take(i as int)).len(),
            out@ == joined_pieces(named_pieces(ps.take(i as int))),
        decreases pieces.len() - i,
    {
        assert(ps.take(i + 1).drop_last() =~= ps.take(i as int));
        assert(ps.take(i + 1).last() == pieces@[i as int]@);
        let piece = &pieces[i];
        let dot = piece.len() == 1 && piece[0] == '.';
        assert(dot == (piece@ == seq!['.'])) by {
            if piece@.len() == 1 && piece@[0] == '.' {
                assert(piece@ =~= seq!['.']);
            }
        }
        if piece.len() > 0 && !dot {
            let ghost named = named_pieces(ps.take(i as int));
            let ghost old_out = out@;
            if count > 0 {
                out.push('/');
            }
            let mut j: usize = 0;
            while j < piece.len()
                invariant
                    j <= piece.len(),
                    out@ == (if count > 0 { old_out + seq!['/'] } else { old_out }) + piece@.take(j as int),
                decreases piece.len() - j,
            {
                out.push(piece[j]);
                assert(piece@.take(j + 1) =~= piece@.take(j as int).push(piece@[j as int]));
                j = j + 1;
            }
            assert(piece@.take(piece.len() as int) =~= piece@);
            assert(named.push(piece@).drop_last() =~= named);
            if count == 0 {
                assert(out@ =~= piece@);
            }
            count = count + 1;
        }
        i = i + 1;
    }
    assert(ps.take(pieces.len() as int) =~= ps);
    (out, count)
}

/// Return a path put back together from its components: the root if there is one, or else a
/// leading `.` if the path starts with one, and then the pieces which name something with a
/// separator between each two, as collecting `std::path::Path::components` into a `PathBuf`
/// does on Unix.
pub fn normalized(path: &str) -> (p: String)
    ensures
        p@ == path_normalized(path@),
{
    let cs = chars_of(path);
    let pieces = split_path(&cs);
    let (joined, count) = join_named(&pieces);
    let mut out: Vec<char> = Vec::new();
    if cs.len() > 0 && cs[0] == '/' {
        out.push('/');
    } else if cs.len() > 0 && cs[0] == '.' && (cs.len() == 1 || cs[1] == '/') {
        out.push('.');
        if count > 0 {
            out.push('/');
        }
    }
    let ghost head = out@;
    let mut j: usize = 0;
    while j < joined.len()
        invariant
            j <= joined.len(),
            out@ == head + joined@.take(j as int),
        decreases joined.len() - j,
    {
        out.push(joined[j]);
        assert(joined@.take(j + 1) =~= joined@.take(j as int).push(joined@[j as int]));
        j = j + 1;
    }
    assert(joined@.take(joined.len() as int) =~= joined@);
    assert(out@ =~= path_normalized(path@));
    string_of_chars(&out)
}

/// Take the last component off a path, and say whether there was one to take off, the way
/// `std::path::PathBuf::pop` does: it truncates the path to its parent, and does nothing when it
/// has none.
pub fn pop(path: &mut String) -> (popped: bool)
    ensures
        popped == path_parent(old(path)@) is Some,
        popped ==> final(path)@ == path_parent(old(path)@).unwrap(),
        !popped ==> final(path)@ == old(path)@,
{
    match parent(path.as_str()) {
        Some(p) => {
            *path = p;
            true
        },
        None => false,
    }
}

} // verus!
