//! Paths as texts, read by the POSIX convention: `/` separates the
//! components, repeated separators and the component `.` count for nothing,
//! and a path that begins with a separator begins at the root.
//!
//! The file system is not asked: what a symbolic link or `..` stands for is
//! for the caller to resolve.

use crate::text::{lemma_texts_push, texts};
use vstd::prelude::*;

verus! {

/// Whether `c` separates the components of a path.
pub open spec fn is_separator(c: char) -> bool {
    c == '/'
}

/// Whether a piece between two separators counts as a component: an empty
/// piece and the piece `.` do not.
pub open spec fn counts(piece: Seq<char>) -> bool {
    piece.len() > 0 && piece != seq!['.']
}

/// What follows the last separator of `path`; the whole of it where it has
/// none.
pub open spec fn open_piece(path: Seq<char>) -> Seq<char>
    decreases path.len(),
{
    if path.len() == 0 {
        Seq::empty()
    } else if is_separator(path.last()) {
        Seq::empty()
    } else {
        open_piece(path.drop_last()).push(path.last())
    }
}

/// The components of `path` that a separator ends.
pub open spec fn closed_pieces(path: Seq<char>) -> Seq<Seq<char>>
    decreases path.len(),
{
    if path.len() == 0 {
        Seq::empty()
    } else if is_separator(path.last()) && counts(open_piece(path.drop_last())) {
        closed_pieces(path.drop_last()).push(open_piece(path.drop_last()))
    } else {
        closed_pieces(path.drop_last())
    }
}

/// The components of `path`, from left to right: the pieces between its
/// separators, without the empty ones and without `.`.
pub open spec fn components(path: Seq<char>) -> Seq<Seq<char>> {
    if counts(open_piece(path)) {
        closed_pieces(path).push(open_piece(path))
    } else {
        closed_pieces(path)
    }
}

/// Whether `path` begins at the root.
pub open spec fn is_rooted(path: Seq<char>) -> bool {
    path.len() > 0 && is_separator(path[0])
}

/// The components of `path`, with the root before them where the path
/// begins there. The root is written as the separator alone, which no
/// component is.
pub open spec fn anchored(path: Seq<char>) -> Seq<Seq<char>> {
    if is_rooted(path) {
        seq![seq!['/']] + components(path)
    } else {
        components(path)
    }
}

/// Whether `name` can name a file in a directory: it is not empty, holds no
/// separator, and is neither `.` nor `..`.
pub open spec fn is_plain_name(name: Seq<char>) -> bool {
    &&& name.len() > 0
    &&& name != seq!['.']
    &&& name != seq!['.', '.']
    &&& forall|i: int| 0 <= i < name.len() ==> !is_separator(#[trigger] name[i])
}

/// The base name of `path`: its last component, unless there is none or it
/// is `..`.
pub open spec fn base_name(path: Seq<char>) -> Option<Seq<char>> {
    let parts = components(path);
    if parts.len() == 0 || parts.last() == seq!['.', '.'] {
        None
    } else {
        Some(parts.last())
    }
}

/// The path of `name` under `dir`. A rooted `name` stands for itself; else
/// one separator is put between the two unless `dir` is empty or ends in
/// one.
pub open spec fn joined(dir: Seq<char>, name: Seq<char>) -> Seq<char> {
    if is_rooted(name) {
        name
    } else if dir.len() == 0 || is_separator(dir.last()) {
        dir + name
    } else {
        dir.push('/') + name
    }
}

/// Whether `path` lies at or under `base`, component by component: the
/// components of `base`, root included, are the first of `path`.
pub open spec fn starts_with(path: Seq<char>, base: Seq<char>) -> bool {
    anchored(base).is_prefix_of(anchored(path))
}

/// Whether `part` can be a component: it is not empty, is not `.`, and
/// holds no separator.
pub open spec fn is_piece(part: Seq<char>) -> bool {
    &&& counts(part)
    &&& forall|k: int| 0 <= k < part.len() ==> !is_separator(#[trigger] part[k])
}

/// The open piece holds no separator, and every component that a separator
/// ends is a piece.
proof fn lemma_scanned_pieces(path: Seq<char>)
    ensures
        forall|k: int|
            0 <= k < open_piece(path).len() ==> !is_separator(#[trigger] open_piece(path)[k]),
        forall|i: int|
            0 <= i < closed_pieces(path).len() ==> is_piece(#[trigger] closed_pieces(path)[i]),
    decreases path.len(),
{
    if path.len() > 0 {
        let before = path.drop_last();
        lemma_scanned_pieces(before);
        assert forall|k: int| 0 <= k < open_piece(path).len() implies !is_separator(
            #[trigger] open_piece(path)[k],
        ) by {
            if k < open_piece(before).len() {
                assert(open_piece(path)[k] == open_piece(before)[k]);
            }
        }
        assert forall|i: int| 0 <= i < closed_pieces(path).len() implies is_piece(
            #[trigger] closed_pieces(path)[i],
        ) by {
            if i < closed_pieces(before).len() {
                assert(closed_pieces(path)[i] == closed_pieces(before)[i]);
            } else {
                assert(closed_pieces(path)[i] == open_piece(before));
            }
        }
    }
}

/// No component is empty, none is `.`, and none holds a separator.
pub proof fn lemma_components_are_pieces(path: Seq<char>)
    ensures
        forall|i: int| 0 <= i < components(path).len() ==> is_piece(#[trigger] components(path)[i]),
{
    lemma_scanned_pieces(path);
    assert forall|i: int| 0 <= i < components(path).len() implies is_piece(
        #[trigger] components(path)[i],
    ) by {
        if i < closed_pieces(path).len() {
            assert(components(path)[i] == closed_pieces(path)[i]);
        } else {
            assert(components(path)[i] == open_piece(path));
        }
    }
}

/// A base name is a plain name.
pub proof fn lemma_base_name_is_plain(path: Seq<char>)
    ensures
        base_name(path) matches Some(name) ==> is_plain_name(name),
{
    lemma_components_are_pieces(path);
    let parts = components(path);
    if parts.len() > 0 {
        assert(is_piece(parts[parts.len() - 1]));
    }
}

/// Reading on over text without a separator ends no component and
/// lengthens the open piece.
proof fn lemma_scan_plain(path: Seq<char>, more: Seq<char>)
    requires
        forall|i: int| 0 <= i < more.len() ==> !is_separator(#[trigger] more[i]),
    ensures
        closed_pieces(path + more) == closed_pieces(path),
        open_piece(path + more) == open_piece(path) + more,
    decreases more.len(),
{
    if more.len() == 0 {
        assert(path + more =~= path);
        assert(open_piece(path) + more =~= open_piece(path));
    } else {
        let whole = path + more;
        assert(whole.drop_last() =~= path + more.drop_last());
        assert(whole.last() == more.last());
        lemma_scan_plain(path, more.drop_last());
        assert(open_piece(path) + more =~= (open_piece(path) + more.drop_last()).push(more.last()));
    }
}

/// A plain name under a directory is one more component after those of the
/// directory, and begins at the root exactly if the directory does.
pub proof fn lemma_joined_adds_a_component(dir: Seq<char>, name: Seq<char>)
    requires
        is_plain_name(name),
    ensures
        components(joined(dir, name)) == components(dir).push(name),
        anchored(joined(dir, name)) == anchored(dir).push(name),
        starts_with(joined(dir, name), dir),
        anchored(joined(dir, name)).len() == anchored(dir).len() + 1,
{
    assert(!is_rooted(name));
    let whole = joined(dir, name);
    if dir.len() == 0 {
        assert(whole =~= name);
        assert(Seq::<char>::empty() + name =~= name);
        lemma_scan_plain(Seq::empty(), name);
        assert(open_piece(Seq::empty()) + name =~= name);
    } else if is_separator(dir.last()) {
        lemma_scan_plain(dir, name);
        assert(open_piece(dir) + name =~= name);
        assert(whole[0] == dir[0]);
    } else {
        let closed = dir.push('/');
        assert(closed.drop_last() =~= dir);
        lemma_scan_plain(closed, name);
        assert(open_piece(closed) + name =~= name);
        assert(whole[0] == dir[0]);
    }
    assert(components(whole) == components(dir).push(name));
    assert(anchored(whole) =~= anchored(dir).push(name));
}

/// The components of two paths with a separator between them are those of
/// the first and then those of the second.
pub proof fn lemma_components_of_two(first: Seq<char>, second: Seq<char>)
    ensures
        closed_pieces(first.push('/') + second) == components(first) + closed_pieces(second),
        open_piece(first.push('/') + second) == open_piece(second),
        components(first.push('/') + second) == components(first) + components(second),
    decreases second.len(),
{
    let head = first.push('/');
    let whole = head + second;
    assert(head.drop_last() =~= first);
    if second.len() == 0 {
        assert(whole =~= head);
        assert(components(first) + closed_pieces(second) =~= components(first));
    } else {
        let before = head + second.drop_last();
        assert(whole.drop_last() =~= before);
        assert(whole.last() == second.last());
        lemma_components_of_two(first, second.drop_last());
        if is_separator(second.last()) && counts(open_piece(second.drop_last())) {
            assert(closed_pieces(whole) =~= components(first) + closed_pieces(second));
        }
    }
    if counts(open_piece(second)) {
        assert(components(whole) =~= components(first) + components(second));
    }
}

/// Decides whether `c` separates the components of a path.
pub fn separates(c: char) -> (yes: bool)
    ensures
        yes == is_separator(c),
{
    c == '/'
}

/// Decides whether `path` begins at the root.
pub fn rooted(path: &str) -> (yes: bool)
    ensures
        yes == is_rooted(path@),
{
    path.unicode_len() > 0 && separates(path.get_char(0))
}

/// Adds `piece` to `parts` if it counts as a component.
fn push_piece(parts: &mut Vec<String>, piece: &str)
    ensures
        texts(final(parts)@) == if counts(piece@) {
            texts(old(parts)@).push(piece@)
        } else {
            texts(old(parts)@)
        },
{
    let length = piece.unicode_len();
    if length == 0 {
        return ;
    }
    if length == 1 && piece.get_char(0) == '.' {
        assert(piece@ =~= seq!['.']);
        return ;
    }
    assert(piece@ != seq!['.']) by {
        if piece@ == seq!['.'] {
            assert(seq!['.'].len() == 1);
            assert(seq!['.'][0] == '.');
        }
    }
    let owned = String::from_str(piece);
    proof {
        lemma_texts_push(parts@, owned);
    }
    parts.push(owned);
}

/// Splits `path` into its components.
pub fn components_of(path: &str) -> (parts: Vec<String>)
    ensures
        texts(parts@) == components(path@),
{
    let total = path.unicode_len();
    let mut parts: Vec<String> = Vec::new();
    let mut start: usize = 0;
    let mut i: usize = 0;
    assert(path@.take(0) =~= Seq::<char>::empty());
    assert(path@.subrange(0, 0) =~= Seq::<char>::empty());
    assert(texts(parts@) =~= Seq::<Seq<char>>::empty());
    while i < total
        invariant
            total == path@.len(),
            start <= i <= total,
            texts(parts@) == closed_pieces(path@.take(i as int)),
            path@.subrange(start as int, i as int) == open_piece(path@.take(i as int)),
        decreases total - i,
    {
        let c = path.get_char(i);
        proof {
            let before = path@.take(i as int);
            let after = path@.take(i + 1);
            assert(after.drop_last() =~= before);
            assert(after.last() == c);
            if !is_separator(c) {
                assert(path@.subrange(start as int, i + 1) =~= path@.subrange(
                    start as int,
                    i as int,
                ).push(c));
            } else {
                assert(path@.subrange(i + 1, i + 1) =~= Seq::<char>::empty());
            }
        }
        if separates(c) {
            push_piece(&mut parts, path.substring_char(start, i));
            start = i + 1;
        }
        i = i + 1;
    }
    assert(path@.take(total as int) =~= path@);
    push_piece(&mut parts, path.substring_char(start, total));
    parts
}

/// Tells whether `text` is `..`.
fn is_parent_mark(text: &String) -> (yes: bool)
    ensures
        yes == (text@ == seq!['.', '.']),
{
    let piece = text.as_str();
    if piece.unicode_len() == 2 && piece.get_char(0) == '.' && piece.get_char(1) == '.' {
        assert(text@ =~= seq!['.', '.']);
        true
    } else {
        assert(text@ != seq!['.', '.']) by {
            if text@ == seq!['.', '.'] {
                assert(seq!['.', '.'].len() == 2);
                assert(seq!['.', '.'][0] == '.');
                assert(seq!['.', '.'][1] == '.');
            }
        }
        false
    }
}

/// Extracts the base name of `path`: its last component. A path without
/// components has none, nor has one that ends in `..`.
///
/// The reading is POSIX: only `/` separates, and `\` is a character of a
/// name like any other.
pub fn base_name_of(path: &str) -> (name: Option<String>)
    ensures
        match name {
            Some(text) => base_name(path@) == Some(text@) && is_plain_name(text@),
            None => base_name(path@) is None,
        },
{
    let mut parts = components_of(path);
    proof {
        lemma_base_name_is_plain(path@);
    }
    let ghost all = parts@;
    match parts.pop() {
        Some(last) => {
            assert(texts(all).last() == last@);
            if is_parent_mark(&last) {
                None
            } else {
                Some(last)
            }
        },
        None => None,
    }
}

/// Joins `name` to `dir`. A rooted `name` stands for itself; else one
/// separator is put between the two unless `dir` is empty or ends in one.
pub fn join(dir: &str, name: &str) -> (path: String)
    ensures
        path@ == joined(dir@, name@),
{
    if rooted(name) {
        return String::from_str(name);
    }
    let length = dir.unicode_len();
    let mut path = String::from_str(dir);
    if length > 0 && !separates(dir.get_char(length - 1)) {
        proof {
            reveal_strlit("/");
            assert("/"@ =~= seq!['/']);
            assert(dir@ + seq!['/'] =~= dir@.push('/'));
        }
        path.append("/");
    }
    path.append(name);
    path
}

/// The components of `path`, with the root before them where the path
/// begins there.
fn anchored_of(path: &str) -> (parts: Vec<String>)
    ensures
        texts(parts@) == anchored(path@),
{
    let found = components_of(path);
    if rooted(path) {
        let mut parts: Vec<String> = Vec::new();
        let root = String::from_str("/");
        proof {
            reveal_strlit("/");
            assert(root@ =~= seq!['/']);
            lemma_texts_push(parts@, root);
            assert(texts(parts@) =~= Seq::<Seq<char>>::empty());
        }
        parts.push(root);
        let mut found = found;
        let ghost tail = found@;
        parts.append(&mut found);
        assert(texts(parts@) =~= seq![seq!['/']] + texts(tail));
        parts
    } else {
        found
    }
}

/// Decides whether `path` lies at or under `base`, component by component.
/// A name that merely begins like the last component of `base` is not
/// under it.
pub fn path_starts_with(path: &str, base: &str) -> (yes: bool)
    ensures
        yes == starts_with(path@, base@),
{
    let whole = anchored_of(path);
    let prefix = anchored_of(base);
    if prefix.len() > whole.len() {
        return false;
    }
    let mut i: usize = 0;
    while i < prefix.len()
        invariant
            i <= prefix@.len() <= whole@.len(),
            texts(whole@) == anchored(path@),
            texts(prefix@) == anchored(base@),
            forall|k: int| 0 <= k < i ==> anchored(base@)[k] == anchored(path@)[k],
        decreases prefix@.len() - i,
    {
        assert(texts(whole@)[i as int] == whole@[i as int]@);
        assert(texts(prefix@)[i as int] == prefix@[i as int]@);
        if prefix[i] != whole[i] {
            return false;
        }
        i = i + 1;
    }
    assert(anchored(base@) =~= anchored(path@).subrange(0, anchored(base@).len() as int));
    true
}

} // verus!
