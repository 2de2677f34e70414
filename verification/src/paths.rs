//! Paths as text: separators, directories and file names, and the
//! abbreviation of the home directory.
//!
//! A path is the text that names a file. Two paths are the same when
//! their texts are equal, so callers hand in paths in one spelling
//! (canonical where the rule at hand asks for it). A path that has no
//! text form is handed in with the replacement character in place of
//! what cannot be shown.

use vstd::prelude::*;
use vstd::string::*;
use crate::text::{chars_of, contains_char, join_text, occurs_at};

verus! {

/// Which characters separate the components of a path.
#[derive(Debug, Clone, Copy, PartialEq, Eq, Structural)]
pub enum PathStyle {
    /// `/` separates.
    Unix,
    /// `/` and `\` separate; a drive letter may lead.
    Windows,
}

/// Stands in a path for what has no text form.
pub const REPLACEMENT_CHARACTER: char = '\u{FFFD}';

/// Is all of `path` text: does it hold no replacement character?
pub open spec fn is_text(path: Seq<char>) -> bool {
    !path.contains(REPLACEMENT_CHARACTER)
}

/// Does `c` separate path components in this style?
pub open spec fn is_separator(style: PathStyle, c: char) -> bool {
    c == '/' || (style == PathStyle::Windows && c == '\\')
}

/// Position of the last separator of `path`, or -1 if it has none.
pub open spec fn last_separator(style: PathStyle, path: Seq<char>) -> int
    decreases path.len(),
{
    if path.len() == 0 {
        -1
    } else if is_separator(style, path.last()) {
        path.len() - 1
    } else {
        last_separator(style, path.drop_last())
    }
}

/// The last component of `path`: what follows its last separator.
pub open spec fn file_name_of(style: PathStyle, path: Seq<char>) -> Seq<char> {
    path.subrange(last_separator(style, path) + 1, path.len() as int)
}

/// `path` up to and including its last separator; empty if it has none.
pub open spec fn dir_prefix_of(style: PathStyle, path: Seq<char>) -> Seq<char> {
    path.subrange(0, last_separator(style, path) + 1)
}

/// The directory that holds `path`: the text before its last separator,
/// the root itself where that separator leads the path, the empty
/// directory for a bare file name, and nothing for the empty path.
pub open spec fn parent_of(style: PathStyle, path: Seq<char>) -> Option<Seq<char>> {
    let at = last_separator(style, path);
    if path.len() == 0 {
        None
    } else if at < 0 {
        Some(Seq::empty())
    } else if at == 0 {
        Some(path.subrange(0, 1))
    } else {
        Some(path.subrange(0, at))
    }
}

/// Does `path` name a location from a root? In Unix style it begins with
/// `/`; in Windows style it begins with a drive (`X:` and a separator) or
/// with two separators.
pub open spec fn is_absolute_path(style: PathStyle, path: Seq<char>) -> bool {
    match style {
        PathStyle::Unix => path.len() >= 1 && path[0] == '/',
        PathStyle::Windows => (path.len() >= 3 && path[1] == ':' && is_separator(style, path[2]))
            || (path.len() >= 2 && is_separator(style, path[0]) && is_separator(
            style,
            path[1],
        )),
    }
}

/// Does `path` begin with a drive: a character and a colon? Only
/// Windows style knows drives.
pub open spec fn has_drive(style: PathStyle, path: Seq<char>) -> bool {
    style == PathStyle::Windows && path.len() >= 2 && path[1] == ':'
}

/// Does `path` begin with a separator?
pub open spec fn is_rooted(style: PathStyle, path: Seq<char>) -> bool {
    path.len() >= 1 && is_separator(style, path[0])
}

/// The drive that leads `path`, with its colon; empty where it has
/// none.
pub open spec fn drive_of(style: PathStyle, path: Seq<char>) -> Seq<char> {
    if has_drive(style, path) {
        path.subrange(0, 2)
    } else {
        Seq::empty()
    }
}

/// `name` joined to the directory that holds `file`. A name that is
/// absolute or leads with a drive stands for itself; one that leads
/// with a separator keeps only the drive of `file`; any other follows
/// the directory of `file`.
pub open spec fn sibling_of(style: PathStyle, file: Seq<char>, name: Seq<char>) -> Seq<char> {
    if has_drive(style, name) || is_absolute_path(style, name) {
        name
    } else if is_rooted(style, name) {
        drive_of(style, file) + name
    } else {
        dir_prefix_of(style, file) + name
    }
}

/// Are `a` and `b` the same directory, separators told apart from
/// other characters but not from one another?
pub open spec fn same_dir(style: PathStyle, a: Seq<char>, b: Seq<char>) -> bool {
    a.len() == b.len() && forall|i: int|
        0 <= i < a.len() ==> a[i] == b[i] || (is_separator(style, a[i]) && is_separator(
            style,
            b[i],
        ))
}

/// `last_separator` is the greatest position that holds a separator.
pub proof fn lemma_last_separator(style: PathStyle, path: Seq<char>)
    ensures
        -1 <= last_separator(style, path) < path.len(),
        last_separator(style, path) >= 0 ==> is_separator(
            style,
            path[last_separator(style, path)],
        ),
        forall|j: int|
            last_separator(style, path) < j < path.len() ==> !is_separator(
                style,
                #[trigger] path[j],
            ),
    decreases path.len(),
{
    if path.len() > 0 && !is_separator(style, path.last()) {
        lemma_last_separator(style, path.drop_last());
        assert forall|j: int| last_separator(style, path) < j < path.len() implies !is_separator(
            style,
            #[trigger] path[j],
        ) by {
            if j < path.len() - 1 {
                assert(path.drop_last()[j] == path[j]);
            }
        }
    }
}

/// A position that holds a separator and is followed by none is the
/// last separator.
pub proof fn lemma_last_separator_is(style: PathStyle, path: Seq<char>, at: int)
    requires
        -1 <= at < path.len(),
        at >= 0 ==> is_separator(style, path[at]),
        forall|j: int| at < j < path.len() ==> !is_separator(style, #[trigger] path[j]),
    ensures
        last_separator(style, path) == at,
{
    lemma_last_separator(style, path);
}

/// Is all of `path` text?
pub fn has_text_form(path: &str) -> (yes: bool)
    ensures
        yes == is_text(path@),
{
    !contains_char(path, REPLACEMENT_CHARACTER)
}

/// Does `c` separate path components in this style?
pub fn separates(style: PathStyle, c: char) -> (yes: bool)
    ensures
        yes == is_separator(style, c),
{
    c == '/' || (matches!(style, PathStyle::Windows) && c == '\\')
}

/// Position just after the last separator of `path`: where its file
/// name begins.
fn file_name_start(style: PathStyle, chars: &Vec<char>) -> (start: usize)
    ensures
        start == last_separator(style, chars@) + 1,
        start <= chars.len(),
{
    let mut i: usize = chars.len();
    while i > 0
        invariant
            i <= chars.len(),
            forall|j: int| i <= j < chars.len() ==> !is_separator(style, #[trigger] chars@[j]),
        decreases i,
    {
        if separates(style, chars[i - 1]) {
            proof {
                lemma_last_separator_is(style, chars@, i - 1);
            }
            return i;
        }
        i -= 1;
    }
    proof {
        lemma_last_separator_is(style, chars@, -1);
    }
    0
}

/// The last component of `path`.
pub fn file_name(style: PathStyle, path: &str) -> (name: String)
    ensures
        name@ == file_name_of(style, path@),
{
    let chars = chars_of(path);
    let start = file_name_start(style, &chars);
    String::from_str(path.substring_char(start, chars.len()))
}

/// `path` up to and including its last separator.
pub fn dir_prefix(style: PathStyle, path: &str) -> (prefix: String)
    ensures
        prefix@ == dir_prefix_of(style, path@),
{
    let chars = chars_of(path);
    let start = file_name_start(style, &chars);
    String::from_str(path.substring_char(0, start))
}

/// The directory that holds `path`, if it has one.
pub fn parent_dir(style: PathStyle, path: &str) -> (parent: Option<String>)
    ensures
        match parent {
            Some(dir) => parent_of(style, path@) == Some(dir@),
            None => parent_of(style, path@) is None,
        },
{
    let chars = chars_of(path);
    if chars.len() == 0 {
        return None;
    }
    let start = file_name_start(style, &chars);
    if start == 0 {
        let dir = String::from_str(path.substring_char(0, 0));
        assert(dir@ =~= Seq::<char>::empty());
        Some(dir)
    } else if start == 1 {
        Some(String::from_str(path.substring_char(0, 1)))
    } else {
        Some(String::from_str(path.substring_char(0, start - 1)))
    }
}

/// Does `path` name a location from a root?
pub fn is_absolute(style: PathStyle, path: &str) -> (yes: bool)
    ensures
        yes == is_absolute_path(style, path@),
{
    let chars = chars_of(path);
    match style {
        PathStyle::Unix => chars.len() >= 1 && chars[0] == '/',
        PathStyle::Windows => (chars.len() >= 3 && chars[1] == ':' && separates(style, chars[2]))
            || (chars.len() >= 2 && separates(style, chars[0]) && separates(style, chars[1])),
    }
}

/// Are `a` and `b` the same directory, whichever separators spell
/// them?
pub fn same_directory(style: PathStyle, a: &str, b: &str) -> (same: bool)
    ensures
        same == same_dir(style, a@, b@),
{
    let x = chars_of(a);
    let y = chars_of(b);
    if x.len() != y.len() {
        return false;
    }
    let mut i: usize = 0;
    while i < x.len()
        invariant
            i <= x.len(),
            x.len() == y.len(),
            x@ == a@,
            y@ == b@,
            forall|j: int|
                0 <= j < i ==> x@[j] == y@[j] || (is_separator(style, x@[j]) && is_separator(
                    style,
                    y@[j],
                )),
        decreases x.len() - i,
    {
        if x[i] != y[i] && !(separates(style, x[i]) && separates(style, y[i])) {
            return false;
        }
        i += 1;
    }
    true
}

/// `name` joined to the directory that holds `file`.
pub fn sibling(style: PathStyle, file: &str, name: &str) -> (joined: String)
    ensures
        joined@ == sibling_of(style, file@, name@),
{
    let n = chars_of(name);
    let on_drive = matches!(style, PathStyle::Windows) && n.len() >= 2 && n[1] == ':';
    if on_drive || is_absolute(style, name) {
        String::from_str(name)
    } else if n.len() >= 1 && separates(style, n[0]) {
        let f = chars_of(file);
        let mut joined = if matches!(style, PathStyle::Windows) && f.len() >= 2 && f[1] == ':' {
            String::from_str(file.substring_char(0, 2))
        } else {
            String::new()
        };
        joined.append(name);
        assert(Seq::<char>::empty() + name@ =~= name@);
        joined
    } else {
        let mut joined = dir_prefix(style, file);
        joined.append(name);
        joined
    }
}

/// Replaces the home directory at the front of a path by `~`.
pub struct PathSimplifier {
    home_dir: Option<String>,
    style: PathStyle,
}

/// `path` without the separators that end it.
pub open spec fn trimmed(style: PathStyle, path: Seq<char>) -> Seq<char>
    decreases path.len(),
{
    if path.len() > 0 && is_separator(style, path.last()) {
        trimmed(style, path.drop_last())
    } else {
        path
    }
}

/// Does `path` lie in or at the directory `home`, taken by whole
/// components: does it begin with `home` less the separators that end
/// it, ending there or going on with a separator? A home that is
/// nothing but separators is the root, which every path from the root
/// lies in.
pub open spec fn is_under(style: PathStyle, home: Seq<char>, path: Seq<char>) -> bool {
    let dir = trimmed(style, home);
    &&& home.len() > 0
    &&& occurs_at(path, dir, 0)
    &&& if dir.len() == 0 {
        path.len() > 0 && is_separator(style, path[0])
    } else {
        path.len() == dir.len() || is_separator(style, path[dir.len() as int])
    }
}

/// `path` with the home directory, where the path lies in or at it,
/// replaced by `~`.
pub open spec fn simplified(style: PathStyle, home: Option<Seq<char>>, path: Seq<char>) -> Seq<
    char,
> {
    match home {
        Some(h) => if is_under(style, h, path) {
            seq!['~'] + path.subrange(trimmed(style, h).len() as int, path.len() as int)
        } else {
            path
        },
        None => path,
    }
}

/// What is cut from a path is a run of separators at its end.
pub proof fn lemma_trimmed(style: PathStyle, path: Seq<char>)
    ensures
        trimmed(style, path).len() <= path.len(),
        trimmed(style, path) == path.take(trimmed(style, path).len() as int),
        trimmed(style, path).len() > 0 ==> !is_separator(style, trimmed(style, path).last()),
        forall|j: int|
            trimmed(style, path).len() <= j < path.len() ==> is_separator(
                style,
                #[trigger] path[j],
            ),
    decreases path.len(),
{
    if path.len() > 0 && is_separator(style, path.last()) {
        lemma_trimmed(style, path.drop_last());
        let kept = trimmed(style, path).len() as int;
        assert(path.drop_last().take(kept) =~= path.take(kept));
        assert forall|j: int| kept <= j < path.len() implies is_separator(
            style,
            #[trigger] path[j],
        ) by {
            if j < path.len() - 1 {
                assert(path.drop_last()[j] == path[j]);
            }
        }
    } else {
        assert(path.take(path.len() as int) =~= path);
    }
}

/// The length of `path` without the separators that end it.
fn trimmed_len(style: PathStyle, chars: &Vec<char>) -> (kept: usize)
    ensures
        kept <= chars.len(),
        chars@.take(kept as int) == trimmed(style, chars@),
{
    let mut kept: usize = chars.len();
    assert(chars@.take(kept as int) =~= chars@);
    while kept > 0 && separates(style, chars[kept - 1])
        invariant
            kept <= chars.len(),
            trimmed(style, chars@) == trimmed(style, chars@.take(kept as int)),
        decreases kept,
    {
        assert(chars@.take(kept as int).drop_last() =~= chars@.take(kept - 1));
        kept -= 1;
    }
    kept
}

impl PathSimplifier {
    /// The home directory that is abbreviated, if any.
    pub closed spec fn home(&self) -> Option<Seq<char>> {
        match self.home_dir {
            Some(h) => Some(h@),
            None => None,
        }
    }

    /// The style in which paths are read.
    pub closed spec fn path_style(&self) -> PathStyle {
        self.style
    }

    /// A simplifier for the given home directory; with `None` every path
    /// is left as it is.
    pub fn new(home_dir: Option<String>, style: PathStyle) -> (simplifier: PathSimplifier)
        ensures
            simplifier.home() == match home_dir {
                Some(h) => Some(h@),
                None => None,
            },
            simplifier.path_style() == style,
    {
        PathSimplifier { home_dir, style }
    }

    /// `path` with the home directory abbreviated.
    pub fn simplify(&self, path: &str) -> (short: String)
        ensures
            short@ == simplified(self.path_style(), self.home(), path@),
    {
        match &self.home_dir {
            Some(home) => {
                let h = chars_of(home.as_str());
                let p = chars_of(path);
                let kept = trimmed_len(self.style, &h);
                let dir = home.as_str().substring_char(0, kept);
                let under = h.len() > 0 && crate::text::starts_with_text(path, dir) && if kept
                    == 0 {
                    p.len() > 0 && separates(self.style, p[0])
                } else {
                    p.len() == kept || separates(self.style, p[kept])
                };
                if under {
                    proof {
                        reveal_strlit("~");
                    }
                    let short = join_text("~", path.substring_char(kept, p.len()));
                    assert("~"@ =~= seq!['~']);
                    short
                } else {
                    String::from_str(path)
                }
            },
            None => String::from_str(path),
        }
    }
}

} // verus!
