//! Path texts: the platform families, their separators, and the two
//! operations that the resolution needs, the absolute-path test and the join.

use vstd::prelude::*;

verus! {

/// The family of operating systems that the host belongs to.
#[derive(Clone, Copy, PartialEq, Eq, Debug)]
pub enum Platform {
    /// Linux, the BSDs and the other systems that follow the XDG base
    /// directory layout.
    Unix,
    /// macOS and its relatives.
    MacOs,
    /// Windows.
    Windows,
}

impl Platform {
    /// The character that `join` puts between a base and a name.
    pub open spec fn main_separator(self) -> char {
        match self {
            Platform::Windows => '\\',
            _ => '/',
        }
    }

    /// Whether `c` ends a path component on this platform: `/` everywhere,
    /// and `\` on Windows as well.
    pub open spec fn separates(self, c: char) -> bool {
        c == '/' || (self is Windows && c == '\\')
    }

    /// Executable form of [`Platform::separates`].
    pub fn is_separator(self, c: char) -> (b: bool)
        ensures
            b == self.separates(c),
    {
        match self {
            Platform::Windows => c == '/' || c == '\\',
            _ => c == '/',
        }
    }

    /// The main separator as a one-character text.
    pub fn separator(self) -> (s: &'static str)
        ensures
            s@ == seq![self.main_separator()],
    {
        match self {
            Platform::Windows => {
                proof {
                    reveal_strlit("\\");
                }
                "\\"
            },
            _ => {
                proof {
                    reveal_strlit("/");
                }
                "/"
            },
        }
    }
}

/// A path text is absolute when it begins with `/`. This is the rule of the
/// macOS family, the only one on which the resolution asks.
pub open spec fn absolute(path: Seq<char>) -> bool {
    path.len() > 0 && path[0] == '/'
}

/// Executable form of [`absolute`].
pub fn is_absolute(path: &str) -> (b: bool)
    ensures
        b == absolute(path@),
{
    !path.is_empty() && path.get_char(0) == '/'
}

/// `name` placed below `base`: the two texts with one main separator between
/// them, which is left out where `base` is empty or already ends in a
/// separator.
pub open spec fn joined(platform: Platform, base: Seq<char>, name: Seq<char>) -> Seq<char> {
    if base.len() == 0 || platform.separates(base.last()) {
        base + name
    } else {
        base.push(platform.main_separator()) + name
    }
}

/// Executable form of [`joined`].
pub fn join(platform: Platform, base: &str, name: &str) -> (path: String)
    ensures
        path@ == joined(platform, base@, name@),
{
    let n: usize = base.unicode_len();
    let bare: bool = n == 0 || platform.is_separator(base.get_char(n - 1));
    let start: String = if bare {
        String::from_str(base)
    } else {
        String::from_str(base).concat(platform.separator())
    };
    start.concat(name)
}

/// A joined path begins with its base and ends with the name, and nothing
/// but at most one separator stands between the two.
pub proof fn lemma_joined_frames(platform: Platform, base: Seq<char>, name: Seq<char>)
    ensures
        base.is_prefix_of(joined(platform, base, name)),
        name.is_suffix_of(joined(platform, base, name)),
        base.len() + name.len() <= joined(platform, base, name).len() <= base.len() + name.len()
            + 1,
{
}

/// A name joined to an absolute base gives an absolute path.
pub proof fn lemma_joined_absolute(platform: Platform, base: Seq<char>, name: Seq<char>)
    requires
        absolute(base),
    ensures
        absolute(joined(platform, base, name)),
{
}

} // verus!
