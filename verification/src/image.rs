//! The image reference parser: a user-supplied string becomes a structured
//! (repository, tag) pair, defaulting the tag to "latest".

use vstd::prelude::*;
use vstd::string::*;

verus! {

/// Whether the string holds a ':' anywhere.
pub open spec fn has_colon(s: Seq<char>) -> bool {
    exists|i: int| 0 <= i < s.len() && s[i] == ':'
}

/// `i` is the index of the first ':' in `s`.
pub open spec fn is_first_colon(s: Seq<char>, i: int) -> bool {
    &&& 0 <= i < s.len()
    &&& s[i] == ':'
    &&& forall|j: int| 0 <= j < i ==> s[j] != ':'
}

/// The index of the first ':' in `s` (meaningful only when `has_colon(s)`).
pub open spec fn first_colon(s: Seq<char>) -> int {
    choose|i: int| is_first_colon(s, i)
}

/// The first ':' index is unique.
proof fn lemma_first_colon_unique(s: Seq<char>, i: int, j: int)
    requires
        is_first_colon(s, i),
        is_first_colon(s, j),
    ensures
        i == j,
{
    if i < j {
        assert(s[i] != ':');
    }
    if j < i {
        assert(s[j] != ':');
    }
}

/// An image reference: the repository name and the tag used to select a
/// manifest. Immutable once parsed.
#[derive(Debug)]
pub struct Image {
    pub name: String,
    pub reference: String,
}

impl Image {
    /// Parses `repository[:tag]`, splitting at the first ':'; a string
    /// without ':' is a bare repository with tag "latest". Never fails, and
    /// performs no validation of the character set: a bad repository name is
    /// surfaced later by the registry, not here.
    pub fn from_str(s: &str) -> (img: Image)
        ensures
            !has_colon(s@) ==> img.name@ == s@ && img.reference@ == "latest"@,
            has_colon(s@) ==> {
                &&& is_first_colon(s@, first_colon(s@))
                &&& img.name@ == s@.take(first_colon(s@))
                &&& img.reference@ == s@.skip(first_colon(s@) + 1)
            },
    {
        let len: usize = s.unicode_len();
        let mut i: usize = 0;
        while i < len
            invariant
                0 <= i <= len,
                len == s@.len(),
                forall|j: int| 0 <= j < i ==> s@[j] != ':',
            decreases len - i,
        {
            if s.get_char(i) == ':' {
                proof {
                    assert(is_first_colon(s@, i as int));
                    lemma_first_colon_unique(s@, i as int, first_colon(s@));
                }
                let name = s.substring_char(0, i).to_owned();
                let reference = s.substring_char(i + 1, len).to_owned();
                proof {
                    assert(name@ =~= s@.take(i as int));
                    assert(reference@ =~= s@.skip(i as int + 1));
                }
                return Image { name, reference };
            }
            i += 1;
        }
        Image { name: s.to_owned(), reference: "latest".to_owned() }
    }
}

} // verus!
