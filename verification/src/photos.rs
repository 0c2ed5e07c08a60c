//! The photo-gallery listing helpers: uncached, derived fresh per call from
//! the raw object-storage listing the rim hands in.
//!
//! The storage layout is one level of folders (common prefixes ending in
//! the separator) holding object keys. Nothing here is cached: every page
//! render reflects the listing it was given.

use crate::text::{push_char, str_eq};
use vstd::prelude::*;
use vstd::string::StrSliceExecFns;

verus! {

/// A display-friendly wrapper over a raw storage prefix: the raw name, and
/// the name with dashes replaced by spaces for headings.
#[derive(Debug, PartialEq, Eq)]
pub struct PhotoFolder {
    pub name: String,
    pub display_name: String,
}

/// The display form of a folder name: every dash becomes a space.
pub open spec fn spec_display_name(s: Seq<char>) -> Seq<char> {
    s.map_values(|c: char| if c == '-' { ' ' } else { c })
}

impl PhotoFolder {
    /// Wraps a raw folder name, deriving the display name from it.
    pub fn from_name(name: String) -> (r: Self)
        ensures
            r.name == name,
            r.display_name@ == spec_display_name(name@),
    {
        let n = name.as_str().unicode_len();
        let mut display = String::new();
        for i in 0..n
            invariant
                n == name@.len(),
                display@.len() == i,
                forall|j: int| 0 <= j < i ==> display@[j] == spec_display_name(name@)[j],
        {
            let c = name.as_str().get_char(i);
            push_char(&mut display, if c == '-' { ' ' } else { c });
        }
        proof {
            assert(display@ =~= spec_display_name(name@));
        }
        PhotoFolder { name, display_name: display }
    }
}

impl Clone for PhotoFolder {
    fn clone(&self) -> (r: Self)
        ensures
            r == *self,
    {
        PhotoFolder { name: self.name.clone(), display_name: self.display_name.clone() }
    }
}

/// A string with every path separator removed.
pub open spec fn spec_strip_separators(s: Seq<char>) -> Seq<char>
    decreases s.len(),
{
    if s.len() == 0 {
        Seq::empty()
    } else {
        spec_strip_separators(s.drop_last()) + (if s.last() == '/' {
            Seq::empty()
        } else {
            seq![s.last()]
        })
    }
}

/// Removes every path separator from a raw prefix.
fn strip_separators(s: &str) -> (r: String)
    ensures
        r@ == spec_strip_separators(s@),
{
    let n = s.unicode_len();
    let mut out = String::new();
    for i in 0..n
        invariant
            n == s@.len(),
            out@ == spec_strip_separators(s@.take(i as int)),
    {
        let c = s.get_char(i);
        proof {
            assert(s@.take(i + 1).drop_last() =~= s@.take(i as int));
        }
        if c != '/' {
            push_char(&mut out, c);
            proof {
                assert(out@ =~= spec_strip_separators(s@.take(i + 1)));
            }
        }
    }
    proof {
        assert(s@.take(n as int) =~= s@);
    }
    out
}

/// Turns the raw common prefixes of a top-level listing into display
/// folders, one per prefix in listing order: the separators are stripped
/// from each prefix and the remainder wrapped as a [`PhotoFolder`].
pub fn get_photo_directories(prefixes: &Vec<String>) -> (r: Vec<PhotoFolder>)
    ensures
        r@.len() == prefixes@.len(),
        forall|i: int|
            0 <= i < prefixes@.len() ==> #[trigger] r@[i].name@ == spec_strip_separators(
                prefixes@[i]@,
            ) && r@[i].display_name@ == spec_display_name(spec_strip_separators(prefixes@[i]@)),
{
    let n = prefixes.len();
    let mut out: Vec<PhotoFolder> = Vec::new();
    let mut i: usize = 0;
    while i < n
        invariant
            n == prefixes@.len(),
            i <= n,
            out@.len() == i,
            forall|j: int|
                0 <= j < i ==> #[trigger] out@[j].name@ == spec_strip_separators(prefixes@[j]@)
                    && out@[j].display_name@ == spec_display_name(
                    spec_strip_separators(prefixes@[j]@),
                ),
        decreases n - i,
    {
        let ghost pre = out@;
        let folder = PhotoFolder::from_name(strip_separators(prefixes[i].as_str()));
        out.push(folder);
        proof {
            assert forall|j: int|
                0 <= j < i + 1 implies #[trigger] out@[j].name@ == spec_strip_separators(
                prefixes@[j]@,
            ) && out@[j].display_name@ == spec_display_name(
                spec_strip_separators(prefixes@[j]@),
            ) by {
                if j < i {
                    assert(out@[j] == pre[j]);
                    assert(pre[j].name@ == spec_strip_separators(prefixes@[j]@));
                } else {
                    assert(out@[j] == folder);
                }
            }
        }
        i += 1;
    }
    out
}

/// Whether `dir` names one of the listed folders: true iff `dir` appears
/// among their raw names.
pub fn existing_directory(folders: &Vec<PhotoFolder>, dir: &str) -> (r: bool)
    ensures
        r == exists|i: int| 0 <= i < folders@.len() && #[trigger] folders@[i].name@ == dir@,
{
    let n = folders.len();
    for i in 0..n
        invariant
            n == folders@.len(),
            forall|j: int| 0 <= j < i ==> #[trigger] folders@[j].name@ != dir@,
    {
        if str_eq(folders[i].name.as_str(), dir) {
            return true;
        }
    }
    false
}

/// Whether a key denotes a sub-prefix rather than an object: it ends with
/// the path separator.
pub open spec fn spec_ends_with_separator(s: Seq<char>) -> bool {
    s.len() > 0 && s.last() == '/'
}

/// The listing prefix for a folder: the folder name with exactly one
/// trailing separator.
pub fn folder_prefix(folder: &str) -> (r: String)
    ensures
        spec_ends_with_separator(folder@) ==> r@ == folder@,
        !spec_ends_with_separator(folder@) ==> r@ == folder@.push('/'),
{
    let n = folder.unicode_len();
    let ends = n > 0 && folder.get_char(n - 1) == '/';
    let mut out = folder.to_owned();
    if !ends {
        push_char(&mut out, '/');
    }
    out
}

/// The object keys under a listed folder, in listing order: every key that
/// does not itself denote a sub-prefix, i.e. does not end with the
/// separator.
pub open spec fn spec_photo_keys(keys: Seq<String>) -> Seq<String>
    decreases keys.len(),
{
    if keys.len() == 0 {
        Seq::empty()
    } else {
        spec_photo_keys(keys.drop_last()) + (if spec_ends_with_separator(keys.last()@) {
            Seq::empty()
        } else {
            seq![keys.last()]
        })
    }
}

/// Filters a raw listing down to the object keys: any key ending in the
/// path separator is excluded.
pub fn get_photos(keys: &Vec<String>) -> (r: Vec<String>)
    ensures
        r@ == spec_photo_keys(keys@),
{
    let n = keys.len();
    let mut out: Vec<String> = Vec::new();
    for i in 0..n
        invariant
            n == keys@.len(),
            out@ == spec_photo_keys(keys@.take(i as int)),
    {
        proof {
            assert(keys@.take(i + 1).drop_last() =~= keys@.take(i as int));
        }
        let key = &keys[i];
        let len = key.as_str().unicode_len();
        let is_prefix = len > 0 && key.as_str().get_char(len - 1) == '/';
        if !is_prefix {
            out.push(key.clone());
            proof {
                assert(out@ =~= spec_photo_keys(keys@.take(i + 1)));
            }
        }
    }
    proof {
        assert(keys@.take(n as int) =~= keys@);
    }
    out
}

} // verus!
