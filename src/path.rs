//! Paths as text: resolution against a working directory, and the parent
//! directory of a file. Only `/` separates components.
use vstd::prelude::*;
use vstd::string::*;
use crate::text::{rfind_char, last_index_of, lemma_last_index_of};

verus! {

pub open spec fn is_absolute(p: Seq<char>) -> bool {
    p.len() > 0 && p[0] == '/'
}

/// `rel` taken relative to `base`: an absolute `rel` stands alone; otherwise
/// one separator goes between the two unless `base` is empty or already ends
/// in one.
pub open spec fn join(base: Seq<char>, rel: Seq<char>) -> Seq<char> {
    if is_absolute(rel) {
        rel
    } else if base.len() == 0 || base.last() == '/' {
        base + rel
    } else {
        base + seq!['/'] + rel
    }
}

/// The directory that holds the entry named by `p`: what precedes its last
/// separator, the root where that separator is the first character, and the
/// empty path where there is no separator.
pub open spec fn parent(p: Seq<char>) -> Seq<char> {
    let i = last_index_of(p, '/');
    if i < 0 {
        Seq::empty()
    } else if i == 0 {
        seq!['/']
    } else {
        p.subrange(0, i)
    }
}

/// Resolves a path given by the user against the working directory `cwd`.
pub fn resolve(raw: &str, cwd: &str) -> (r: String)
    ensures
        r@ == join(cwd@, raw@),
{
    let absolute = raw.unicode_len() > 0 && raw.get_char(0) == '/';
    if absolute {
        return String::from_str(raw);
    }
    let n = cwd.unicode_len();
    let mut out = String::from_str(cwd);
    if n > 0 && cwd.get_char(n - 1) != '/' {
        proof { reveal_strlit("/"); }
        out.append("/");
    }
    out.append(raw);
    out
}

/// The directory that holds the entry named by `p`.
pub fn parent_dir(p: &str) -> (r: String)
    ensures
        r@ == parent(p@),
{
    proof { lemma_last_index_of(p@, '/'); }
    match rfind_char(p, '/') {
        None => String::new(),
        Some(i) => {
            if i == 0 {
                proof { reveal_strlit("/"); }
                String::from_str("/")
            } else {
                String::from_str(p.substring_char(0, i))
            }
        },
    }
}

} // verus!
