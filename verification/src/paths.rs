//! Gathering the files to upload from the paths given.
use vstd::prelude::*;

use crate::text::{chars_of, joined, lines, lines_of, string_views, trim, trimmed};

verus! {

/// Whether an answer to "upload from this subdirectory?" descends into it:
/// `Y`, `y`, `A` or nothing, once surrounding white space is removed.
pub open spec fn descends(answer: Seq<char>) -> bool {
    let t = trimmed(answer);
    t == seq!['Y'] || t == seq!['y'] || t == seq!['A'] || t.len() == 0
}

/// Whether an answer means "all subdirectories from now on": `A`.
pub open spec fn answers_all(answer: Seq<char>) -> bool {
    trimmed(answer) == seq!['A']
}

/// Whether to descend into subdirectories met while walking the paths.
/// Once the user answered `A`, no more questions are asked.
pub struct SubdirPolicy {
    upload_all: bool,
}

impl SubdirPolicy {
    pub closed spec fn upload_all(&self) -> bool {
        self.upload_all
    }

    /// No answer given yet.
    pub fn new() -> (p: SubdirPolicy)
        ensures
            !p.upload_all(),
    {
        SubdirPolicy { upload_all: false }
    }

    /// Whether the user must be asked about the next subdirectory.
    pub fn needs_prompt(&self) -> (b: bool)
        ensures
            b == !self.upload_all(),
    {
        !self.upload_all
    }

    /// Whether to descend into a subdirectory, given the user's answer (the
    /// empty answer when nobody was asked).
    pub fn decide(&mut self, answer: &str) -> (d: bool)
        ensures
            d == descends(answer@),
            final(self).upload_all() == (old(self).upload_all() || answers_all(answer@)),
    {
        let t = trim(answer);
        let v = chars_of(t.as_str());
        let single = v.len() == 1;
        let is_all = single && v[0] == 'A';
        if is_all {
            self.upload_all = true;
        }
        proof {
            if v@.len() == 1 {
                assert(v@ =~= seq![v@[0]]);
            }
        }
        v.len() == 0 || (single && (v[0] == 'Y' || v[0] == 'y' || v[0] == 'A'))
    }
}

/// Where the file chooser writes the files the user picked.
pub fn picked_files_path(resources_path: &str) -> (r: String)
    ensures
        r@ == resources_path@ + "/yazi-picked.txt"@,
{
    joined(resources_path, "/yazi-picked.txt")
}

/// The paths listed in the file chooser's output, one per line.
pub fn picked_paths(content: &str) -> (r: Vec<String>)
    ensures
        string_views(r@) == lines_of(content@),
{
    lines(content)
}

} // verus!
