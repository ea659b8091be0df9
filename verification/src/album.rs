//! Choosing the album that uploads go to.
use vstd::prelude::*;

use crate::api::{Album, AlbumResponse};
use crate::text::{chars_of, decimal, decimal_string, joined, trim, trimmed};

verus! {

/// Whether an answer to a yes/no question counts as yes: `y` or `Y`, or
/// nothing at all, once surrounding white space is removed.
pub open spec fn is_yes(answer: Seq<char>) -> bool {
    let t = trimmed(answer);
    t == seq!['y'] || t == seq!['Y'] || t.len() == 0
}

/// ASCII lowercase of a character; other characters are unchanged.
pub open spec fn ascii_lower(c: char) -> char {
    if 'A' <= c && c <= 'Z' {
        ((c as int) + 32) as char
    } else {
        c
    }
}

/// An answer is yes exactly when, once trimmed, it is empty or equals `y`
/// ignoring ASCII case (`str::eq_ignore_ascii_case("y")`): one character
/// whose ASCII lowercase is `y`. Answers such as `n`, `N`, `yes` are no.
pub proof fn law_yes_is_empty_or_y_ignoring_case(answer: Seq<char>)
    ensures
        is_yes(answer) <==> (trimmed(answer).len() == 0 || (trimmed(answer).len() == 1
            && ascii_lower(trimmed(answer)[0]) == 'y')),
        trimmed(answer) == seq!['n'] ==> !is_yes(answer),
        trimmed(answer) == seq!['N'] ==> !is_yes(answer),
        trimmed(answer).len() > 1 ==> !is_yes(answer),
{
    let t = trimmed(answer);
    if t.len() == 1 {
        assert(t == seq!['y'] <==> t[0] == 'y') by {
            if t[0] == 'y' {
                assert(t =~= seq!['y']);
            }
        }
        assert(t == seq!['Y'] <==> t[0] == 'Y') by {
            if t[0] == 'Y' {
                assert(t =~= seq!['Y']);
            }
        }
        assert(('Y' as int) + 32 == 'y' as int);
    }
    if t == seq!['n'] {
        assert(t[0] == 'n');
    }
    if t == seq!['N'] {
        assert(t[0] == 'N');
    }
}

/// Whether `answer` counts as yes.
pub fn answers_yes(answer: &str) -> (b: bool)
    ensures
        b == is_yes(answer@),
        b == (trimmed(answer@).len() == 0 || trimmed(answer@) == seq!['y'] || trimmed(answer@)
            == seq!['Y']),
{
    let t = trim(answer);
    let v = chars_of(t.as_str());
    if v.len() == 0 {
        true
    } else if v.len() == 1 && (v[0] == 'y' || v[0] == 'Y') {
        assert(v@ =~= seq![v@[0]]);
        true
    } else {
        assert(v@.len() == 1 ==> v@ =~= seq![v@[0]]);
        false
    }
}

/// How an album is shown in the list to choose from.
pub open spec fn label_text(name: Seq<char>, id: nat) -> Seq<char> {
    name + " (id: "@ + decimal(id) + ")"@
}

/// The label of an album: `<name> (id: <id>)`.
pub fn album_label(album: &Album) -> (r: String)
    ensures
        r@ == label_text(album.name@, album.id as nat),
{
    let a = joined(album.name.as_str(), " (id: ");
    let b = joined(a.as_str(), decimal_string(album.id as u64).as_str());
    joined(b.as_str(), ")")
}

/// The labels of the albums, in their order.
pub fn album_labels(albums: &Vec<Album>) -> (r: Vec<String>)
    ensures
        r@.len() == albums@.len(),
        forall|i: int| 0 <= i < r@.len() ==> #[trigger] r@[i]@ == label_text(albums@[i].name@, albums@[i].id as nat),
{
    let mut r: Vec<String> = Vec::new();
    let mut i: usize = 0;
    while i < albums.len()
        invariant
            i <= albums@.len(),
            r@.len() == i,
            forall|k: int| 0 <= k < i ==> #[trigger] r@[k]@ == label_text(albums@[k].name@, albums@[k].id as nat),
        decreases albums.len() - i,
    {
        r.push(album_label(&albums[i]));
        i += 1;
    }
    r
}

/// What to offer once the albums of the account are known.
#[derive(Debug, Clone)]
pub enum AlbumListing {
    /// The account has no album; upload without one.
    Empty,
    /// Let the user pick one of these labels, one per album in order.
    Choose(Vec<String>),
}

/// The offer for the listed albums: their labels to choose from, or
/// nothing when there is no album.
pub fn album_listing(resp: &AlbumResponse) -> (s: AlbumListing)
    ensures
        resp.albums@.len() == 0 ==> s is Empty,
        resp.albums@.len() > 0 ==> (s matches AlbumListing::Choose(labels) && labels@.len()
            == resp.albums@.len() && forall|i: int|
            0 <= i < labels@.len() ==> #[trigger] labels@[i]@ == label_text(
                resp.albums@[i].name@,
                resp.albums@[i].id as nat,
            )),
{
    if resp.albums.len() == 0 {
        AlbumListing::Empty
    } else {
        AlbumListing::Choose(album_labels(&resp.albums))
    }
}

/// The identifier of the album the user picked.
pub fn chosen_album_id(resp: &AlbumResponse, selection: usize) -> (id: String)
    requires
        selection < resp.albums@.len(),
    ensures
        id@ == decimal(resp.albums@[selection as int].id as nat),
{
    decimal_string(resp.albums[selection].id as u64)
}

} // verus!
