//! Tracks: an audio file with the tags read from it, and the order a
//! directory's tracks are played in.
use core::cmp::Ordering;
use unicase::UniCase;
use vstd::prelude::*;

use crate::error::QueueError;
use crate::order::{insertion_sort, reversed, Ranked};
use crate::text::{push_decimal, push_str, two_digits};

verus! {

/// The characters that case-insensitive comparison looks at in place of those of
/// `s`: each character replaced by its case folding.
pub uninterp spec fn caseless_fold(s: Seq<char>) -> Seq<char>;

/// The extension of the file name that `p` ends in: what follows the name's last
/// dot, when that dot does not start the name.
pub uninterp spec fn extension(p: Seq<char>) -> Option<Seq<char>>;

/// Relies on `camino::Utf8Path::extension`: the extension of the path's file
/// name, if it has one.
#[verifier::external_body]
fn path_extension(p: &str) -> (r: Option<&str>)
    ensures
        r is Some <==> extension(p@) is Some,
        r is Some ==> r.unwrap()@ == extension(p@).unwrap(),
{
    camino::Utf8Path::new(p).extension()
}

/// Whether the file at `path` is one the player reads: its extension is `mp3`.
pub fn is_mp3(path: &str) -> (r: bool)
    ensures
        r == (extension(path@) == Some("mp3"@)),
{
    match path_extension(path) {
        Some(e) => e.to_owned() == "mp3".to_owned(),
        None => false,
    }
}

/// Lexicographic order of two character sequences, by code point.
pub open spec fn lex_order(a: Seq<char>, b: Seq<char>) -> Ordering
    decreases a.len(),
{
    if a.len() == 0 && b.len() == 0 {
        Ordering::Equal
    } else if a.len() == 0 {
        Ordering::Less
    } else if b.len() == 0 {
        Ordering::Greater
    } else if (a[0] as u32) < (b[0] as u32) {
        Ordering::Less
    } else if (a[0] as u32) > (b[0] as u32) {
        Ordering::Greater
    } else {
        lex_order(a.drop_first(), b.drop_first())
    }
}

/// Relies on the `Ord` of `unicase::UniCase`: both strings are case folded (ASCII
/// ones by lowering each byte, the others by Unicode case folding) and the folded
/// characters are compared lexicographically.
#[verifier::external_body]
pub(crate) fn caseless_cmp(a: &str, b: &str) -> (r: Ordering)
    ensures
        r == lex_order(caseless_fold(a@), caseless_fold(b@)),
{
    UniCase::new(a).cmp(&UniCase::new(b))
}

/// `first`, unless it is `Equal`; then `second`.
pub open spec fn then_order(first: Ordering, second: Ordering) -> Ordering {
    if first == Ordering::Equal {
        second
    } else {
        first
    }
}

/// Order of two optional track numbers; a missing one is equal to anything.
pub open spec fn number_order(a: Option<u32>, b: Option<u32>) -> Ordering {
    match (a, b) {
        (Some(x), Some(y)) => if x < y {
            Ordering::Less
        } else if x > y {
            Ordering::Greater
        } else {
            Ordering::Equal
        },
        _ => Ordering::Equal,
    }
}

/// Case-insensitive order of two optional tag texts; a missing one is equal to
/// anything.
pub open spec fn text_order(a: Option<String>, b: Option<String>) -> Ordering {
    match (a, b) {
        (Some(x), Some(y)) => lex_order(caseless_fold(x@), caseless_fold(y@)),
        _ => Ordering::Equal,
    }
}

/// The play order of two tracks: by track number, then title, artist and album.
#[verifier::opaque]
pub open spec fn track_order(a: Track, b: Track) -> Ordering {
    then_order(
        number_order(a.track, b.track),
        then_order(
            text_order(a.title, b.title),
            then_order(text_order(a.artist, b.artist), text_order(a.album, b.album)),
        ),
    )
}

/// How a track is listed: its number as two digits and a space when it has
/// one, then title and artist, each `unknown` when missing.
pub open spec fn label_text(t: Track) -> Seq<char> {
    let number = match t.track {
        Some(n) => two_digits(n as nat) + seq![' '],
        None => Seq::<char>::empty(),
    };
    let title = match t.title {
        Some(x) => x@,
        None => "unknown title"@,
    };
    let artist = match t.artist {
        Some(x) => x@,
        None => "unknown artist"@,
    };
    number + title + " ~ "@ + artist
}

/// A sequence of tracks in which no track is ordered after the one that follows it.
pub open spec fn in_play_order(s: Seq<Track>) -> bool {
    crate::order::in_rank_order(s)
}

pub proof fn lemma_lex_order_reverse(a: Seq<char>, b: Seq<char>)
    ensures
        lex_order(b, a) == reversed(lex_order(a, b)),
    decreases a.len(),
{
    if a.len() > 0 && b.len() > 0 && a[0] as u32 == b[0] as u32 {
        lemma_lex_order_reverse(a.drop_first(), b.drop_first());
    }
}

/// Swapping two tracks reverses their play order.
pub proof fn lemma_track_order_reverse(a: Track, b: Track)
    ensures
        track_order(b, a) == reversed(track_order(a, b)),
{
    reveal(track_order);
    if a.title is Some && b.title is Some {
        lemma_lex_order_reverse(caseless_fold(a.title.unwrap()@), caseless_fold(b.title.unwrap()@));
    }
    if a.artist is Some && b.artist is Some {
        lemma_lex_order_reverse(caseless_fold(a.artist.unwrap()@), caseless_fold(b.artist.unwrap()@));
    }
    if a.album is Some && b.album is Some {
        lemma_lex_order_reverse(caseless_fold(a.album.unwrap()@), caseless_fold(b.album.unwrap()@));
    }
}

/// The tags read from an audio file.
#[derive(Debug)]
pub struct Tags {
    pub track: Option<u32>,
    pub title: Option<String>,
    pub artist: Option<String>,
    pub album: Option<String>,
    pub lyrics: Option<String>,
}

impl Default for Tags {
    fn default() -> (r: Tags)
        ensures
            r.track is None,
            r.title is None,
            r.artist is None,
            r.album is None,
            r.lyrics is None,
    {
        Tags { track: None, title: None, artist: None, album: None, lyrics: None }
    }
}

/// An audio file and its tags. Two tracks are the same track when their paths are.
#[derive(Debug, Clone)]
pub struct Track {
    pub path: String,
    pub track: Option<u32>,
    pub title: Option<String>,
    pub artist: Option<String>,
    pub album: Option<String>,
    pub lyrics: Option<String>,
}

/// The track at `path` carrying `tags`.
pub open spec fn tagged(path: String, tags: Tags) -> Track {
    Track {
        path,
        track: tags.track,
        title: tags.title,
        artist: tags.artist,
        album: tags.album,
        lyrics: tags.lyrics,
    }
}

impl Ranked for Track {
    open spec fn rank(a: Track, b: Track) -> Ordering {
        track_order(a, b)
    }

    proof fn lemma_rank_reverse(a: Track, b: Track) {
        lemma_track_order_reverse(a, b);
    }

    fn compare(&self, other: &Track) -> (r: Ordering) {
        self.cmp(other)
    }
}

impl PartialEq for Track {
    fn eq(&self, other: &Track) -> (r: bool) {
        self.path == other.path
    }
}

impl vstd::std_specs::cmp::PartialEqSpecImpl for Track {
    open spec fn obeys_eq_spec() -> bool {
        true
    }

    open spec fn eq_spec(&self, other: &Track) -> bool {
        self.path@ == other.path@
    }
}

fn text_cmp(a: &Option<String>, b: &Option<String>) -> (r: Ordering)
    ensures
        r == text_order(*a, *b),
{
    match (a, b) {
        (Some(x), Some(y)) => caseless_cmp(x.as_str(), y.as_str()),
        _ => Ordering::Equal,
    }
}

fn number_cmp(a: Option<u32>, b: Option<u32>) -> (r: Ordering)
    ensures
        r == number_order(a, b),
{
    match (a, b) {
        (Some(x), Some(y)) => if x < y {
            Ordering::Less
        } else if x > y {
            Ordering::Greater
        } else {
            Ordering::Equal
        },
        _ => Ordering::Equal,
    }
}

fn opt_str(s: &Option<String>) -> (r: Option<&str>)
    ensures
        r is Some <==> s is Some,
        r is Some ==> r.unwrap()@ == s.unwrap()@,
{
    match s {
        Some(t) => Some(t.as_str()),
        None => None,
    }
}

pub(crate) fn copy_text(s: &Option<String>) -> (r: Option<String>)
    ensures
        r == *s,
{
    match s {
        Some(t) => Some(t.clone()),
        None => None,
    }
}

impl Track {
    /// A track at `path` with the given tags.
    pub fn with_tags(path: String, tags: Tags) -> (r: Track)
        ensures
            r == tagged(path, tags),
    {
        Track {
            path,
            track: tags.track,
            title: tags.title,
            artist: tags.artist,
            album: tags.album,
            lyrics: tags.lyrics,
        }
    }

    /// The track for a file at `path`, given whether something exists there and
    /// whether it is a directory, with the tags read from it.
    ///
    /// Fails with `NoTrack` when nothing is there and with `IsDirectory` on a
    /// directory.
    pub fn new(path: String, exists: bool, is_dir: bool, tags: Tags) -> (r: Result<Track, QueueError>)
        ensures
            !exists ==> r == Err::<Track, QueueError>(QueueError::NoTrack(path)),
            exists && is_dir ==> r == Err::<Track, QueueError>(QueueError::IsDirectory(path)),
            exists && !is_dir ==> r is Ok && r.unwrap() == tagged(path, tags),
    {
        if !exists {
            Err(QueueError::NoTrack(path))
        } else if is_dir {
            Err(QueueError::IsDirectory(path))
        } else {
            Ok(Track::with_tags(path, tags))
        }
    }

    /// The tracks of a directory, found by a recursive scan, in play order;
    /// tracks that compare equal keep the order the scan found them in.
    ///
    /// Fails with `NotADirectory` when `path` is not a directory.
    pub fn directory(path: &str, is_dir: bool, found: Vec<Track>) -> (r: Result<Vec<Track>, QueueError>)
        ensures
            !is_dir ==> r is Err && r->Err_0 is NotADirectory && r->Err_0->NotADirectory_0@ == path@,
            is_dir ==> r is Ok && in_play_order(r->Ok_0@) && r->Ok_0@.to_multiset() == found@.to_multiset(),
            is_dir ==> exists|perm: Seq<int>|
                crate::order::rearranged(found@, r->Ok_0@, perm) && crate::order::stable(r->Ok_0@, perm),
    {
        if !is_dir {
            return Err(QueueError::NotADirectory(path.to_string()));
        }
        Ok(insertion_sort(found))
    }

    /// A copy of this track.
    pub fn duplicate(&self) -> (r: Track)
        ensures
            r == *self,
    {
        Track {
            path: self.path.clone(),
            track: self.track,
            title: copy_text(&self.title),
            artist: copy_text(&self.artist),
            album: copy_text(&self.album),
            lyrics: copy_text(&self.lyrics),
        }
    }

    /// The line a list shows for this track, as `07 title ~ artist`.
    pub fn label(&self) -> (r: String)
        ensures
            r@ == label_text(*self),
    {
        let mut s = String::new();
        if let Some(n) = self.track {
            if n < 10 {
                push_str(&mut s, "0");
            }
            push_decimal(&mut s, n);
            push_str(&mut s, " ");
            proof {
                reveal_strlit("0");
                reveal_strlit(" ");
                if n < 10 {
                    assert(crate::text::decimal(n as nat) == seq![crate::text::digit(n as int)]);
                }
                assert(s@ =~= two_digits(n as nat) + seq![' ']);
            }
        }
        match &self.title {
            Some(t) => push_str(&mut s, t.as_str()),
            None => push_str(&mut s, "unknown title"),
        }
        push_str(&mut s, " ~ ");
        match &self.artist {
            Some(a) => push_str(&mut s, a.as_str()),
            None => push_str(&mut s, "unknown artist"),
        }
        assert(s@ =~= label_text(*self));
        s
    }

    /// Path of the audio file.
    pub fn path(&self) -> (r: &str)
        ensures
            r@ == self.path@,
    {
        self.path.as_str()
    }

    /// Track number tag.
    pub fn track(&self) -> (r: Option<u32>)
        ensures
            r == self.track,
    {
        self.track
    }

    /// Title tag.
    pub fn title(&self) -> (r: Option<&str>)
        ensures
            r is Some <==> self.title is Some,
            r is Some ==> r.unwrap()@ == self.title.unwrap()@,
    {
        opt_str(&self.title)
    }

    /// Artist tag.
    pub fn artist(&self) -> (r: Option<&str>)
        ensures
            r is Some <==> self.artist is Some,
            r is Some ==> r.unwrap()@ == self.artist.unwrap()@,
    {
        opt_str(&self.artist)
    }

    /// Album tag.
    pub fn album(&self) -> (r: Option<&str>)
        ensures
            r is Some <==> self.album is Some,
            r is Some ==> r.unwrap()@ == self.album.unwrap()@,
    {
        opt_str(&self.album)
    }

    /// Lyrics tag.
    pub fn lyrics(&self) -> (r: Option<&str>)
        ensures
            r is Some <==> self.lyrics is Some,
            r is Some ==> r.unwrap()@ == self.lyrics.unwrap()@,
    {
        opt_str(&self.lyrics)
    }

    /// Play order against `other`: by track number, then title, artist and album,
    /// texts compared without regard to case; a tag missing on either side counts
    /// as equal.
    pub fn cmp(&self, other: &Track) -> (r: Ordering)
        ensures
            r == track_order(*self, *other),
    {
        reveal(track_order);
        let n = number_cmp(self.track, other.track);
        if !matches!(n, Ordering::Equal) {
            return n;
        }
        let t = text_cmp(&self.title, &other.title);
        if !matches!(t, Ordering::Equal) {
            return t;
        }
        let a = text_cmp(&self.artist, &other.artist);
        if !matches!(a, Ordering::Equal) {
            return a;
        }
        text_cmp(&self.album, &other.album)
    }
}

} // verus!
