//! The welcome acknowledgement: a one-line marker that is kept in a file so
//! that the welcome notice is shown only once. Reading and writing the file
//! is the caller's business; what the file has to hold is decided here.

use vstd::prelude::*;
use crate::charset::{is_whitespace, whitespace};

verus! {

/// What the marker file holds once the welcome notice was acknowledged.
pub const ACKNOWLEDGED_MARKER: &'static str = "acknowledged=true";

/// The name of the marker file inside the configuration directory.
pub const MARKER_FILE_NAME: &'static str = "welcome_ack";

/// `contents` holds the marker at `start`, and nothing but whitespace
/// before and after it.
pub open spec fn marker_at(contents: Seq<char>, start: int) -> bool {
    let marker = ACKNOWLEDGED_MARKER@;
    &&& 0 <= start
    &&& start + marker.len() <= contents.len()
    &&& contents.subrange(start, start + marker.len()) == marker
    &&& forall|i: int| 0 <= i < start ==> is_whitespace(#[trigger] contents[i])
    &&& forall|i: int|
        start + marker.len() <= i < contents.len() ==> is_whitespace(#[trigger] contents[i])
}

/// `contents` is the marker once the whitespace around it is taken off.
pub open spec fn acknowledged(contents: Seq<char>) -> bool {
    exists|start: int| marker_at(contents, start)
}

/// The characters of `text`, one by one.
pub fn to_chars(text: &str) -> (chars: Vec<char>)
    ensures
        chars@ == text@,
{
    let mut chars: Vec<char> = Vec::new();
    for c in it: text.chars()
        invariant
            it.seq() == text@,
            chars@ == text@.take(it.index()),
    {
        chars.push(c);
        assert(text@.take(it.index() + 1) == text@.take(it.index()).push(c));
    }
    assert(text@.take(text@.len() as int) == text@);
    chars
}

/// How many characters of whitespace `chars` begins with.
fn leading_whitespace(chars: &Vec<char>) -> (start: usize)
    ensures
        start <= chars.len(),
        forall|i: int| 0 <= i < start ==> is_whitespace(#[trigger] chars@[i]),
        start < chars.len() ==> !is_whitespace(chars@[start as int]),
{
    let mut start: usize = 0;
    while start < chars.len() && whitespace(chars[start])
        invariant
            start <= chars.len(),
            forall|i: int| 0 <= i < start ==> is_whitespace(#[trigger] chars@[i]),
        decreases chars.len() - start,
    {
        start = start + 1;
    }
    start
}

/// Where the trailing whitespace of `chars` begins, looking no further back
/// than `start`.
fn trailing_whitespace(chars: &Vec<char>, start: usize) -> (end: usize)
    requires
        start <= chars.len(),
    ensures
        start <= end <= chars.len(),
        forall|i: int| end <= i < chars.len() ==> is_whitespace(#[trigger] chars@[i]),
        start < end ==> !is_whitespace(chars@[end - 1]),
{
    let mut end: usize = chars.len();
    while start < end && whitespace(chars[end - 1])
        invariant
            start <= end <= chars.len(),
            forall|i: int| end <= i < chars.len() ==> is_whitespace(#[trigger] chars@[i]),
        decreases end,
    {
        end = end - 1;
    }
    end
}

/// Whether the characters of `chars` from `start` on begin with `marker`.
fn holds_at(chars: &Vec<char>, start: usize, marker: &Vec<char>) -> (found: bool)
    requires
        start + marker.len() <= chars.len(),
    ensures
        found == (chars@.subrange(start as int, start + marker.len()) == marker@),
{
    let mut matched: usize = 0;
    while matched < marker.len()
        invariant
            matched <= marker.len(),
            start + marker.len() <= chars.len(),
            chars@.subrange(start as int, start + matched) == marker@.take(matched as int),
        decreases marker.len() - matched,
    {
        if chars[start + matched] != marker[matched] {
            assert(chars@.subrange(start as int, start + marker.len())[matched as int]
                != marker@[matched as int]);
            return false;
        }
        assert(chars@.subrange(start as int, start + matched + 1) == chars@.subrange(
            start as int,
            start + matched,
        ).push(chars@[start + matched]));
        assert(marker@.take(matched + 1) == marker@.take(matched as int).push(
            marker@[matched as int],
        ));
        matched = matched + 1;
    }
    assert(marker@.take(marker.len() as int) == marker@);
    true
}

/// Whether the contents of the marker file say that the welcome notice was
/// acknowledged: they do when they are the marker, whatever whitespace
/// stands before and after it.
pub fn acknowledges(contents: &str) -> (ok: bool)
    ensures
        ok == acknowledged(contents@),
{
    let chars = to_chars(contents);
    let marker = to_chars(ACKNOWLEDGED_MARKER);
    let start = leading_whitespace(&chars);
    let end = trailing_whitespace(&chars, start);
    proof {
        lemma_marker_ends();
    }
    if end - start != marker.len() {
        proof {
            if acknowledged(contents@) {
                let at = choose|at: int| marker_at(contents@, at);
                lemma_marker_place(contents@, at, start as int, end as int);
            }
        }
        return false;
    }
    let found = holds_at(&chars, start, &marker);
    proof {
        if found {
            assert(marker_at(contents@, start as int));
        } else if acknowledged(contents@) {
            let at = choose|at: int| marker_at(contents@, at);
            lemma_marker_place(contents@, at, start as int, end as int);
        }
    }
    found
}

/// The marker has 17 characters, and neither its first nor its last is
/// whitespace.
proof fn lemma_marker_ends()
    ensures
        ACKNOWLEDGED_MARKER@.len() == 17,
        !is_whitespace(ACKNOWLEDGED_MARKER@[0]),
        !is_whitespace(ACKNOWLEDGED_MARKER@[16]),
{
    reveal_strlit("acknowledged=true");
}

/// Where the marker stands between whitespace, it begins at the first
/// character that is no whitespace and ends with the last one.
proof fn lemma_marker_place(contents: Seq<char>, at: int, start: int, end: int)
    requires
        marker_at(contents, at),
        0 <= start <= end <= contents.len(),
        forall|i: int| 0 <= i < start ==> is_whitespace(#[trigger] contents[i]),
        start < contents.len() ==> !is_whitespace(contents[start]),
        forall|i: int| end <= i < contents.len() ==> is_whitespace(#[trigger] contents[i]),
        start < end ==> !is_whitespace(contents[end - 1]),
    ensures
        at == start,
        at + ACKNOWLEDGED_MARKER@.len() == end,
{
    lemma_marker_ends();
    let marker = ACKNOWLEDGED_MARKER@;
    let inner = contents.subrange(at, at + marker.len());
    assert(inner[0] == contents[at]);
    assert(inner[16] == contents[at + 16]);
    assert(!is_whitespace(contents[at]));
    assert(!is_whitespace(contents[at + 16]));
    if at < start {
        assert(is_whitespace(contents[at]));
    }
    if start < at {
        assert(is_whitespace(contents[start]));
    }
    if end <= at + 16 {
        assert(is_whitespace(contents[at + 16]));
    }
    if at + 17 < end {
        assert(is_whitespace(contents[end - 1]));
    }
}

} // verus!
