//! Self-erasing status-line encoding.
//!
//! During connection establishment the tool reports progress on the
//! controlling terminal as a single transient line: every update first
//! erases the current terminal line and returns the cursor to its start,
//! then writes the new text, so repeated retries overwrite one line in
//! place instead of scrolling.  `render_status` builds the byte sequence
//! for one such update; the spec functions model what a terminal line shows
//! after the bytes are written, and the lemmas state that only the latest
//! text is ever visible and that rendering empty text leaves the line clear.

use vstd::prelude::*;

verus! {

/// The control bytes that erase the whole terminal line and return the
/// cursor to its start: ESC `[` `2` `K` CR.
pub open spec fn erase_line_seq() -> Seq<u8> {
    seq![27u8, 91u8, 50u8, 75u8, 13u8]
}

/// Builds the erase-line control bytes.
pub fn erase_line_bytes() -> (v: Vec<u8>)
    ensures
        v@ == erase_line_seq(),
{
    let mut v: Vec<u8> = Vec::new();
    v.push(27u8);
    v.push(91u8);
    v.push(50u8);
    v.push(75u8);
    v.push(13u8);
    proof {
        assert(v@ =~= erase_line_seq());
    }
    v
}

/// Builds one status update: the erase-line control bytes followed by the
/// new text.  Writing the result replaces whatever the status line showed.
pub fn render_status(text: &Vec<u8>) -> (v: Vec<u8>)
    ensures
        v@ == erase_line_seq() + text@,
{
    let mut v = erase_line_bytes();
    let mut i: usize = 0;
    while i < text.len()
        invariant
            i <= text@.len(),
            v@ == erase_line_seq() + text@.subrange(0, i as int),
        decreases text@.len() - i,
    {
        v.push(text[i]);
        proof {
            assert(v@ =~= erase_line_seq() + text@.subrange(0, i + 1));
        }
        i = i + 1;
    }
    proof {
        assert(v@ =~= erase_line_seq() + text@);
    }
    v
}

/// What a terminal line shows after `w` is written while it showed `line`:
/// a write that begins with the erase-line control bytes replaces the line
/// with the rest of the write; any other write appends.
pub open spec fn line_after_write(line: Seq<u8>, w: Seq<u8>) -> Seq<u8> {
    if w.len() >= erase_line_seq().len() && w.subrange(0, erase_line_seq().len() as int)
        == erase_line_seq() {
        w.skip(erase_line_seq().len() as int)
    } else {
        line + w
    }
}

/// What the terminal line shows after each write in `ws` is made in turn.
pub open spec fn line_after_writes(line: Seq<u8>, ws: Seq<Seq<u8>>) -> Seq<u8>
    decreases ws.len(),
{
    if ws.len() == 0 {
        line
    } else {
        line_after_writes(line_after_write(line, ws[0]), ws.skip(1))
    }
}

/// One rendered status update replaces the line with exactly its text,
/// whatever the line showed before.
pub proof fn lemma_status_overwrites(line: Seq<u8>, text: Seq<u8>)
    ensures
        line_after_write(line, erase_line_seq() + text) == text,
{
    let w = erase_line_seq() + text;
    assert(w.subrange(0, erase_line_seq().len() as int) =~= erase_line_seq());
    assert(w.skip(erase_line_seq().len() as int) =~= text);
}

/// However many status updates are written, only the text of the latest is
/// visible on the terminal line; in particular an empty final update leaves
/// the line clear.
pub proof fn lemma_last_status_visible(line: Seq<u8>, texts: Seq<Seq<u8>>)
    requires
        texts.len() > 0,
    ensures
        line_after_writes(line, texts.map_values(|t: Seq<u8>| erase_line_seq() + t))
            == texts.last(),
    decreases texts.len(),
{
    let ws = texts.map_values(|t: Seq<u8>| erase_line_seq() + t);
    assert(ws[0] == erase_line_seq() + texts[0]);
    lemma_status_overwrites(line, texts[0]);
    assert(line_after_write(line, ws[0]) == texts[0]);
    assert(line_after_writes(line, ws) == line_after_writes(texts[0], ws.skip(1)));
    if texts.len() == 1 {
        assert(ws.skip(1).len() == 0);
        assert(line_after_writes(texts[0], ws.skip(1)) == texts[0]);
    } else {
        lemma_last_status_visible(texts[0], texts.skip(1));
        assert(ws.skip(1) =~= texts.skip(1).map_values(|t: Seq<u8>| erase_line_seq() + t));
        assert(texts.skip(1).last() == texts.last());
    }
}

} // verus!
