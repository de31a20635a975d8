//! Text of the replies the bot sends back to the channel.
use vstd::prelude::*;

use crate::text::{ends_with, is_prefix, is_suffix, starts_with};

verus! {

/// The opening line of a fenced JSON block.
pub open spec fn fence_open() -> Seq<char> {
    seq!['`', '`', '`', 'j', 's', 'o', 'n', '\n']
}

/// The closing line of a fenced JSON block.
pub open spec fn fence_close() -> Seq<char> {
    seq!['\n', '`', '`', '`']
}

/// A JSON text wrapped in a fenced code block marked as JSON.
pub open spec fn fenced(json: Seq<char>) -> Seq<char> {
    fence_open() + json + fence_close()
}

/// Wraps `json` in a fenced code block marked as JSON, so that the chat
/// client renders it highlighted.
pub fn fence_json(json: &str) -> (r: String)
    ensures
        r@ == fenced(json@),
{
    let mut r = String::from_str("```json\n");
    r.append(json);
    r.append("\n```");
    proof {
        reveal_strlit("```json\n");
        reveal_strlit("\n```");
        assert(r@ =~= fenced(json@));
    }
    r
}

/// The JSON text inside a fenced JSON block, or `None` when `s` is not one.
pub open spec fn unfenced(s: Seq<char>) -> Option<Seq<char>> {
    let lo = fence_open().len() as int;
    let hi = s.len() - fence_close().len();
    if lo <= hi && is_prefix(fence_open(), s) && is_suffix(fence_close(), s) {
        Some(s.subrange(lo, hi))
    } else {
        None
    }
}

/// Reads the JSON text back out of a reply made by `fence_json`.
pub fn json_of_reply(reply: &str) -> (r: Option<String>)
    ensures
        r matches Some(j) ==> unfenced(reply@) == Some(j@),
        r is None ==> unfenced(reply@) is None,
{
    proof {
        reveal_strlit("```json\n");
        reveal_strlit("\n```");
        assert(fence_open() =~= "```json\n"@);
        assert(fence_close() =~= "\n```"@);
    }
    let n = reply.unicode_len();
    if n < 12 {
        return None;
    }
    if !starts_with(reply, "```json\n") || !ends_with(reply, "\n```") {
        return None;
    }
    let body = reply.substring_char(8, n - 4);
    Some(String::from_str(body))
}

/// A fenced JSON block reads back as exactly the JSON text it was made from.
pub proof fn lemma_fenced_reads_back(json: Seq<char>)
    ensures
        unfenced(fenced(json)) == Some(json),
{
    let s = fenced(json);
    assert(s.subrange(0, 8) =~= fence_open());
    assert(s.subrange(s.len() - 4, s.len() - 4 + 4) =~= fence_close());
    assert(s.subrange(8, s.len() - 4) =~= json);
}

} // verus!
