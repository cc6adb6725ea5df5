//! What each step of clipboard sync does, in terms of what was seen and written.

use vstd::prelude::*;
use vstd::utf8::encode_utf8;

use super::{
    after_write, poll_calls, polled, to_write, untouched, ClipboardCall, ClipboardModel,
    POLL_INTERVAL_MS,
};

verus! {

/// A poll. While the count stands still nothing is read and nothing happens. Where it
/// moved it is noted and the content is read; content of at most 256 KiB that is neither
/// what was written last nor what was published last is published and noted; any other
/// content, and none, is passed over.
pub proof fn law_polls_are_settled(s: ClipboardModel, count: i64, content: Option<Seq<char>>)
    ensures
        ({
            let (after, publish) = polled(s, count, content);
            let calls = poll_calls(s, count, content);
            let goes_out = count != s.last_count && content is Some && encode_utf8(
                content->0,
            ).len() <= 262144 && s.last_applied != content && s.last_published != content;
            &&& publish == if goes_out {
                content
            } else {
                None
            }
            &&& after.last_count == count
            &&& after.last_applied == s.last_applied
            &&& after.last_published == if goes_out {
                content
            } else {
                s.last_published
            }
            &&& count == s.last_count ==> calls == seq![ClipboardCall::Counted { count }]
            &&& count != s.last_count ==> calls == seq![
                ClipboardCall::Counted { count },
                ClipboardCall::Read { content },
            ]
        }),
{
}

/// A write. Content is written unless it is what was written last; the write is noted
/// with the count that came back, and what was published last stays noted.
pub proof fn law_writes_are_noted(s: ClipboardModel, text: Seq<char>, count: i64)
    ensures
        to_write(s, text) <==> s.last_applied != Some(text),
        after_write(s, text, count).last_count == count,
        after_write(s, text, count).last_applied == Some(text),
        after_write(s, text, count).last_published == s.last_published,
{
}

/// At the start nothing was written or published: anything may be written, and a copy
/// within the size limit is published once the count moves.
pub proof fn law_sync_starts_untouched(count: i64, later: i64, text: Seq<char>)
    ensures
        to_write(untouched(count), text),
        polled(untouched(count), count, Some(text)).1 is None,
        later != count && encode_utf8(text).len() <= 262144 ==> polled(
            untouched(count),
            later,
            Some(text),
        ).1 == Some(text),
        POLL_INTERVAL_MS == 600,
{
}

} // verus!
