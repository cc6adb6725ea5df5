//! Host clipboard sync: poll the platform clipboard for changes and apply
//! clipboard content arriving from controllers, suppressing the echo of our own
//! writes.

use vstd::prelude::*;
use vstd::utf8::encode_utf8;

use crate::protocol::MAX_CLIPBOARD_LEN;
use crate::signal::protocol::text_opt;
use crate::text::same_text;

pub mod laws;

verus! {

/// How often the host clipboard is polled; also the host-to-controller latency
/// floor.
pub const POLL_INTERVAL_MS: u64 = 600;

/// A call that was made on a clipboard, and what it returned.
pub enum ClipboardCall {
    Counted { count: i64 },
    Read { content: Option<Seq<char>> },
    Wrote { text: Seq<char>, count: i64 },
}

/// Platform clipboard. Implementations are constructed on the sync thread
/// (platform handles are thread-affine, like the injector's).
pub trait Clipboard {
    /// The calls that were made so far. What they return is the platform's
    /// business. A verified implementation must override this: with the default,
    /// which is there for implementations in ordinary Rust, no call could be
    /// added.
    closed spec fn calls(&self) -> Seq<ClipboardCall> {
        Seq::empty()
    }

    fn change_count(&mut self) -> (count: i64)
        ensures
            final(self).calls() == old(self).calls().push(ClipboardCall::Counted { count }),
    ;

    fn read_text(&mut self) -> (content: Option<String>)
        ensures
            final(self).calls() == old(self).calls().push(
                ClipboardCall::Read { content: text_opt(content) },
            ),
    ;

    /// Write and return the change count that write produced.
    fn write_text(&mut self, text: &str) -> (count: i64)
        ensures
            final(self).calls() == old(self).calls().push(
                ClipboardCall::Wrote { text: text@, count },
            ),
    ;
}

/// What was seen of the clipboard, written to it and published from it last.
#[derive(Debug)]
pub struct ClipboardState {
    last_count: i64,
    last_applied: Option<String>,
    last_published: Option<String>,
}

/// The state as a value.
#[verifier::ext_equal]
pub struct ClipboardModel {
    pub last_count: i64,
    pub last_applied: Option<Seq<char>>,
    pub last_published: Option<Seq<char>>,
}

impl View for ClipboardState {
    type V = ClipboardModel;

    closed spec fn view(&self) -> ClipboardModel {
        ClipboardModel {
            last_count: self.last_count,
            last_applied: text_opt(self.last_applied),
            last_published: text_opt(self.last_published),
        }
    }
}

/// The state before anything was written or published.
pub open spec fn untouched(count: i64) -> ClipboardModel {
    ClipboardModel { last_count: count, last_applied: None, last_published: None }
}

/// Whether content from a controller is to be written: not the content that was
/// written last.
pub open spec fn to_write(s: ClipboardModel, text: Seq<char>) -> bool {
    s.last_applied != Some(text)
}

/// The state once content was written and the clipboard's count came back.
pub open spec fn after_write(s: ClipboardModel, text: Seq<char>, count: i64) -> ClipboardModel {
    ClipboardModel { last_count: count, last_applied: Some(text), ..s }
}

/// Whether content of the host's clipboard is to be published: within the size
/// limit, and neither what we wrote nor what we published last.
pub open spec fn to_publish(s: ClipboardModel, text: Seq<char>) -> bool {
    encode_utf8(text).len() <= MAX_CLIPBOARD_LEN && s.last_applied != Some(text)
        && s.last_published != Some(text)
}

/// What a change of the clipboard comes to, given what it then holds.
pub open spec fn after_change(s: ClipboardModel, content: Option<Seq<char>>) -> (
    ClipboardModel,
    Option<Seq<char>>,
) {
    match content {
        Some(text) => if to_publish(s, text) {
            (ClipboardModel { last_published: Some(text), ..s }, Some(text))
        } else {
            (s, None)
        },
        None => (s, None),
    }
}

/// What a poll comes to: nothing while the count stands still.
pub open spec fn polled(s: ClipboardModel, count: i64, content: Option<Seq<char>>) -> (
    ClipboardModel,
    Option<Seq<char>>,
) {
    if count == s.last_count {
        (s, None)
    } else {
        after_change(ClipboardModel { last_count: count, ..s }, content)
    }
}

/// The calls that a poll makes: the content is read only where the count moved.
pub open spec fn poll_calls(s: ClipboardModel, count: i64, content: Option<Seq<char>>) -> Seq<
    ClipboardCall,
> {
    if count == s.last_count {
        seq![ClipboardCall::Counted { count }]
    } else {
        seq![ClipboardCall::Counted { count }, ClipboardCall::Read { content }]
    }
}

fn is_text(held: &Option<String>, text: &str) -> (r: bool)
    ensures
        r == (text_opt(*held) == Some(text@)),
{
    match held {
        Some(s) => same_text(s.as_str(), text),
        None => false,
    }
}

impl ClipboardState {
    /// Start from the clipboard's count; nothing written or published.
    pub fn new(count: i64) -> (r: Self)
        ensures
            r@ == untouched(count),
            r@ == (ClipboardModel { last_count: count, last_applied: None, last_published: None }),
    {
        ClipboardState { last_count: count, last_applied: None, last_published: None }
    }

    /// Whether content from a controller is to be written.
    pub fn wants_write(&self, text: &str) -> (r: bool)
        ensures
            r == to_write(self@, text@),
    {
        !is_text(&self.last_applied, text)
    }

    /// Content from a controller was written.
    pub fn wrote(&mut self, text: String, count: i64)
        ensures
            final(self)@ == after_write(old(self)@, text@, count),
    {
        self.last_count = count;
        self.last_applied = Some(text);
    }

    /// Note the clipboard's count; whether it moved.
    pub fn moved(&mut self, count: i64) -> (r: bool)
        ensures
            r == (count != old(self)@.last_count),
            final(self)@ == (ClipboardModel { last_count: count, ..old(self)@ }),
    {
        let r: bool = count != self.last_count;
        self.last_count = count;
        r
    }

    /// The clipboard holds something new; what to publish of it.
    pub fn on_change(&mut self, content: Option<String>) -> (publish: Option<String>)
        ensures
            (final(self)@, text_opt(publish)) == after_change(old(self)@, text_opt(content)),
    {
        let text: String = match content {
            Some(text) => text,
            None => {
                return None;
            },
        };
        if text.as_str().as_bytes().len() > MAX_CLIPBOARD_LEN {
            return None;
        }
        if is_text(&self.last_applied, text.as_str()) || is_text(
            &self.last_published,
            text.as_str(),
        ) {
            return None;
        }
        self.last_published = Some(text.clone());
        Some(text)
    }

    /// Content arrived from a controller: write it, once, unless it is what was
    /// written last.
    pub fn apply<C: Clipboard>(&mut self, clipboard: &mut C, text: String) -> (written: bool)
        ensures
            written == to_write(old(self)@, text@),
            written ==> exists|count: i64|
                final(clipboard).calls() == old(clipboard).calls().push(
                    ClipboardCall::Wrote { text: text@, count },
                ) && final(self)@ == #[trigger] after_write(old(self)@, text@, count),
            !written ==> *final(clipboard) == *old(clipboard) && final(self)@ == old(self)@,
    {
        if !self.wants_write(text.as_str()) {
            return false;
        }
        let count: i64 = clipboard.write_text(text.as_str());
        self.wrote(text, count);
        true
    }

    /// Poll the clipboard; what to publish.
    pub fn poll<C: Clipboard>(&mut self, clipboard: &mut C) -> (publish: Option<String>)
        ensures
            exists|count: i64, content: Option<Seq<char>>|
                (final(self)@, text_opt(publish)) == #[trigger] polled(
                    old(self)@,
                    count,
                    content,
                ) && final(clipboard).calls() == old(clipboard).calls() + poll_calls(
                    old(self)@,
                    count,
                    content,
                ),
    {
        let count: i64 = clipboard.change_count();
        if !self.moved(count) {
            assert((self@, None::<Seq<char>>) =~= polled(old(self)@, count, None));
            assert(clipboard.calls() =~= old(clipboard).calls() + poll_calls(
                old(self)@,
                count,
                None,
            ));
            return None;
        }
        let content: Option<String> = clipboard.read_text();
        let publish: Option<String> = self.on_change(content);
        assert((self@, text_opt(publish)) == polled(old(self)@, count, text_opt(content)));
        assert(clipboard.calls() =~= old(clipboard).calls() + poll_calls(
            old(self)@,
            count,
            text_opt(content),
        ));
        publish
    }
}

/// Content that a controller sent and we wrote is never published back: not at
/// the count that the write left, nor at any later one that finds it there.
pub proof fn law_own_write_does_not_echo(
    s: ClipboardModel,
    text: Seq<char>,
    count: i64,
    later: i64,
)
    ensures
        polled(after_write(s, text, count), later, Some(text)).1 is None,
        forall|content: Option<Seq<char>>|
            #[trigger] polled(after_write(s, text, count), count, content).1 is None,
{
}

/// What a run of polls publishes, in order.
pub open spec fn published(s: ClipboardModel, polls: Seq<(i64, Option<Seq<char>>)>) -> (
    ClipboardModel,
    Seq<Seq<char>>,
)
    decreases polls.len(),
{
    if polls.len() == 0 {
        (s, Seq::empty())
    } else {
        let (before, so_far) = published(s, polls.drop_last());
        let (after, text) = polled(before, polls.last().0, polls.last().1);
        (
            after,
            match text {
                Some(text) => so_far.push(text),
                None => so_far,
            },
        )
    }
}

/// However often the clipboard is polled after a write, and whatever else is
/// copied in between, the text that was written is never published.
pub proof fn law_write_is_never_published(
    s: ClipboardModel,
    text: Seq<char>,
    count: i64,
    polls: Seq<(i64, Option<Seq<char>>)>,
)
    ensures
        published(after_write(s, text, count), polls).0.last_applied == Some(text),
        !published(after_write(s, text, count), polls).1.contains(text),
    decreases polls.len(),
{
    if polls.len() > 0 {
        law_write_is_never_published(s, text, count, polls.drop_last());
        let so_far = published(after_write(s, text, count), polls.drop_last()).1;
        let all = published(after_write(s, text, count), polls).1;
        if all.contains(text) {
            let i = choose|i: int| 0 <= i < all.len() && all[i] == text;
            if i < so_far.len() {
                assert(so_far[i] == text);
            }
        }
    }
}

/// Only what was read is published, and only after the count moved: within the
/// size limit, and other than what was written or published last.
pub proof fn law_published_was_read(s: ClipboardModel, count: i64, content: Option<Seq<char>>)
    ensures
        polled(s, count, content).1 matches Some(text) ==> {
            &&& content == Some(text)
            &&& count != s.last_count
            &&& encode_utf8(text).len() <= MAX_CLIPBOARD_LEN
            &&& s.last_applied != Some(text)
            &&& s.last_published != Some(text)
        },
{
}

/// What was published is not published again while it stays, whatever the count
/// does.
pub proof fn law_published_once(s: ClipboardModel, count: i64, text: Seq<char>, later: i64)
    requires
        polled(s, count, Some(text)).1 is Some,
    ensures
        polled(s, count, Some(text)).1 == Some(text),
        polled(polled(s, count, Some(text)).0, later, Some(text)).1 is None,
        forall|content: Option<Seq<char>>|
            #[trigger] polled(polled(s, count, Some(text)).0, count, content).1 is None,
{
}

/// A copy on the host within the size limit is published, unless it is what was
/// written or published last; a larger one never is, and does not stop later
/// ones.
pub proof fn law_copies_are_published(s: ClipboardModel, count: i64, text: Seq<char>)
    requires
        count != s.last_count,
    ensures
        polled(s, count, Some(text)).1 is Some <==> (encode_utf8(text).len() <= MAX_CLIPBOARD_LEN
            && s.last_applied != Some(text) && s.last_published != Some(text)),
        encode_utf8(text).len() > MAX_CLIPBOARD_LEN ==> polled(s, count, Some(text)).0
            == (ClipboardModel { last_count: count, ..s }),
{
}

/// Content that came twice from a controller is written once.
pub proof fn law_duplicate_is_not_written(s: ClipboardModel, text: Seq<char>, count: i64)
    ensures
        !to_write(after_write(s, text, count), text),
{
}

} // verus!
