//! Clipboard watcher policy: which clipboard reads become speech requests.
//!
//! The runtime polls the clipboard at a fixed interval. On each tick it asks
//! `wants_read` whether to read at all, and hands what it read to `on_read`,
//! which decides whether a `Speak` command goes to the engine.

use vstd::prelude::*;
use crate::tts::{TTSCommand, CommandView};

verus! {

/// The longest text, in characters, that is forwarded for speech.
pub const MAX_TEXT_CHARS: usize = 10000;

/// The text that `str::trim` leaves of `s`.
pub uninterp spec fn trimmed(s: Seq<char>) -> Seq<char>;

/// Relies on `str::trim`: the text without its leading and trailing Unicode
/// white space, which depends on the characters alone.
#[verifier::external_body]
fn trim_text(s: &str) -> (r: String)
    ensures
        r@ == trimmed(s@),
{
    s.trim().to_string()
}

/// Whether a normalized read is forwarded for speech after `last` was the
/// last observed text.
pub open spec fn forwards(last: Seq<char>, text: Seq<char>) -> bool {
    text != last && text.len() > 0 && text.len() <= MAX_TEXT_CHARS
}

/// The last observed text after a normalized read of `text`: any new,
/// non-empty text, oversized or not, is recorded as seen.
pub open spec fn observed_after(last: Seq<char>, text: Seq<char>) -> Seq<char> {
    if text == last || text.len() == 0 {
        last
    } else {
        text
    }
}

/// Clipboard watcher state: the last text it observed.
pub struct ClipboardMonitor {
    pub last_text: String,
}

impl ClipboardMonitor {
    /// A watcher that has observed nothing yet.
    pub fn new() -> (r: ClipboardMonitor)
        ensures
            r.last_text@ == Seq::<char>::empty(),
    {
        ClipboardMonitor { last_text: String::new() }
    }

    /// Whether a tick reads the clipboard: only while monitoring is enabled
    /// and no utterance is active.
    pub fn wants_read(enabled: bool, speaking: bool) -> (r: bool)
        ensures
            r == (enabled && !speaking),
    {
        enabled && !speaking
    }

    /// Records the clipboard content found at start-up as seen, so that it is
    /// not spoken; a failed read records nothing.
    pub fn prime(&mut self, read: Option<String>)
        ensures
            final(self).last_text@ == match read {
                Some(raw) => trimmed(raw@),
                None => old(self).last_text@,
            },
    {
        if let Some(raw) = read {
            self.last_text = trim_text(raw.as_str());
        }
    }

    /// Decides on one normalized read: a new, non-empty text of at most
    /// `MAX_TEXT_CHARS` characters becomes a `Speak` command; an oversized one
    /// is dropped but recorded as seen.
    pub fn observe(&mut self, text: String) -> (r: Option<TTSCommand>)
        ensures
            final(self).last_text@ == observed_after(old(self).last_text@, text@),
            r is Some <==> forwards(old(self).last_text@, text@),
            r matches Some(c) ==> c@ == CommandView::Speak(text@),
    {
        if text == self.last_text || text.as_str().unicode_len() == 0 {
            return None;
        }
        if text.as_str().unicode_len() > MAX_TEXT_CHARS {
            self.last_text = text;
            return None;
        }
        self.last_text = text.clone();
        Some(TTSCommand::Speak { text })
    }

    /// Decides on one clipboard read: a failed read (no text, or no access)
    /// is no new text; a successful one is trimmed and observed.
    pub fn on_read(&mut self, read: Option<String>) -> (r: Option<TTSCommand>)
        ensures
            read is None ==> r is None && final(self).last_text@ == old(self).last_text@,
            read matches Some(raw) ==> {
                &&& final(self).last_text@ == observed_after(old(self).last_text@, trimmed(raw@))
                &&& (r is Some <==> forwards(old(self).last_text@, trimmed(raw@)))
                &&& (r matches Some(c) ==> c@ == CommandView::Speak(trimmed(raw@)))
            },
    {
        match read {
            None => None,
            Some(raw) => {
                let text = trim_text(raw.as_str());
                self.observe(text)
            },
        }
    }
}

/// Reading again the text last observed produces no speech request and
/// changes nothing.
pub proof fn lemma_repeat_read_silent(last: Seq<char>)
    ensures
        !forwards(last, last),
        observed_after(last, last) == last,
{
}

/// Text longer than `MAX_TEXT_CHARS` is never forwarded, yet it becomes the
/// last observed text, so an identical read right after is suppressed too.
pub proof fn lemma_oversized_suppressed(last: Seq<char>, text: Seq<char>)
    requires
        text.len() > MAX_TEXT_CHARS,
    ensures
        !forwards(last, text),
        observed_after(last, text) == text,
        !forwards(observed_after(last, text), text),
{
}

} // verus!
