//! Identifiers of the tray menu's items.

use vstd::prelude::*;

verus! {

/// The prefix of a voice item's identifier.
pub open spec fn voice_prefix() -> Seq<char> {
    "voice_"@
}

/// Whether `id` names a voice item.
pub open spec fn is_voice_id(id: Seq<char>) -> bool {
    id.len() >= voice_prefix().len() && id.subrange(0, voice_prefix().len() as int) == voice_prefix()
}

/// The voice named by a voice item's identifier.
pub open spec fn voice_of_id(id: Seq<char>) -> Seq<char> {
    id.subrange(voice_prefix().len() as int, id.len() as int)
}

/// Identifier of the monitoring toggle.
pub fn monitor() -> (r: String)
    ensures
        r@ == "monitor"@,
{
    String::from_str("monitor")
}

/// Identifier of the stop item.
pub fn stop() -> (r: String)
    ensures
        r@ == "stop"@,
{
    String::from_str("stop")
}

/// Identifier of the quit item.
pub fn quit() -> (r: String)
    ensures
        r@ == "quit"@,
{
    String::from_str("quit")
}

/// Identifier of the item that selects voice `name`.
pub fn voice(name: &str) -> (r: String)
    ensures
        r@ == voice_prefix() + name@,
        is_voice_id(r@),
        voice_of_id(r@) == name@,
{
    let r = String::from_str("voice_").concat(name);
    proof {
        assert(r@.subrange(0, voice_prefix().len() as int) =~= voice_prefix());
        assert(voice_of_id(r@) =~= name@);
    }
    r
}

/// The voice that an item identifier selects, if it is a voice item.
pub fn voice_name_from_id(id: &str) -> (r: Option<String>)
    ensures
        r is Some <==> is_voice_id(id@),
        r matches Some(name) ==> name@ == voice_of_id(id@),
{
    let prefix = "voice_";
    proof {
        reveal_strlit("voice_");
    }
    let n = prefix.unicode_len();
    let len = id.unicode_len();
    if len < n {
        return None;
    }
    let mut i: usize = 0;
    while i < n
        invariant
            n == voice_prefix().len(),
            prefix@ == voice_prefix(),
            n <= len,
            len == id@.len(),
            i <= n,
            forall|k: int| 0 <= k < i ==> id@[k] == voice_prefix()[k],
        decreases n - i,
    {
        if id.get_char(i) != prefix.get_char(i) {
            proof {
                assert(id@.subrange(0, n as int)[i as int] != voice_prefix()[i as int]);
            }
            return None;
        }
        i += 1;
    }
    proof {
        assert(id@.subrange(0, n as int) =~= voice_prefix());
    }
    Some(String::from_str(id.substring_char(n, len)))
}

} // verus!
