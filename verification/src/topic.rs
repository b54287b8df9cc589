//! Topic names: `wifielement/{id}/status` inbound, `wifielement/{id}/update`
//! outbound.

use vstd::prelude::*;
use vstd::string::*;

verus! {

/// The characters every device topic starts with.
pub open spec fn topic_prefix() -> Seq<char> {
    seq!['w', 'i', 'f', 'i', 'e', 'l', 'e', 'm', 'e', 'n', 't', '/']
}

/// The characters a status topic ends with.
pub open spec fn status_suffix() -> Seq<char> {
    seq!['/', 's', 't', 'a', 't', 'u', 's']
}

/// The characters an update topic ends with.
pub open spec fn update_suffix() -> Seq<char> {
    seq!['/', 'u', 'p', 'd', 'a', 't', 'e']
}

/// The topic on which the broker reports the state of device `mac`.
pub open spec fn status_topic_of(mac: Seq<char>) -> Seq<char> {
    topic_prefix() + mac + status_suffix()
}

/// The topic on which attribute writes for device `mac` are published.
pub open spec fn update_topic_of(mac: Seq<char>) -> Seq<char> {
    topic_prefix() + mac + update_suffix()
}

/// A character that may occur in the identifier part of an inbound status
/// topic: a decimal digit, an upper-case hexadecimal letter or a colon.
pub open spec fn is_id_char(c: char) -> bool {
    ('0' <= c && c <= '9') || ('A' <= c && c <= 'F') || c == ':'
}

/// An identifier that an inbound status topic can carry: not empty, and made
/// of identifier characters only.
pub open spec fn is_topic_id(mac: Seq<char>) -> bool {
    mac.len() > 0 && forall|i: int| 0 <= i < mac.len() ==> is_id_char(#[trigger] mac[i])
}

/// The identifier an inbound topic names, if the topic is a status topic:
/// the prefix, a topic identifier, the status suffix, and nothing else.
pub open spec fn status_topic_id(topic: Seq<char>) -> Option<Seq<char>> {
    let mac = topic.subrange(12, topic.len() - 7);
    if topic.len() >= 20 && topic.subrange(0, 12) == topic_prefix() && topic.subrange(
        topic.len() - 7,
        topic.len() as int,
    ) == status_suffix() && is_topic_id(mac) {
        Some(mac)
    } else {
        None
    }
}

/// Builds the status topic of a device.
pub fn status_topic(mac: &str) -> (topic: String)
    ensures
        topic@ == status_topic_of(mac@),
{
    proof {
        reveal_strlit("wifielement/");
        reveal_strlit("/status");
    }
    let mut topic = String::from_str("wifielement/");
    topic.append(mac);
    topic.append("/status");
    assert(topic@ =~= status_topic_of(mac@));
    topic
}

/// Builds the update topic of a device.
pub fn update_topic(mac: &str) -> (topic: String)
    ensures
        topic@ == update_topic_of(mac@),
{
    proof {
        reveal_strlit("wifielement/");
        reveal_strlit("/update");
    }
    let mut topic = String::from_str("wifielement/");
    topic.append(mac);
    topic.append("/update");
    assert(topic@ =~= update_topic_of(mac@));
    topic
}

/// Whether the ASCII text `text` holds the ASCII word `word` at character
/// position `at`.
fn holds_at(text: &str, at: usize, word: &str) -> (found: bool)
    requires
        text.is_ascii(),
        word.is_ascii(),
        at + word@.len() <= text@.len(),
        text@.len() <= usize::MAX,
    ensures
        found == (text@.subrange(at as int, at + word@.len()) == word@),
{
    let len = word.unicode_len();
    let mut i: usize = 0;
    while i < len
        invariant
            text.is_ascii(),
            word.is_ascii(),
            len == word@.len(),
            at + len <= text@.len(),
            text@.len() <= usize::MAX,
            i <= len,
            forall|j: int| 0 <= j < i ==> text@[at + j] == word@[j],
        decreases len - i,
    {
        if text.get_ascii(at + i) != word.get_ascii(i) {
            assert(text@.subrange(at as int, at + len)[i as int] != word@[i as int]);
            return false;
        }
        i = i + 1;
    }
    assert(text@.subrange(at as int, at + len) =~= word@);
    true
}

/// Whether the byte is an identifier character.
fn is_id_byte(b: u8) -> (ok: bool)
    ensures
        ok == is_id_char(b as char),
{
    (48 <= b && b <= 57) || (65 <= b && b <= 70) || b == 58
}

/// Reads the device identifier out of an inbound topic. Topics that are not
/// status topics give `None`.
pub fn parse_status_topic(topic: &str) -> (id: Option<String>)
    ensures
        match id {
            Some(mac) => status_topic_id(topic@) == Some(mac@),
            None => status_topic_id(topic@) is None,
        },
{
    proof {
        reveal_strlit("wifielement/");
        reveal_strlit("/status");
        assert("wifielement/"@ =~= topic_prefix());
        assert("/status"@ =~= status_suffix());
    }
    if !topic.is_ascii() {
        proof {
            if status_topic_id(topic@) is Some {
                lemma_status_topic_is_ascii(topic@);
            }
        }
        return None;
    }
    let len = topic.unicode_len();
    if len < 20 {
        return None;
    }
    if !holds_at(topic, 0, "wifielement/") {
        return None;
    }
    if !holds_at(topic, len - 7, "/status") {
        return None;
    }
    let end: usize = len - 7;
    let mut i: usize = 12;
    while i < end
        invariant
            topic.is_ascii(),
            len == topic@.len(),
            end == len - 7,
            12 <= i <= end,
            forall|j: int| 12 <= j < i ==> is_id_char(#[trigger] topic@[j]),
        decreases end - i,
    {
        if !is_id_byte(topic.get_ascii(i)) {
            assert(!is_id_char(topic@.subrange(12, len - 7)[i - 12]));
            return None;
        }
        i = i + 1;
    }
    let mac = topic.substring_ascii(12, end);
    assert(is_topic_id(mac@));
    Some(mac.to_owned())
}

/// Every status topic is made of ASCII characters.
pub proof fn lemma_status_topic_is_ascii(topic: Seq<char>)
    requires
        status_topic_id(topic) is Some,
    ensures
        vstd::utf8::is_ascii_chars(topic),
{
    let mac = topic.subrange(12, topic.len() - 7);
    assert forall|i: int| 0 <= i < topic.len() implies '\0' <= #[trigger] topic[i] <= '\u{7f}' by {
        if i < 12 {
            assert(topic[i] == topic.subrange(0, 12)[i]);
        } else if i < topic.len() - 7 {
            assert(topic[i] == mac[i - 12]);
        } else {
            assert(topic[i] == topic.subrange(topic.len() - 7, topic.len() as int)[i - (topic.len()
                - 7)]);
        }
    }
}

/// Reading a built status topic gives the identifier back, for every
/// identifier that a status topic can carry.
pub proof fn lemma_status_topic_round_trip(mac: Seq<char>)
    requires
        is_topic_id(mac),
    ensures
        status_topic_id(status_topic_of(mac)) == Some(mac),
{
    let topic = status_topic_of(mac);
    assert(topic.subrange(0, 12) =~= topic_prefix());
    assert(topic.subrange(topic.len() - 7, topic.len() as int) =~= status_suffix());
    assert(topic.subrange(12, topic.len() - 7) =~= mac);
}

/// A status topic is the status topic of the identifier read from it, and
/// of no other.
pub proof fn lemma_status_topic_unique(topic: Seq<char>, mac: Seq<char>)
    ensures
        status_topic_id(topic) == Some(mac) ==> topic == status_topic_of(mac),
        is_topic_id(mac) && topic == status_topic_of(mac) ==> status_topic_id(topic) == Some(mac),
{
    if status_topic_id(topic) == Some(mac) {
        assert(topic =~= topic.subrange(0, 12) + topic.subrange(12, topic.len() - 7)
            + topic.subrange(topic.len() - 7, topic.len() as int));
    }
    if is_topic_id(mac) && topic == status_topic_of(mac) {
        lemma_status_topic_round_trip(mac);
    }
}

/// An update topic is never read as a status topic, so the client's own
/// writes are not mistaken for device reports.
pub proof fn lemma_update_topic_is_no_status_topic(mac: Seq<char>)
    ensures
        status_topic_id(update_topic_of(mac)) is None,
{
    let topic = update_topic_of(mac);
    let tail = topic.subrange(topic.len() - 7, topic.len() as int);
    assert(tail[1] == 'u');
    assert(status_suffix()[1] == 's');
}

} // verus!
