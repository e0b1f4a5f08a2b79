//! Telling mobile devices from desktop ones by the user agent.

use vstd::prelude::*;

verus! {

/// The lowercase equivalent of a text, as `str::to_lowercase` computes it.
pub uninterp spec fn lowercase_of(text: Seq<char>) -> Seq<char>;

/// Calls `str::to_lowercase`.
///
/// Trusted: the result is the lowercase equivalent of `text`, a function of
/// `text` alone, which [`lowercase_of`] names. Nothing more is claimed of it.
#[verifier::external_body]
fn to_lowercase(text: &str) -> (lowered: String)
    ensures
        lowered@ == lowercase_of(text@),
{
    text.to_lowercase()
}

/// The characters that give a mobile user agent away: `mobi`.
pub open spec fn marker() -> Seq<char> {
    seq!['m', 'o', 'b', 'i']
}

/// Whether `part` stands in `text` at position `at`.
pub open spec fn occurs_at(text: Seq<char>, part: Seq<char>, at: int) -> bool {
    0 <= at && at + part.len() <= text.len() && text.subrange(at, at + part.len()) == part
}

/// Whether `part` stands somewhere in `text`.
pub open spec fn occurs_in(text: Seq<char>, part: Seq<char>) -> bool {
    exists|at: int| occurs_at(text, part, at)
}

/// Whether a user agent is that of a mobile device: its lowercase form holds
/// the marker.
pub open spec fn is_mobile_agent(user_agent: Seq<char>) -> bool {
    occurs_in(lowercase_of(user_agent), marker())
}

/// Whether the device is mobile, by the user agent of its window if it has
/// one. Without a window it is not.
pub open spec fn is_mobile(user_agent: Option<Seq<char>>) -> bool {
    match user_agent {
        Some(agent) => is_mobile_agent(agent),
        None => false,
    }
}

/// The root context: the class of the user's device. Both flags are always
/// set, and always opposite.
#[derive(Debug, Clone, Copy, PartialEq, Eq, Structural)]
pub struct Leptonic {
    /// Whether the user's device should be considered mobile.
    pub is_mobile_device: bool,
    /// Always the inverse of `is_mobile_device`.
    pub is_desktop_device: bool,
}

/// Whether the first `end` characters of `text` end with the first `len`
/// characters of the marker.
spec fn ends_with_prefix(text: Seq<char>, end: int, len: int) -> bool {
    len <= end && forall|j: int| 0 <= j < len ==> text[end - len + j] == #[trigger] marker()[j]
}

/// The marker stands at `at` exactly when the text up to `at + 4` ends with
/// all four of its characters.
proof fn occurrence_is_full_prefix(text: Seq<char>, at: int)
    requires
        0 <= at,
        at + 4 <= text.len(),
    ensures
        occurs_at(text, marker(), at) <==> ends_with_prefix(text, at + 4, 4),
{
    if ends_with_prefix(text, at + 4, 4) {
        assert(text.subrange(at, at + 4) =~= marker());
    }
    if occurs_at(text, marker(), at) {
        assert forall|j: int| 0 <= j < 4 implies text[at + j] == #[trigger] marker()[j] by {
            assert(text.subrange(at, at + 4)[j] == text[at + j]);
        }
    }
}

/// How many leading characters of the marker a text ends with once `c` is
/// appended to one that ended with `before` of them.
spec fn advance(before: int, c: char) -> int {
    if c == marker()[before] {
        before + 1
    } else if c == 'm' {
        1
    } else {
        0
    }
}

/// A text that ends with `len` characters of the marker ended with `len - 1`
/// of them before its last character, which is the marker's at `len - 1`.
proof fn prefix_shrinks(text: Seq<char>, end: int, len: int)
    requires
        1 <= len <= 4,
        ends_with_prefix(text, end + 1, len),
    ensures
        ends_with_prefix(text, end, len - 1),
        text[end] == marker()[len - 1],
{
    assert forall|j: int| 0 <= j < len - 1 implies text[end - (len - 1) + j]
        == #[trigger] marker()[j] by {
        assert(text[end + 1 - len + j] == marker()[j]);
    }
    assert(text[end + 1 - len + (len - 1)] == marker()[len - 1]);
}

/// A text that ends with `len` characters of the marker ends with `len + 1`
/// of them once the marker's character at `len` is appended.
proof fn prefix_grows(text: Seq<char>, end: int, len: int)
    requires
        0 <= len < 4,
        ends_with_prefix(text, end, len),
        text[end] == marker()[len],
    ensures
        ends_with_prefix(text, end + 1, len + 1),
{
    assert forall|j: int| 0 <= j < len + 1 implies text[end + 1 - (len + 1) + j]
        == #[trigger] marker()[j] by {
        if j < len {
            assert(text[end - len + j] == marker()[j]);
        }
    }
}

/// [`advance`] keeps `before` the longest: if it was the greatest number of
/// leading marker characters that the first `end` characters of `text` end
/// with, then `advance(before, text[end])` is that number for the first
/// `next == end + 1` characters.
proof fn advance_is_longest(text: Seq<char>, end: int, next: int, before: int)
    requires
        0 <= end < text.len(),
        next == end + 1,
        0 <= before < 4,
        ends_with_prefix(text, end, before),
        forall|len: int| before < len <= 4 ==> !ends_with_prefix(text, end, len),
    ensures
        0 <= advance(before, text[end]) <= 4,
        ends_with_prefix(text, next, advance(before, text[end])),
        forall|len: int|
            advance(before, text[end]) < len <= 4 ==> !ends_with_prefix(text, next, len),
{
    let c = text[end];
    let after = advance(before, c);
    if c == marker()[before] {
        prefix_grows(text, end, before);
    } else if c == 'm' {
        assert(ends_with_prefix(text, end, 0));
        prefix_grows(text, end, 0);
    }
    assert forall|len: int| after < len <= 4 implies !ends_with_prefix(text, next, len) by {
        if ends_with_prefix(text, next, len) {
            prefix_shrinks(text, end, len);
            // The text ended with `len - 1` marker characters, so `len - 1 <= before`;
            // and were it less, two different marker characters would share a place.
            if 1 <= len - 1 < before {
                prefix_shrinks(text, end - 1, len - 1);
                prefix_shrinks(text, end - 1, before);
            }
        }
    }
}

/// Whether a text holds the marker as it is written. The text is taken as
/// it comes: a user agent is lowered before it gets here.
pub fn mentions_mobile(lowered: &str) -> (found: bool)
    ensures
        found == occurs_in(lowered@, marker()),
{
    let ghost text = lowered@;
    let mut matched: u8 = 0;
    let chars = lowered.chars();
    for c in it: chars
        invariant
            text == lowered@,
            it.seq() == text,
            matched < 4,
            ends_with_prefix(text, it.index(), matched as int),
            forall|len: int| matched < len <= 4 ==> !ends_with_prefix(text, it.index(), len),
            forall|at: int| 0 <= at && at + 4 <= it.index() ==> !occurs_at(text, marker(), at),
    {
        let ghost end = it.index();
        let ghost before = matched as int;
        let expected = match matched {
            0 => 'm',
            1 => 'o',
            2 => 'b',
            _ => 'i',
        };
        matched = if c == expected {
            matched + 1
        } else if c == 'm' {
            1
        } else {
            0
        };
        proof {
            assert(c == text[end]);
            assert(expected == marker()[before]);
            assert(matched as int == advance(before, c));
            advance_is_longest(text, end, end + 1, before);
            if end + 1 >= 4 {
                occurrence_is_full_prefix(text, end + 1 - 4);
            }
        }
        if matched == 4 {
            assert(occurs_at(text, marker(), end + 1 - 4));
            return true;
        }
    }
    false
}

/// Whether a user agent is that of a mobile device.
pub fn is_mobile_user_agent(user_agent: &str) -> (mobile: bool)
    ensures
        mobile == is_mobile_agent(user_agent@),
{
    let lowered = to_lowercase(user_agent);
    mentions_mobile(lowered.as_str())
}

impl Leptonic {
    /// The two flags are opposite.
    pub open spec fn wf(self) -> bool {
        self.is_desktop_device == !self.is_mobile_device
    }

    /// The context of a device that is mobile, or is not.
    pub fn new(is_mobile_device: bool) -> (context: Leptonic)
        ensures
            context.wf(),
            context.is_mobile_device == is_mobile_device,
    {
        Leptonic { is_mobile_device, is_desktop_device: !is_mobile_device }
    }

    /// The context of the device whose window reports `user_agent`; `None`
    /// stands for a device without a window.
    pub fn detect(user_agent: Option<&str>) -> (context: Leptonic)
        ensures
            context.wf(),
            context.is_mobile_device == is_mobile(
                match user_agent {
                    Some(agent) => Some(agent@),
                    None => None,
                },
            ),
    {
        match user_agent {
            Some(agent) => Leptonic::new(is_mobile_user_agent(agent)),
            None => Leptonic::new(false),
        }
    }
}

} // verus!
