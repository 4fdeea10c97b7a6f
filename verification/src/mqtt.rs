//! The messaging side: decoding a topic payload into a command, the
//! listener's reaction to each poll event, and the broker client identifier.

use vstd::prelude::*;
use vstd::string::*;

verus! {

/// A toggle command received over the messaging topic or the HTTP surface.
#[derive(Clone, Copy, Debug, PartialEq, Eq, Structural)]
pub enum MqttCommand {
    EnableYouTube,
    DisableYouTube,
}

/// Whether a character carries the Unicode `White_Space` property — what
/// trimming removes from the ends of a payload.
pub open spec fn is_space(c: char) -> bool {
    c == '\u{9}' || c == '\u{a}' || c == '\u{b}' || c == '\u{c}' || c == '\u{d}' || c == ' '
        || c == '\u{85}' || c == '\u{a0}' || c == '\u{1680}' || (0x2000 <= c as u32 && c as u32
        <= 0x200a) || c == '\u{2028}' || c == '\u{2029}' || c == '\u{202f}' || c == '\u{205f}'
        || c == '\u{3000}'
}

/// Whether `c` is whitespace, decided at run time.
pub fn is_space_char(c: char) -> (r: bool)
    ensures
        r == is_space(c),
{
    let code: u32 = c as u32;
    c == '\u{9}' || c == '\u{a}' || c == '\u{b}' || c == '\u{c}' || c == '\u{d}' || c == ' '
        || c == '\u{85}' || c == '\u{a0}' || c == '\u{1680}' || (0x2000 <= code && code <= 0x200a)
        || c == '\u{2028}' || c == '\u{2029}' || c == '\u{202f}' || c == '\u{205f}' || c
        == '\u{3000}'
}

/// A string with its leading whitespace removed.
pub open spec fn trim_front(s: Seq<char>) -> Seq<char>
    decreases s.len(),
{
    if s.len() > 0 && is_space(s[0]) {
        trim_front(s.drop_first())
    } else {
        s
    }
}

/// A string with its trailing whitespace removed.
pub open spec fn trim_back(s: Seq<char>) -> Seq<char>
    decreases s.len(),
{
    if s.len() > 0 && is_space(s[s.len() - 1]) {
        trim_back(s.drop_last())
    } else {
        s
    }
}

/// A string with the whitespace at both ends removed.
pub open spec fn trimmed(s: Seq<char>) -> Seq<char> {
    trim_back(trim_front(s))
}

/// What a payload means: exactly `enable` or `disable` after trimming, and
/// nothing else — matching is case-sensitive.
pub open spec fn decoded_command(s: Seq<char>) -> Option<MqttCommand> {
    if trimmed(s) == "enable"@ {
        Some(MqttCommand::EnableYouTube)
    } else if trimmed(s) == "disable"@ {
        Some(MqttCommand::DisableYouTube)
    } else {
        None
    }
}

/// Whether the characters of `s` from `lo` to `hi` are exactly `t`.
fn region_eq(s: &str, lo: usize, hi: usize, t: &str) -> (r: bool)
    requires
        lo <= hi <= s@.len(),
    ensures
        r == (s@.subrange(lo as int, hi as int) == t@),
{
    let m: usize = t.unicode_len();
    if hi - lo != m {
        proof {
            assert(s@.subrange(lo as int, hi as int).len() != t@.len());
        }
        return false;
    }
    let mut j: usize = 0;
    while j < m
        invariant
            m == t@.len(),
            lo <= hi <= s@.len(),
            hi - lo == m,
            j <= m,
            forall|k: int| 0 <= k < j ==> s@[lo + k] == t@[k],
        decreases m - j,
    {
        let a: char = s.get_char(lo + j);
        let b: char = t.get_char(j);
        if a != b {
            proof {
                assert(s@.subrange(lo as int, hi as int)[j as int] == s@[lo + j as int]);
            }
            return false;
        }
        j = j + 1;
    }
    proof {
        assert(s@.subrange(lo as int, hi as int) =~= t@);
    }
    true
}

/// Decode one payload, already lossily decoded to text by the transport:
/// after trimming, `enable` and `disable` are the two recognized commands;
/// anything else is no command.
pub fn decode_command(payload: &str) -> (r: Option<MqttCommand>)
    ensures
        r == decoded_command(payload@),
{
    let ghost s: Seq<char> = payload@;
    let n: usize = payload.unicode_len();
    let mut lo: usize = 0;
    proof {
        assert(s.subrange(0, n as int) =~= s);
    }
    while lo < n && is_space_char(payload.get_char(lo))
        invariant
            n == s.len(),
            s == payload@,
            lo <= n,
            trim_front(s) == trim_front(s.subrange(lo as int, n as int)),
        decreases n - lo,
    {
        proof {
            assert(s.subrange(lo as int, n as int)[0] == s[lo as int]);
            assert(s.subrange(lo as int, n as int).drop_first() =~= s.subrange(
                lo as int + 1,
                n as int,
            ));
        }
        lo = lo + 1;
    }
    proof {
        if lo < n {
            assert(trim_front(s.subrange(lo as int, n as int)) == s.subrange(
                lo as int,
                n as int,
            ));
        } else {
            assert(s.subrange(lo as int, n as int).len() == 0);
            assert(trim_front(s.subrange(lo as int, n as int)) == s.subrange(
                lo as int,
                n as int,
            ));
        }
    }
    let mut hi: usize = n;
    while hi > lo && is_space_char(payload.get_char(hi - 1))
        invariant
            n == s.len(),
            s == payload@,
            lo <= hi <= n,
            trim_front(s) == s.subrange(lo as int, n as int),
            trim_back(s.subrange(lo as int, n as int)) == trim_back(
                s.subrange(lo as int, hi as int),
            ),
        decreases hi - lo,
    {
        proof {
            let region = s.subrange(lo as int, hi as int);
            assert(region[region.len() - 1] == s[hi as int - 1]);
            assert(region.drop_last() =~= s.subrange(lo as int, hi as int - 1));
        }
        hi = hi - 1;
    }
    proof {
        if hi > lo {
            assert(trim_back(s.subrange(lo as int, hi as int)) == s.subrange(
                lo as int,
                hi as int,
            ));
        } else {
            assert(s.subrange(lo as int, hi as int).len() == 0);
            assert(trim_back(s.subrange(lo as int, hi as int)) == s.subrange(
                lo as int,
                hi as int,
            ));
        }
        assert(trimmed(s) == s.subrange(lo as int, hi as int));
    }
    if region_eq(payload, lo, hi, "enable") {
        Some(MqttCommand::EnableYouTube)
    } else if region_eq(payload, lo, hi, "disable") {
        Some(MqttCommand::DisableYouTube)
    } else {
        None
    }
}

/// How the listener reacts to a broker failure: it pauses this long, then
/// polls again, forever — there is no giving up.
pub struct RetryPolicy {
    pub delay_secs: u64,
}

/// The two standings of the broker connection.
pub enum ConnState {
    Connected,
    Reconnecting { delay_secs: u64 },
}

/// One event out of the broker's poll loop, reduced to plain values: a
/// message on the subscribed topic with its payload as text, some other
/// protocol event, or a connection failure.
pub enum PollEvent {
    Message { text: String },
    Other,
    Failure,
}

/// What the listener does with one event.
pub enum ListenerAction {
    /// Hand this command to the dispatcher's queue.
    Forward { command: MqttCommand },
    /// Nothing: an unrecognized payload or an uninteresting event.
    Ignore,
    /// Pause this long, then poll again.
    Pause { delay_secs: u64 },
}

/// One step of the listener: a recognized payload is forwarded, an
/// unrecognized one is dropped, and a failure puts the connection into
/// `Reconnecting` with the policy's pause. The step is memoryless — a
/// successful poll always restores `Connected`, so the loop retries forever.
pub fn listener_step(policy: &RetryPolicy, event: &PollEvent) -> (r: (ConnState, ListenerAction))
    ensures
        (*event matches PollEvent::Message { text } ==> (r.0 is Connected && (match decoded_command(
            text@,
        ) {
            Some(c) => r.1 matches ListenerAction::Forward { command } && command == c,
            None => r.1 is Ignore,
        }))),
        *event is Other ==> r.0 is Connected && r.1 is Ignore,
        *event is Failure ==> ((r.0 matches ConnState::Reconnecting { delay_secs } && delay_secs
            == policy.delay_secs) && (r.1 matches ListenerAction::Pause { delay_secs } && delay_secs
            == policy.delay_secs)),
{
    match event {
        PollEvent::Message { text } => {
            match decode_command(text.as_str()) {
                Some(command) => (ConnState::Connected, ListenerAction::Forward { command }),
                None => (ConnState::Connected, ListenerAction::Ignore),
            }
        },
        PollEvent::Other => (ConnState::Connected, ListenerAction::Ignore),
        PollEvent::Failure => (
            ConnState::Reconnecting { delay_secs: policy.delay_secs },
            ListenerAction::Pause { delay_secs: policy.delay_secs },
        ),
    }
}

/// Relies on `uuid::Uuid::new_v4` rendered through its `Display` impl: a
/// fresh random version-4 UUID in the 36-character hyphenated form. The
/// value is random, so only its length is stated.
#[verifier::external_body]
fn fresh_uuid_hyphenated() -> (r: String)
    ensures
        r@.len() == 36,
{
    uuid::Uuid::new_v4().to_string()
}

/// A broker client identifier unique to this process start: a fixed prefix
/// followed by a fresh random UUID.
pub fn fresh_client_id() -> (r: String)
    ensures
        r@.len() == 55,
        r@.subrange(0, 19) == "adguard_controller_"@,
{
    let mut r: String = String::from_str("adguard_controller_");
    let suffix: String = fresh_uuid_hyphenated();
    r.append(suffix.as_str());
    proof {
        reveal_strlit("adguard_controller_");
        assert(r@.subrange(0, 19) =~= "adguard_controller_"@);
    }
    r
}

} // verus!
