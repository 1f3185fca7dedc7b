//! Segmented latency tracing of a send, from Enter to the engine.
//!
//! A trace holds stage names, durations and non-sensitive dimensions only, never the text of
//! a message.
use std::time::Instant;

use vstd::arithmetic::div_mod::lemma_div_denominator;
use vstd::arithmetic::power::{lemma_pow_adds, lemma_pow_positive, pow};
use vstd::prelude::*;

use crate::text::{
    decimal, eq_ignore_ascii_case, law_blank_iff_trimmed_away, law_trim_undoes_padding,
    push_decimal, same_ignoring_ascii_case, same_text, trim, trimmed, white_space,
};

verus! {

/// Environment variable that enables send-path segment timing.
pub const TRACE_SEND_LATENCY_ENV: &'static str = "CODEWHALE_TRACE_SEND_LATENCY";

/// A reading of the monotonic clock.
#[verifier::external_type_specification]
#[verifier::external_body]
pub struct ExInstant(std::time::Instant);

/// `Instant::now`: a reading of the clock, of which nothing is known.
#[verifier::external_body]
fn clock_now() -> Instant {
    Instant::now()
}

/// `Instant::elapsed`: the nanoseconds from a reading of the clock until now. They depend on
/// the time of the call.
#[verifier::external_body]
fn nanos_since(start: &Instant) -> u128 {
    start.elapsed().as_nanos()
}

/// `at` is a reading that the clock gives.
pub closed spec fn clock_reads(at: Instant) -> bool {
    call_ensures(clock_now, (), at)
}

/// `nanos` is what the clock gives for the nanoseconds since `start`.
pub closed spec fn elapses(start: Instant, nanos: u128) -> bool {
    call_ensures(nanos_since, (&start,), nanos)
}

/// Whole milliseconds of a number of nanoseconds, as many as 64 bits hold.
pub open spec fn millis(nanos: nat) -> nat {
    (nanos / 1_000_000) % 0x1_0000_0000_0000_0000
}

fn whole_millis(nanos: u128) -> (ms: u64)
    ensures
        ms == millis(nanos as nat),
{
    ((nanos / 1_000_000) % 0x1_0000_0000_0000_0000) as u64
}

/// What a trace has recorded: the segments with their nanoseconds, and the time of the last
/// mark, in nanoseconds since the start.
#[verifier::ext_equal]
pub struct Recorded {
    pub segments: Seq<(&'static str, u128)>,
    pub last: u128,
}

impl Recorded {
    /// What is recorded after a mark at `now`, in nanoseconds since the start: one more
    /// segment, which lasts since the last mark.
    pub open spec fn marked(self, name: &'static str, now: u128) -> Recorded {
        let lasted: u128 = if now >= self.last {
            (now - self.last) as u128
        } else {
            0
        };
        Recorded { segments: self.segments.push((name, lasted)), last: now }
    }
}

/// In-memory segment timer for one attempt to send a message.
#[derive(Debug)]
pub struct SendLatencyTrace {
    pub dispatch_id: String,
    started_at: Instant,
    last_at: u128,
    segments: Vec<(&'static str, u128)>,
    /// Characters of the message.
    pub input_chars: usize,
    /// Messages of the conversation so far.
    pub history_messages: usize,
}

/// A trace as mathematical values.
#[verifier::ext_equal]
pub struct TraceView {
    pub dispatch_id: Seq<char>,
    pub started_at: Instant,
    pub recorded: Recorded,
    pub input_chars: usize,
    pub history_messages: usize,
}

impl View for SendLatencyTrace {
    type V = TraceView;

    closed spec fn view(&self) -> TraceView {
        TraceView {
            dispatch_id: self.dispatch_id@,
            started_at: self.started_at,
            recorded: Recorded { segments: self.segments@, last: self.last_at },
            input_chars: self.input_chars,
            history_messages: self.history_messages,
        }
    }
}

/// Segment `i` is the slowest: no other one lasts longer, and no later one as long.
pub open spec fn is_slowest(segments: Seq<(&'static str, u128)>, i: int) -> bool {
    &&& 0 <= i < segments.len()
    &&& forall|j: int| 0 <= j < segments.len() ==> (#[trigger] segments[j]).1 <= segments[i].1
    &&& forall|j: int| i < j < segments.len() ==> (#[trigger] segments[j]).1 < segments[i].1
}

/// A segment in the summary line, such as `submit=12ms`.
pub open spec fn segment_text(segment: (&'static str, u128)) -> Seq<char> {
    segment.0@ + "="@ + decimal((segment.1 / 1_000_000) as nat) + "ms"@
}

/// The segments of the summary line, with blanks between them.
pub open spec fn segments_text(segments: Seq<(&'static str, u128)>) -> Seq<char>
    decreases segments.len(),
{
    if segments.len() == 0 {
        Seq::empty()
    } else if segments.len() == 1 {
        segment_text(segments[0])
    } else {
        segments_text(segments.drop_last()) + " "@ + segment_text(segments.last())
    }
}

/// The summary of a finished trace, for the log.
#[derive(Debug, Clone)]
pub struct LatencySummary {
    pub dispatch_id: String,
    pub total_ms: u64,
    pub slowest: &'static str,
    pub slowest_ms: u64,
    pub input_chars: usize,
    pub history_messages: usize,
    pub message: String,
}

impl SendLatencyTrace {
    /// A trace that starts now.
    pub fn start(dispatch_id: String) -> (trace: Self)
        ensures
            exists|now: Instant| #[trigger]
                clock_reads(now) && trace@ == (TraceView {
                    dispatch_id: dispatch_id@,
                    started_at: now,
                    recorded: Recorded { segments: Seq::empty(), last: 0 },
                    input_chars: 0,
                    history_messages: 0,
                }),
    {
        let now: Instant = clock_now();
        assert(clock_reads(now));
        let trace = SendLatencyTrace {
            dispatch_id,
            started_at: now,
            last_at: 0,
            segments: Vec::with_capacity(16),
            input_chars: 0,
            history_messages: 0,
        };
        assert(trace.segments@ =~= Seq::empty());
        trace
    }

    /// Records that a stage has ended now.
    pub fn mark(&mut self, name: &'static str)
        ensures
            exists|now: u128| #[trigger]
                elapses(old(self)@.started_at, now) && final(self)@ == (TraceView {
                    recorded: old(self)@.recorded.marked(name, now),
                    ..old(self)@
                }),
    {
        let now: u128 = nanos_since(&self.started_at);
        assert(elapses(old(self)@.started_at, now));
        self.mark_at(name, now);
    }

    /// Records that a stage has ended `now` nanoseconds after the start.
    pub fn mark_at(&mut self, name: &'static str, now: u128)
        ensures
            final(self)@ == (TraceView {
                recorded: old(self)@.recorded.marked(name, now),
                ..old(self)@
            }),
    {
        self.segments.push((name, now.saturating_sub(self.last_at)));
        self.last_at = now;
    }

    /// Notes the dimensions of the send for the summary: the characters of the message and
    /// the messages of the conversation so far.
    pub fn set_dimensions(&mut self, input_chars: usize, history_messages: usize)
        ensures
            final(self)@ == (TraceView { input_chars, history_messages, ..old(self)@ }),
    {
        self.input_chars = input_chars;
        self.history_messages = history_messages;
    }

    /// Nanoseconds from the start to the last mark.
    pub fn total(&self) -> (nanos: u128)
        ensures
            nanos == self@.recorded.last,
    {
        self.last_at
    }

    /// The segments recorded so far, with their nanoseconds.
    pub fn segments(&self) -> (segments: &[(&'static str, u128)])
        ensures
            segments@ == self@.recorded.segments,
    {
        self.segments.as_slice()
    }

    /// The slowest segment, if there is any; the last one of equally slow ones.
    pub fn slowest(&self) -> (slowest: Option<(&'static str, u128)>)
        ensures
            slowest is None <==> self@.recorded.segments.len() == 0,
            slowest matches Some(segment) ==> exists|i: int|
                #[trigger] is_slowest(self@.recorded.segments, i) && segment == self@.recorded.segments[i],
    {
        if self.segments.len() == 0 {
            return None;
        }
        let mut best: usize = 0;
        let mut i: usize = 1;
        while i < self.segments.len()
            invariant
                best < i <= self.segments@.len(),
                forall|j: int|
                    0 <= j < i ==> (#[trigger] self.segments@[j]).1 <= self.segments@[best as int].1,
                forall|j: int|
                    best < j < i ==> (#[trigger] self.segments@[j]).1
                        < self.segments@[best as int].1,
            decreases self.segments@.len() - i,
        {
            if self.segments[i].1 >= self.segments[best].1 {
                best = i;
            }
            i += 1;
        }
        assert(is_slowest(self@.recorded.segments, best as int));
        Some(self.segments[best])
    }

    /// Ends the trace with its summary.
    pub fn finish(self) -> (summary: LatencySummary)
        ensures
            summary.dispatch_id@ == self@.dispatch_id,
            summary.total_ms == millis(self@.recorded.last as nat),
            summary.input_chars == self@.input_chars,
            summary.history_messages == self@.history_messages,
            summary.message@ == "send latency "@ + segments_text(self@.recorded.segments),
            if self@.recorded.segments.len() == 0 {
                summary.slowest@ == "(none)"@ && summary.slowest_ms == 0
            } else {
                exists|i: int|
                    #[trigger] is_slowest(self@.recorded.segments, i) && summary.slowest
                        == self@.recorded.segments[i].0 && summary.slowest_ms == millis(
                        self@.recorded.segments[i].1 as nat,
                    )
            },
    {
        let total: u128 = self.total();
        let slowest: Option<(&'static str, u128)> = self.slowest();
        let mut message: String = "send latency ".to_string();
        let ghost head = message@;
        let mut i: usize = 0;
        proof {
            assert(self.segments@.take(0) =~= Seq::empty());
            assert(message@ =~= head + segments_text(self.segments@.take(0)));
        }
        while i < self.segments.len()
            invariant
                i <= self.segments@.len(),
                message@ == head + segments_text(self.segments@.take(i as int)),
            decreases self.segments@.len() - i,
        {
            let ghost before = message@;
            let ghost now = self.segments@.take(i + 1);
            if i > 0 {
                message.append(" ");
            }
            message.append(self.segments[i].0);
            message.append("=");
            push_decimal(&mut message, self.segments[i].1 / 1_000_000);
            message.append("ms");
            proof {
                assert(now.drop_last() =~= self.segments@.take(i as int));
                assert(now.last() == self.segments@[i as int]);
                if i == 0 {
                    assert(now[0] == self.segments@[0]);
                }
                assert(message@ =~= head + segments_text(now));
            }
            i += 1;
        }
        proof {
            assert(self.segments@.take(self.segments@.len() as int) =~= self.segments@);
        }
        let (name, nanos): (&'static str, u128) = match slowest {
            Some(segment) => segment,
            None => ("(none)", 0),
        };
        LatencySummary {
            dispatch_id: self.dispatch_id,
            total_ms: whole_millis(total),
            slowest: name,
            slowest_ms: whole_millis(nanos),
            input_chars: self.input_chars,
            history_messages: self.history_messages,
            message,
        }
    }
}

/// What a trace has recorded after a sequence of marks, each with its time.
pub open spec fn after_marks(marks: Seq<(&'static str, u128)>) -> Recorded
    decreases marks.len(),
{
    if marks.len() == 0 {
        Recorded { segments: Seq::empty(), last: 0 }
    } else {
        after_marks(marks.drop_last()).marked(marks.last().0, marks.last().1)
    }
}

/// The nanoseconds of all segments together.
pub open spec fn segments_total(segments: Seq<(&'static str, u128)>) -> nat
    decreases segments.len(),
{
    if segments.len() == 0 {
        0
    } else {
        segments_total(segments.drop_last()) + segments.last().1 as nat
    }
}

/// Law: a trace has one segment for each mark, under its name and in order.
pub proof fn law_one_segment_per_mark(marks: Seq<(&'static str, u128)>)
    ensures
        after_marks(marks).segments.len() == marks.len(),
        forall|i: int|
            0 <= i < marks.len() ==> (#[trigger] after_marks(marks).segments[i]).0 == marks[i].0,
    decreases marks.len(),
{
    if marks.len() > 0 {
        law_one_segment_per_mark(marks.drop_last());
        assert forall|i: int| 0 <= i < marks.len() implies (#[trigger] after_marks(
            marks,
        ).segments[i]).0 == marks[i].0 by {
            if i < marks.len() - 1 {
                assert(after_marks(marks).segments[i] == after_marks(
                    marks.drop_last(),
                ).segments[i]);
            }
        }
    }
}

/// Law: the segments together never last less than the trace, and exactly as long where the
/// clock does not go back.
pub proof fn law_total_is_the_sum_of_segments(marks: Seq<(&'static str, u128)>)
    ensures
        after_marks(marks).last <= segments_total(after_marks(marks).segments),
        (forall|i: int, j: int| 0 <= i <= j < marks.len() ==> marks[i].1 <= marks[j].1)
            ==> after_marks(marks).last == segments_total(after_marks(marks).segments),
    decreases marks.len(),
{
    if marks.len() > 0 {
        let front = marks.drop_last();
        law_total_is_the_sum_of_segments(front);
        let before = after_marks(front);
        let after = after_marks(marks);
        assert(after.segments.drop_last() =~= before.segments);
        if forall|i: int, j: int| 0 <= i <= j < marks.len() ==> marks[i].1 <= marks[j].1 {
            assert(forall|i: int, j: int| 0 <= i <= j < front.len() ==> front[i].1 <= front[j].1);
            if front.len() > 0 {
                assert(before.last == front.last().1);
                assert(marks[front.len() - 1].1 <= marks[front.len() as int].1);
            }
        }
    }
}

/// Whether the value of the environment variable enables tracing.
pub open spec fn enables_tracing(value: Seq<char>) -> bool {
    let v = trimmed(value);
    v == "1"@ || same_ignoring_ascii_case(v, "true"@) || same_ignoring_ascii_case(v, "yes"@)
}

/// Whether send-latency tracing is enabled, for the value of `TRACE_SEND_LATENCY_ENV` if it
/// is set.
pub fn send_latency_trace_enabled(value: Option<&str>) -> (enabled: bool)
    ensures
        enabled == (match value {
            Some(v) => enables_tracing(v@),
            None => false,
        }),
{
    match value {
        Some(raw) => {
            let v: &str = trim(raw);
            same_text(v, "1") || eq_ignore_ascii_case(v, "true") || eq_ignore_ascii_case(v, "yes")
        },
        None => false,
    }
}

/// The hexadecimal digit `d`.
pub open spec fn hex_char(d: int) -> char {
    if d < 10 {
        (48 + d) as char
    } else {
        (87 + d) as char
    }
}

/// A number of 128 bits as 32 hexadecimal digits, the highest one first.
pub open spec fn simple_hex(bits: u128) -> Seq<char> {
    Seq::new(32, |i: int| hex_char((bits as int / pow(16, (31 - i) as nat)) % 16))
}

/// `uuid::Uuid::new_v4`: the bits of a random UUID. Which ones is left to chance; where the
/// system has no random numbers to give, the call panics.
#[verifier::external_body]
fn random_uuid_bits() -> u128 {
    uuid::Uuid::new_v4().as_u128()
}

/// `uuid::Uuid::simple`: the UUID with these bits, as 32 lower-case hexadecimal digits.
#[verifier::external_body]
fn uuid_simple_text(bits: u128) -> (text: String)
    ensures
        text@ == simple_hex(bits),
{
    uuid::Uuid::from_u128(bits).simple().to_string()
}

/// `bits` are those of a random UUID, as `random_uuid_bits` draws them.
pub closed spec fn drawn(bits: u128) -> bool {
    call_ensures(random_uuid_bits, (), bits)
}

/// The dispatch id for the bits of a UUID.
pub open spec fn dispatch_id_text(bits: u128) -> Seq<char> {
    "send-"@ + simple_hex(bits).take(12)
}

/// The dispatch id for the bits of a UUID: `send-` and its first twelve digits.
pub fn dispatch_id_for(bits: u128) -> (id: String)
    ensures
        id@ == dispatch_id_text(bits),
{
    let simple: String = uuid_simple_text(bits);
    let mut id: String = "send-".to_string();
    id.append(simple.as_str().substring_char(0, 12));
    id
}

/// A fresh id for a send, used by its trace and its acknowledgement alike.
pub fn new_dispatch_id() -> (id: String)
    ensures
        exists|bits: u128| #[trigger] drawn(bits) && id@ == dispatch_id_text(bits),
{
    let bits: u128 = random_uuid_bits();
    assert(drawn(bits));
    dispatch_id_for(bits)
}

/// Law: every dispatch id is `send-` and twelve lower-case hexadecimal digits.
pub proof fn law_dispatch_id_shape(bits: u128)
    ensures
        dispatch_id_text(bits).len() == 17,
        dispatch_id_text(bits).take(5) == "send-"@,
        forall|i: int|
            5 <= i < 17 ==> ('0' <= #[trigger] dispatch_id_text(bits)[i] <= '9' || 'a'
                <= dispatch_id_text(bits)[i] <= 'f'),
{
    reveal_strlit("send-");
    let id = dispatch_id_text(bits);
    assert(id.take(5) =~= "send-"@);
    assert forall|i: int| 5 <= i < 17 implies ('0' <= #[trigger] id[i] <= '9' || 'a' <= id[i]
        <= 'f') by {
        let d = (bits as int / pow(16, (31 - (i - 5)) as nat)) % 16;
        assert(id[i] == hex_char(d));
        assert(0 <= d < 16);
    }
}

/// Where the first `k` digits of two numbers agree, so do the numbers above the others.
proof fn lemma_digits_fix_the_number(a: u128, b: u128, k: nat)
    requires
        k <= 32,
        forall|i: int| 0 <= i < k ==> simple_hex(a)[i] == simple_hex(b)[i],
    ensures
        a as int / pow(16, (32 - k) as nat) == b as int / pow(16, (32 - k) as nat),
    decreases k,
{
    if k == 0 {
        assert(pow(16, 32) == 0x1_0000_0000_0000_0000_0000_0000_0000_0000int) by {
            reveal(pow);
            reveal_with_fuel(pow, 33);
        }
        assert(a as int / pow(16, 32) == 0);
        assert(b as int / pow(16, 32) == 0);
    } else {
        lemma_digits_fix_the_number(a, b, (k - 1) as nat);
        let e = (32 - k) as nat;
        let low = pow(16, e);
        lemma_pow_positive(16, e);
        assert(pow(16, (e + 1) as nat) == 16 * low) by {
            reveal(pow);
        }
        assert(low * 16 == 16 * low) by (nonlinear_arith);
        lemma_div_denominator(a as int, low, 16);
        lemma_div_denominator(b as int, low, 16);
        let x = a as int / low;
        let y = b as int / low;
        assert(x / 16 == y / 16);
        assert(simple_hex(a)[k - 1] == hex_char(x % 16));
        assert(simple_hex(b)[k - 1] == hex_char(y % 16));
        assert(x % 16 == y % 16);
    }
}

/// Law: two dispatch ids are the same exactly where the first 48 bits of their UUIDs are.
pub proof fn law_dispatch_ids_tell_uuids_apart(a: u128, b: u128)
    ensures
        dispatch_id_text(a) == dispatch_id_text(b) <==> a as int / pow(16, 20) == b as int / pow(
            16,
            20,
        ),
{
    let ta = dispatch_id_text(a);
    let tb = dispatch_id_text(b);
    reveal_strlit("send-");
    if ta == tb {
        assert forall|i: int| 0 <= i < 12 implies simple_hex(a)[i] == simple_hex(b)[i] by {
            assert(ta[i + 5] == simple_hex(a)[i]);
            assert(tb[i + 5] == simple_hex(b)[i]);
        }
        lemma_digits_fix_the_number(a, b, 12);
    }
    if a as int / pow(16, 20) == b as int / pow(16, 20) {
        assert forall|i: int| 0 <= i < 12 implies simple_hex(a)[i] == simple_hex(b)[i] by {
            let e = (31 - i) as nat;
            let rest = (e - 20) as nat;
            lemma_pow_adds(16, 20, rest);
            lemma_pow_positive(16, 20);
            lemma_pow_positive(16, rest);
            lemma_div_denominator(a as int, pow(16, 20), pow(16, rest));
            lemma_div_denominator(b as int, pow(16, 20), pow(16, rest));
        }
        assert(ta =~= tb);
    }
}

/// Marker set at Enter, so that the first draw can measure how long the user waited to see
/// the message taken.
#[derive(Debug)]
pub struct PendingSendUiAck {
    pub dispatch_id: String,
    pub enter_received_at: Instant,
}

impl Clone for PendingSendUiAck {
    fn clone(&self) -> (copy: Self)
        ensures
            copy == *self,
    {
        PendingSendUiAck {
            dispatch_id: self.dispatch_id.clone(),
            enter_received_at: self.enter_received_at,
        }
    }
}

/// That a send was acknowledged on screen, and after how long, for the log.
#[derive(Debug, Clone)]
pub struct UiAck {
    pub dispatch_id: String,
    pub ui_ack_ms: u64,
}

/// The acknowledgement of a send `nanos` nanoseconds after Enter.
pub fn ui_ack_after(pending: PendingSendUiAck, nanos: u128) -> (ack: UiAck)
    ensures
        ack.dispatch_id == pending.dispatch_id,
        ack.ui_ack_ms == millis(nanos as nat),
{
    UiAck { dispatch_id: pending.dispatch_id, ui_ack_ms: whole_millis(nanos) }
}

/// Takes the acknowledgement once a frame has been drawn that shows the message taken: an
/// empty composer or a running request.
pub fn maybe_record_send_ui_ack(
    pending: &mut Option<PendingSendUiAck>,
    composer_empty: bool,
    is_loading: bool,
) -> (ack: Option<UiAck>)
    ensures
        if *old(pending) is Some && (composer_empty || is_loading) {
            &&& *final(pending) is None
            &&& ack is Some
            &&& ack->0.dispatch_id == (*old(pending))->0.dispatch_id
            &&& exists|nanos: u128| #[trigger]
                elapses((*old(pending))->0.enter_received_at, nanos) && ack->0.ui_ack_ms == millis(
                    nanos as nat,
                )
        } else {
            &&& *final(pending) == *old(pending)
            &&& ack is None
        },
{
    maybe_record_send_ui_ack_with_preparing(pending, composer_empty, is_loading, false)
}

/// As `maybe_record_send_ui_ack`; a shown Preparing status acknowledges the message too.
pub fn maybe_record_send_ui_ack_with_preparing(
    pending: &mut Option<PendingSendUiAck>,
    composer_empty: bool,
    is_loading: bool,
    is_preparing: bool,
) -> (ack: Option<UiAck>)
    ensures
        if *old(pending) is Some && (composer_empty || is_loading || is_preparing) {
            &&& *final(pending) is None
            &&& ack is Some
            &&& ack->0.dispatch_id == (*old(pending))->0.dispatch_id
            &&& exists|nanos: u128| #[trigger]
                elapses((*old(pending))->0.enter_received_at, nanos) && ack->0.ui_ack_ms == millis(
                    nanos as nat,
                )
        } else {
            &&& *final(pending) == *old(pending)
            &&& ack is None
        },
{
    if !(composer_empty || is_loading || is_preparing) {
        return None;
    }
    match pending.take() {
        Some(marker) => {
            let nanos: u128 = nanos_since(&marker.enter_received_at);
            assert(elapses(marker.enter_received_at, nanos));
            Some(ui_ack_after(marker, nanos))
        },
        None => None,
    }
}

/// Law: milliseconds are rounded down, and none is lost below `2^64` of them.
pub proof fn law_millis_round_down(nanos: nat)
    requires
        nanos < 0x1_0000_0000_0000_0000 * 1_000_000,
    ensures
        millis(nanos) * 1_000_000 <= nanos < (millis(nanos) + 1) * 1_000_000,
{
}

/// Law: a mark adds one segment behind the others, which lasts from the last mark until now,
/// and leaves the others as they are.
pub proof fn law_mark_times_the_stage(recorded: Recorded, name: &'static str, now: u128)
    ensures
        ({
            let after = recorded.marked(name, now);
            let n = recorded.segments.len();
            &&& after.segments.len() == n + 1
            &&& after.segments.take(n as int) == recorded.segments
            &&& after.segments[n as int].0 == name
            &&& after.last == now
            &&& now >= recorded.last ==> recorded.last + after.segments[n as int].1 == now
            &&& now < recorded.last ==> after.segments[n as int].1 == 0
        }),
{
    assert(recorded.marked(name, now).segments.take(recorded.segments.len() as int)
        =~= recorded.segments);
}

proof fn lemma_some_segment_is_slowest(segments: Seq<(&'static str, u128)>) -> (i: int)
    requires
        segments.len() > 0,
    ensures
        is_slowest(segments, i),
    decreases segments.len(),
{
    let last = segments.len() - 1;
    if segments.len() == 1 {
        0
    } else {
        let front = segments.drop_last();
        let k = lemma_some_segment_is_slowest(front);
        assert(forall|j: int| 0 <= j < front.len() ==> front[j] == segments[j]);
        if segments[last].1 >= segments[k].1 {
            assert forall|j: int| 0 <= j < segments.len() implies (#[trigger] segments[j]).1
                <= segments[last].1 by {
                if j < last {
                    assert(front[j].1 <= front[k].1);
                }
            }
            last
        } else {
            assert forall|j: int| 0 <= j < segments.len() implies (#[trigger] segments[j]).1
                <= segments[k].1 by {
                if j < last {
                    assert(front[j].1 <= front[k].1);
                }
            }
            assert forall|j: int| k < j < segments.len() implies (#[trigger] segments[j]).1
                < segments[k].1 by {
                if j < last {
                    assert(front[j].1 < front[k].1);
                }
            }
            k
        }
    }
}

/// Law: of any segments exactly one is the slowest: none lasts longer, and it is the last one
/// of those that last as long.
pub proof fn law_one_segment_is_slowest(segments: Seq<(&'static str, u128)>) -> (i: int)
    requires
        segments.len() > 0,
    ensures
        is_slowest(segments, i),
        forall|j: int| #[trigger] is_slowest(segments, j) ==> j == i,
        forall|j: int| 0 <= j < segments.len() ==> (#[trigger] segments[j]).1 <= segments[i].1,
        forall|j: int|
            0 <= j < segments.len() && (#[trigger] segments[j]).1 == segments[i].1 ==> j <= i,
{
    let i = lemma_some_segment_is_slowest(segments);
    assert forall|j: int| #[trigger] is_slowest(segments, j) implies j == i by {
        if j < i {
            assert(segments[i].1 < segments[j].1);
        } else if i < j {
            assert(segments[j].1 < segments[i].1);
        }
    }
    i
}

/// Law: the summary line lists each segment by its name and its whole milliseconds, in order,
/// with blanks between them.
pub proof fn law_summary_lists_the_segments(
    segments: Seq<(&'static str, u128)>,
    name: &'static str,
    nanos: u128,
)
    ensures
        segments_text(Seq::empty()) == Seq::<char>::empty(),
        ({
            let shown = name@ + seq!['='] + decimal((nanos / 1_000_000) as nat) + seq!['m', 's'];
            segments_text(segments.push((name, nanos))) == if segments.len() == 0 {
                shown
            } else {
                segments_text(segments) + seq![' '] + shown
            }
        }),
{
    reveal_strlit("=");
    reveal_strlit("ms");
    reveal_strlit(" ");
    assert("="@ =~= seq!['=']);
    assert("ms"@ =~= seq!['m', 's']);
    assert(" "@ =~= seq![' ']);
    let all = segments.push((name, nanos));
    assert(all.drop_last() =~= segments);
    assert(all.last() == (name, nanos));
    if segments.len() == 0 {
        assert(all[0] == (name, nanos));
    }
}

/// Law: tracing is enabled by `1`, and by `true` and `yes` in any case, with white space
/// around them, and by nothing else.
pub proof fn law_tracing_values(before: Seq<char>, value: Seq<char>, after: Seq<char>)
    requires
        forall|i: int| 0 <= i < before.len() ==> white_space(#[trigger] before[i]),
        forall|i: int| 0 <= i < after.len() ==> white_space(#[trigger] after[i]),
        value.len() > 0,
        !white_space(value[0]),
        !white_space(value.last()),
    ensures
        enables_tracing(before + value + after) <==> (value == seq!['1']
            || same_ignoring_ascii_case(value, seq!['t', 'r', 'u', 'e'])
            || same_ignoring_ascii_case(value, seq!['y', 'e', 's'])),
        !enables_tracing(before),
{
    reveal_strlit("1");
    reveal_strlit("true");
    reveal_strlit("yes");
    assert("1"@ =~= seq!['1']);
    assert("true"@ =~= seq!['t', 'r', 'u', 'e']);
    assert("yes"@ =~= seq!['y', 'e', 's']);
    law_trim_undoes_padding(before, value, after);
    law_blank_iff_trimmed_away(before);
}

/// Law: behind the prefix, a dispatch id spells the first twelve digits of its UUID, in
/// order.
pub proof fn law_dispatch_id_spells_the_uuid(bits: u128, i: int)
    requires
        0 <= i < 12,
    ensures
        dispatch_id_text(bits)[5 + i] == simple_hex(bits)[i],
{
    reveal_strlit("send-");
}

} // verus!
