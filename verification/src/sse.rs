//! Server-sent-events framing: parsing event blocks out of a byte stream,
//! and serializing events back to the wire.

use vstd::prelude::*;
use crate::text::sub_at;

verus! {

/// One SSE event: a name and a data payload.
pub struct SseEvent {
    /// The event name (`message` when the block named none).
    pub event_type: String,
    /// The data payload; multiple data lines are joined with newlines.
    pub data: String,
}

/// The mathematical shape of an SSE event.
pub ghost struct SseEventV {
    pub event_type: Seq<char>,
    pub data: Seq<char>,
}

impl View for SseEvent {
    type V = SseEventV;

    open spec fn view(&self) -> SseEventV {
        SseEventV { event_type: self.event_type@, data: self.data@ }
    }
}

impl DeepView for SseEvent {
    type V = SseEventV;

    open spec fn deep_view(&self) -> SseEventV {
        self.view()
    }
}

/// The wire text of an event: `event: <name>\ndata: <data>\n\n`.
pub open spec fn spec_sse_text(e: SseEventV) -> Seq<char> {
    "event: "@ + e.event_type + "\ndata: "@ + e.data + "\n\n"@
}

impl SseEvent {
    /// Serializes the event to its wire text.
    pub fn to_sse_string(&self) -> (r: String)
        ensures
            r@ == spec_sse_text(self@),
    {
        let mut out = String::from_str("event: ");
        out.append(self.event_type.as_str());
        out.append("\ndata: ");
        out.append(self.data.as_str());
        out.append("\n\n");
        out
    }

    /// Serializes the event to wire bytes (the UTF-8 encoding of its text).
    pub fn to_sse_bytes(&self) -> (r: Vec<u8>)
        ensures
            r@ == vstd::utf8::encode_utf8(spec_sse_text(self@)),
    {
        let s = self.to_sse_string();
        let r = s.as_str().as_bytes_vec();
        r
    }
}

// ------------------------------------------------------------------
// Line splitting
// ------------------------------------------------------------------

/// A text split at every newline, as `str::split('\n')` does it: one more
/// piece than there are newlines.
pub open spec fn spec_split_nl(s: Seq<char>) -> Seq<Seq<char>>
    decreases s.len(),
    via spec_split_nl_dec
{
    if !s.contains('\n') {
        seq![s]
    } else {
        let i = s.index_of_first('\n').unwrap();
        seq![s.subrange(0, i)] + spec_split_nl(s.subrange(i + 1, s.len() as int))
    }
}

#[via_fn]
proof fn spec_split_nl_dec(s: Seq<char>) {
    if s.contains('\n') {
        s.index_of_first_ensures('\n');
    }
}

/// A line with one trailing carriage return removed.
pub open spec fn spec_strip_cr(l: Seq<char>) -> Seq<char> {
    if l.len() > 0 && l.last() == '\r' {
        l.drop_last()
    } else {
        l
    }
}

/// The lines of a text, as `str::lines` yields them: split at newlines, a
/// trailing newline produces no final empty line, and a trailing carriage
/// return is removed from each line.
pub open spec fn spec_lines(s: Seq<char>) -> Seq<Seq<char>> {
    if s.len() == 0 {
        Seq::empty()
    } else if s.last() == '\n' {
        spec_split_nl(s.drop_last()).map_values(|l: Seq<char>| spec_strip_cr(l))
    } else {
        spec_split_nl(s).map_values(|l: Seq<char>| spec_strip_cr(l))
    }
}

/// Splits a text into its lines.
pub fn split_lines(s: &str) -> (r: Vec<String>)
    ensures
        r.deep_view() == spec_lines(s@),
{
    let n = s.unicode_len();
    let mut out: Vec<String> = Vec::new();
    if n == 0 {
        proof {
            assert(out.deep_view() =~= spec_lines(s@));
        }
        return out;
    }
    let end: usize = if s.get_char(n - 1) == '\n' {
        n - 1
    } else {
        n
    };
    let ghost body = s@.take(end as int);
    let ghost target = spec_split_nl(body).map_values(|l: Seq<char>| spec_strip_cr(l));
    let mut start: usize = 0;
    let mut i: usize = 0;
    proof {
        assert(body.subrange(0, body.len() as int) =~= body);
        assert(out.deep_view() + spec_split_nl(body).map_values(
            |l: Seq<char>| spec_strip_cr(l),
        ) =~= target);
    }
    while i < end
        invariant
            n == s@.len(),
            end <= n,
            body == s@.take(end as int),
            target == spec_split_nl(body).map_values(|l: Seq<char>| spec_strip_cr(l)),
            start <= i <= end,
            forall|k: int| start <= k < i ==> body[k] != '\n',
            out.deep_view() + spec_split_nl(
                body.subrange(start as int, body.len() as int),
            ).map_values(|l: Seq<char>| spec_strip_cr(l)) == target,
        decreases end - i,
    {
        if s.get_char(i) == '\n' {
            let mut piece_end = i;
            if piece_end > start && s.get_char(piece_end - 1) == '\r' {
                piece_end = piece_end - 1;
            }
            let piece = String::from_str(s.substring_char(start, piece_end));
            let ghost before = out.deep_view();
            let ghost rest = body.subrange(start as int, body.len() as int);
            out.push(piece);
            proof {
                assert(rest.contains('\n')) by {
                    assert(rest[i - start] == '\n');
                }
                rest.index_of_first_ensures('\n');
                let fi = rest.index_of_first('\n').unwrap();
                assert(rest[i - start] == '\n');
                assert forall|k: int| 0 <= k < i - start implies rest[k] != '\n' by {
                    assert(rest[k] == body[start + k]);
                }
                assert(fi == i - start) by {
                    if fi < i - start {
                        assert(rest[fi] != '\n');
                    }
                    if fi > i - start {
                        assert(rest[i - start] != '\n');
                    }
                }
                assert(rest.subrange(0, fi) =~= body.subrange(start as int, i as int));
                assert(spec_strip_cr(body.subrange(start as int, i as int)) =~= piece@);
                assert(rest.subrange(fi + 1, rest.len() as int) =~= body.subrange(
                    i + 1,
                    body.len() as int,
                ));
                assert(out.deep_view() =~= before.push(piece@));
                assert(spec_split_nl(rest) == seq![rest.subrange(0, fi)] + spec_split_nl(
                    rest.subrange(fi + 1, rest.len() as int),
                ));
                assert(spec_split_nl(rest).map_values(|l: Seq<char>| spec_strip_cr(l)) =~= seq![
                    piece@,
                ] + spec_split_nl(body.subrange(i + 1, body.len() as int)).map_values(
                    |l: Seq<char>| spec_strip_cr(l),
                ));
                assert(out.deep_view() + spec_split_nl(
                    body.subrange(i + 1, body.len() as int),
                ).map_values(|l: Seq<char>| spec_strip_cr(l)) =~= target);
            }
            start = i + 1;
        }
        i = i + 1;
    }
    let mut piece_end = end;
    if piece_end > start && s.get_char(piece_end - 1) == '\r' {
        piece_end = piece_end - 1;
    }
    let piece = String::from_str(s.substring_char(start, piece_end));
    let ghost before = out.deep_view();
    let ghost rest = body.subrange(start as int, body.len() as int);
    out.push(piece);
    proof {
        assert(!rest.contains('\n')) by {
            if rest.contains('\n') {
                let k = choose|k: int| 0 <= k < rest.len() && rest[k] == '\n';
                assert(body[start + k] == '\n');
            }
        }
        assert(spec_split_nl(rest) =~= seq![rest]);
        assert(rest =~= body.subrange(start as int, end as int));
        assert(spec_strip_cr(rest) =~= piece@);
        assert(out.deep_view() =~= before.push(piece@));
        assert(spec_split_nl(rest).map_values(|l: Seq<char>| spec_strip_cr(l)) =~= seq![piece@]);
        assert(out.deep_view() =~= target);
        if end < n {
            assert(s@.drop_last() =~= body);
        } else {
            assert(s@ =~= body);
        }
        assert(out.deep_view() =~= spec_lines(s@));
    }
    out
}

// ------------------------------------------------------------------
// Whitespace trimming
// ------------------------------------------------------------------

/// An ASCII whitespace character.
pub open spec fn is_space(c: char) -> bool {
    c == ' ' || c == '\t' || c == '\n' || c == '\r'
}

/// A text with leading whitespace removed.
pub open spec fn spec_trim_start(s: Seq<char>) -> Seq<char>
    decreases s.len(),
{
    if s.len() > 0 && is_space(s.first()) {
        spec_trim_start(s.drop_first())
    } else {
        s
    }
}

/// A text with trailing whitespace removed.
pub open spec fn spec_trim_end(s: Seq<char>) -> Seq<char>
    decreases s.len(),
{
    if s.len() > 0 && is_space(s.last()) {
        spec_trim_end(s.drop_last())
    } else {
        s
    }
}

/// A text with leading and trailing whitespace removed.
pub open spec fn spec_trim(s: Seq<char>) -> Seq<char> {
    spec_trim_end(spec_trim_start(s))
}

proof fn lemma_trim_start_at(s: Seq<char>, a: int)
    requires
        0 <= a <= s.len(),
        forall|k: int| 0 <= k < a ==> is_space(s[k]),
        a == s.len() || !is_space(s[a]),
    ensures
        spec_trim_start(s) == s.subrange(a, s.len() as int),
    decreases a,
{
    if a == 0 {
        if s.len() > 0 && is_space(s.first()) {
            assert(false);
        }
        assert(s.subrange(0, s.len() as int) =~= s);
    } else {
        assert(is_space(s.first()));
        assert(s.drop_first() =~= s.subrange(1, s.len() as int));
        lemma_trim_start_at(s.drop_first(), a - 1);
        assert(s.drop_first().subrange(a - 1, s.drop_first().len() as int) =~= s.subrange(
            a,
            s.len() as int,
        ));
    }
}

proof fn lemma_trim_end_at(s: Seq<char>, b: int)
    requires
        0 <= b <= s.len(),
        forall|k: int| b <= k < s.len() ==> is_space(s[k]),
        b == 0 || !is_space(s[b - 1]),
    ensures
        spec_trim_end(s) == s.subrange(0, b),
    decreases s.len() - b,
{
    if b == s.len() {
        if s.len() > 0 && is_space(s.last()) {
            assert(false);
        }
        assert(s.subrange(0, s.len() as int) =~= s);
    } else {
        assert(is_space(s.last()));
        assert(s.drop_last() =~= s.subrange(0, s.len() - 1));
        lemma_trim_end_at(s.drop_last(), b);
        assert(s.drop_last().subrange(0, b) =~= s.subrange(0, b));
    }
}

fn is_space_exec(c: char) -> (r: bool)
    ensures
        r == is_space(c),
{
    c == ' ' || c == '\t' || c == '\n' || c == '\r'
}

/// Trims ASCII whitespace from both ends of a string.
pub fn trim_str(s: &str) -> (r: String)
    ensures
        r@ == spec_trim(s@),
{
    let n = s.unicode_len();
    let mut a: usize = 0;
    while a < n && is_space_exec(s.get_char(a))
        invariant
            n == s@.len(),
            a <= n,
            forall|k: int| 0 <= k < a ==> is_space(s@[k]),
        decreases n - a,
    {
        a = a + 1;
    }
    let mut b: usize = n;
    while b > a && is_space_exec(s.get_char(b - 1))
        invariant
            n == s@.len(),
            a <= b <= n,
            forall|k: int| b <= k < n ==> is_space(s@[k]),
        decreases b,
    {
        b = b - 1;
    }
    proof {
        lemma_trim_start_at(s@, a as int);
        let mid = s@.subrange(a as int, n as int);
        if b == a {
            lemma_trim_end_at(mid, 0);
        } else {
            assert(!is_space(s@[b - 1]));
            assert forall|k: int| b - a <= k < mid.len() implies is_space(mid[k]) by {
                assert(mid[k] == s@[a + k]);
            }
            assert(mid[b - a - 1] == s@[b - 1]);
            lemma_trim_end_at(mid, b - a);
        }
        assert(mid.subrange(0, b - a) =~= s@.subrange(a as int, b as int));
    }
    String::from_str(s.substring_char(a, b))
}

// ------------------------------------------------------------------
// Event-block parsing
// ------------------------------------------------------------------

/// An event from accumulated name and data; a missing name becomes
/// `message`.
pub open spec fn spec_event_of(etype: Seq<char>, data: Seq<char>) -> SseEventV {
    SseEventV {
        event_type: if etype.len() == 0 {
            "message"@
        } else {
            etype
        },
        data,
    }
}

/// The events parsed from the given lines, starting from accumulated name
/// and data: blank lines terminate events, `event:` lines set the name,
/// `data:` lines accumulate the payload, and a trailing unterminated event
/// is still emitted.
pub open spec fn spec_parse_sse(lines: Seq<Seq<char>>, etype: Seq<char>, data: Seq<char>) -> Seq<
    SseEventV,
>
    decreases lines.len(),
{
    if lines.len() == 0 {
        if etype.len() > 0 || data.len() > 0 {
            seq![spec_event_of(etype, data)]
        } else {
            Seq::empty()
        }
    } else {
        let l = lines.first();
        let rest = lines.drop_first();
        if l.len() == 0 {
            if etype.len() > 0 || data.len() > 0 {
                seq![spec_event_of(etype, data)] + spec_parse_sse(rest, Seq::empty(), Seq::empty())
            } else {
                spec_parse_sse(rest, etype, data)
            }
        } else if sub_at(l, "event: "@, 0) {
            spec_parse_sse(rest, spec_trim(l.subrange(7, l.len() as int)), data)
        } else if sub_at(l, "event:"@, 0) {
            spec_parse_sse(rest, spec_trim(l.subrange(6, l.len() as int)), data)
        } else if sub_at(l, "data: "@, 0) {
            let val = l.subrange(6, l.len() as int);
            spec_parse_sse(rest, etype, if data.len() > 0 {
                data + seq!['\n'] + val
            } else {
                val
            })
        } else if sub_at(l, "data:"@, 0) {
            let val = l.subrange(5, l.len() as int);
            spec_parse_sse(rest, etype, if data.len() > 0 {
                data + seq!['\n'] + val
            } else {
                val
            })
        } else {
            spec_parse_sse(rest, etype, data)
        }
    }
}

/// The events parsed from a raw SSE text chunk.
pub open spec fn spec_parse_sse_events(raw: Seq<char>) -> Seq<SseEventV> {
    spec_parse_sse(spec_lines(raw), Seq::empty(), Seq::empty())
}

/// Parses a raw SSE text chunk into events. Events are separated by blank
/// lines; each has optional `event:` and `data:` lines, and a trailing
/// unterminated event is still emitted.
pub fn parse_sse_events(raw: &str) -> (r: Vec<SseEvent>)
    ensures
        r.deep_view() == spec_parse_sse_events(raw@),
{
    let lines = split_lines(raw);
    let ghost lv = lines.deep_view();
    let mut out: Vec<SseEvent> = Vec::new();
    let mut etype = String::new();
    let mut data = String::new();
    let mut i: usize = 0;
    proof {
        reveal_strlit("event: ");
        reveal_strlit("event:");
        reveal_strlit("data: ");
        reveal_strlit("data:");
        assert(lv.subrange(0, lv.len() as int) =~= lv);
        assert(out.deep_view() + spec_parse_sse(lv, Seq::empty(), Seq::empty())
            =~= spec_parse_sse_events(raw@));
    }
    while i < lines.len()
        invariant
            lv == lines.deep_view(),
            lv.len() == lines@.len(),
            i <= lv.len(),
            out.deep_view() + spec_parse_sse(
                lv.subrange(i as int, lv.len() as int),
                etype@,
                data@,
            ) == spec_parse_sse_events(raw@),
        decreases lv.len() - i,
    {
        proof {
            reveal_strlit("event: ");
            reveal_strlit("event:");
            reveal_strlit("data: ");
            reveal_strlit("data:");
            assert(lv.subrange(i as int, lv.len() as int).first() == lv[i as int]);
            assert(lv.subrange(i as int, lv.len() as int).drop_first() =~= lv.subrange(
                i + 1,
                lv.len() as int,
            ));
            assert(lv[i as int] == lines@[i as int]@);
        }
        let line = &lines[i];
        let ll = line.unicode_len();
        if ll == 0 {
            if etype.unicode_len() > 0 || data.unicode_len() > 0 {
                let ghost e0 = etype@;
                let ghost d0 = data@;
                let ghost before = out.deep_view();
                let ev_name: String = if etype.unicode_len() == 0 {
                    String::from_str("message")
                } else {
                    etype
                };
                out.push(SseEvent { event_type: ev_name, data });
                proof {
                    assert(out.deep_view() =~= before.push(spec_event_of(e0, d0)));
                }
                etype = String::new();
                data = String::new();
                proof {
                    assert(out.deep_view() + spec_parse_sse(
                        lv.subrange(i + 1, lv.len() as int),
                        etype@,
                        data@,
                    ) =~= spec_parse_sse_events(raw@));
                }
            }
        } else if crate::text::str_starts_with(line.as_str(), "event: ") {
            let v = line.substring_char(7, ll);
            etype = trim_str(v);
        } else if crate::text::str_starts_with(line.as_str(), "event:") {
            let v = line.substring_char(6, ll);
            etype = trim_str(v);
        } else if crate::text::str_starts_with(line.as_str(), "data: ") {
            let ghost d0 = data@;
            let v = line.substring_char(6, ll);
            if data.unicode_len() > 0 {
                crate::text::push_char(&mut data, '\n');
                data.append(v);
                proof {
                    assert(data@ =~= d0 + seq!['\n'] + v@);
                }
            } else {
                data = String::from_str(v);
            }
        } else if crate::text::str_starts_with(line.as_str(), "data:") {
            let ghost d0 = data@;
            let v = line.substring_char(5, ll);
            if data.unicode_len() > 0 {
                crate::text::push_char(&mut data, '\n');
                data.append(v);
                proof {
                    assert(data@ =~= d0 + seq!['\n'] + v@);
                }
            } else {
                data = String::from_str(v);
            }
        }
        i = i + 1;
    }
    proof {
        assert(lv.subrange(lv.len() as int, lv.len() as int) =~= Seq::<Seq<char>>::empty());
    }
    if etype.unicode_len() > 0 || data.unicode_len() > 0 {
        let ghost e0 = etype@;
        let ghost d0 = data@;
        let ghost before = out.deep_view();
        let ev_name: String = if etype.unicode_len() == 0 {
            String::from_str("message")
        } else {
            etype
        };
        out.push(SseEvent { event_type: ev_name, data });
        proof {
            assert(out.deep_view() =~= before.push(spec_event_of(e0, d0)));
            assert(out.deep_view() =~= spec_parse_sse_events(raw@));
        }
    }
    out
}

// ------------------------------------------------------------------
// Byte-to-event boundary handling
// ------------------------------------------------------------------

/// The first position at or after `k` where a blank-line separator
/// (`\n\n`) starts, if any.
pub open spec fn find_sep_from(s: Seq<char>, k: int) -> Option<int>
    decreases s.len() + 1 - k,
    when 0 <= k
{
    if k + 2 > s.len() {
        None
    } else if s[k] == '\n' && s[k + 1] == '\n' {
        Some(k)
    } else {
        find_sep_from(s, k + 1)
    }
}

/// What `find_sep_from` returns: the least separator position at or after
/// `k`, or nothing when there is none.
pub proof fn lemma_find_sep(s: Seq<char>, k: int)
    requires
        0 <= k,
    ensures
        match find_sep_from(s, k) {
            Some(p) => k <= p && p + 2 <= s.len() && s[p] == '\n' && s[p + 1] == '\n'
                && forall|q: int| k <= q < p ==> !((#[trigger] s[q]) == '\n' && s[q + 1] == '\n'),
            None => forall|q: int| k <= q && q + 2 <= s.len() ==> !((#[trigger] s[q]) == '\n'
                && s[q + 1] == '\n'),
        },
    decreases s.len() + 1 - k,
{
    if k + 2 > s.len() {
    } else if s[k] == '\n' && s[k + 1] == '\n' {
    } else {
        lemma_find_sep(s, k + 1);
    }
}

/// The complete event blocks drained from a buffer, and the bytes left
/// behind: each block runs up to a blank-line separator (which is kept on
/// the emitted block), blocks of pure whitespace are dropped, and the
/// remainder holds no separator.
pub open spec fn spec_drain(buf: Seq<char>) -> (Seq<Seq<char>>, Seq<char>)
    decreases buf.len(),
    via spec_drain_dec
{
    match find_sep_from(buf, 0) {
        None => (Seq::empty(), buf),
        Some(p) => {
            let block = buf.subrange(0, p);
            let rest = buf.subrange(p + 2, buf.len() as int);
            let tail = spec_drain(rest);
            ((if spec_trim(block).len() > 0 {
                seq![block + "\n\n"@]
            } else {
                Seq::empty()
            }) + tail.0, tail.1)
        },
    }
}

#[via_fn]
proof fn spec_drain_dec(buf: Seq<char>) {
    lemma_find_sep(buf, 0);
}

/// Line buffer accumulating SSE bytes across network chunk boundaries;
/// complete event blocks (ending in a blank line) are handed out, partial
/// trailing bytes stay buffered.
pub struct SseLineBuffer {
    buf: String,
}

impl View for SseLineBuffer {
    type V = Seq<char>;

    closed spec fn view(&self) -> Seq<char> {
        self.buf@
    }
}

impl SseLineBuffer {
    /// An empty buffer.
    pub fn new() -> (r: SseLineBuffer)
        ensures
            r@ == Seq::<char>::empty(),
    {
        SseLineBuffer { buf: String::new() }
    }

    /// Feeds a chunk of text; returns the event blocks that are now
    /// complete, each ending with its blank-line separator. No event block
    /// is handed out before its separator has fully arrived.
    pub fn feed(&mut self, chunk: &str) -> (r: Vec<String>)
        ensures
            r.deep_view() == spec_drain(old(self)@ + chunk@).0,
            final(self)@ == spec_drain(old(self)@ + chunk@).1,
    {
        self.buf.append(chunk);
        let ghost whole = self.buf@;
        let mut results: Vec<String> = Vec::new();
        proof {
            assert(whole =~= old(self)@ + chunk@);
        }
        loop
            invariant
                results.deep_view() + spec_drain(self.buf@).0 == spec_drain(whole).0,
                spec_drain(self.buf@).1 == spec_drain(whole).1,
            ensures
                find_sep_from(self.buf@, 0) is None,
            decreases self.buf@.len(),
        {
            let bv = crate::text::chars_vec(self.buf.as_str());
            let mut sep: Vec<char> = Vec::new();
            sep.push('\n');
            sep.push('\n');
            proof {
                reveal_strlit("\n\n");
                assert(sep@ =~= "\n\n"@);
                lemma_find_sep(self.buf@, 0);
            }
            match crate::text::find_sub(&bv, &sep) {
                Some(pos) => {
                    proof {
                        assert(crate::text::sub_at(self.buf@, "\n\n"@, pos as int));
                        assert(self.buf@.subrange(pos as int, pos + 2) == "\n\n"@);
                        assert(self.buf@[pos as int] == '\n' && self.buf@[pos + 1] == '\n') by {
                            assert(self.buf@.subrange(pos as int, pos + 2)[0] == '\n');
                            assert(self.buf@.subrange(pos as int, pos + 2)[1] == '\n');
                        }
                        assert forall|q: int| 0 <= q < pos implies !((#[trigger] self.buf@[q])
                            == '\n' && self.buf@[q + 1] == '\n') by {
                            if self.buf@[q] == '\n' && self.buf@[q + 1] == '\n' {
                                assert(self.buf@.subrange(q, q + 2) =~= "\n\n"@);
                                assert(crate::text::sub_at(self.buf@, "\n\n"@, q));
                            }
                        }
                        assert(find_sep_from(self.buf@, 0) == Some(pos as int)) by {
                            lemma_find_sep(self.buf@, 0);
                            match find_sep_from(self.buf@, 0) {
                                Some(p) => {
                                    if p < pos {
                                    } else if p > pos {
                                    }
                                },
                                None => {},
                            }
                        }
                    }
                    let n = self.buf.unicode_len();
                    let block = String::from_str(self.buf.substring_char(0, pos));
                    let rest = String::from_str(self.buf.substring_char(pos + 2, n));
                    let ghost old_buf = self.buf@;
                    self.buf = rest;
                    let t = trim_str(block.as_str());
                    if t.unicode_len() > 0 {
                        let mut blk = block;
                        blk.append("\n\n");
                        let ghost before = results.deep_view();
                        results.push(blk);
                        proof {
                            reveal_strlit("\n\n");
                            assert(results.deep_view() =~= before.push(
                                old_buf.subrange(0, pos as int) + "\n\n"@,
                            ));
                            assert(results.deep_view() + spec_drain(self.buf@).0 =~= spec_drain(
                                whole,
                            ).0);
                        }
                    } else {
                        proof {
                            assert(results.deep_view() + spec_drain(self.buf@).0 =~= spec_drain(
                                whole,
                            ).0);
                        }
                    }
                },
                None => {
                    proof {
                        reveal_strlit("\n\n");
                        assert forall|q: int| 0 <= q && q + 2 <= self.buf@.len() implies !((
                        #[trigger] self.buf@[q]) == '\n' && self.buf@[q + 1] == '\n') by {
                            if self.buf@[q] == '\n' && self.buf@[q + 1] == '\n' {
                                assert(self.buf@.subrange(q, q + 2) =~= "\n\n"@);
                                assert(crate::text::sub_at(self.buf@, "\n\n"@, q));
                                assert(crate::text::has_sub(self.buf@, "\n\n"@));
                            }
                        }
                        assert(find_sep_from(self.buf@, 0) is None) by {
                            lemma_find_sep(self.buf@, 0);
                            match find_sep_from(self.buf@, 0) {
                                Some(p) => {
                                    assert(!(self.buf@[p] == '\n' && self.buf@[p + 1] == '\n'));
                                },
                                None => {},
                            }
                        }
                        assert(results.deep_view() =~= spec_drain(whole).0);
                    }
                    break;
                },
            }
        }
        proof {
            assert(results.deep_view() =~= spec_drain(whole).0);
        }
        results
    }
}

/// What draining leaves behind holds no complete separator: every real
/// buffer state satisfies this.
pub proof fn lemma_drain_remainder_clean(s: Seq<char>)
    ensures
        find_sep_from(spec_drain(s).1, 0) is None,
    decreases s.len(),
{
    lemma_find_sep(s, 0);
    match find_sep_from(s, 0) {
        None => {},
        Some(p) => {
            lemma_drain_remainder_clean(s.subrange(p + 2, s.len() as int));
        },
    }
}

/// The concatenation of a chunk list, in order.
pub open spec fn concat_chunks(chunks: Seq<Seq<char>>) -> Seq<char>
    decreases chunks.len(),
{
    if chunks.len() == 0 {
        Seq::empty()
    } else {
        chunks.first() + concat_chunks(chunks.drop_first())
    }
}

/// The blocks and final buffer after feeding a list of chunks, one by one,
/// to a buffer in the given state.
pub open spec fn spec_feed_all(buf: Seq<char>, chunks: Seq<Seq<char>>) -> (
    Seq<Seq<char>>,
    Seq<char>,
)
    decreases chunks.len(),
{
    if chunks.len() == 0 {
        (Seq::empty(), buf)
    } else {
        let first = spec_drain(buf + chunks.first());
        let rest = spec_feed_all(first.1, chunks.drop_first());
        (first.0 + rest.0, rest.1)
    }
}

/// Feeding any partition of a byte stream, chunk by chunk, yields the same
/// blocks in the same order and the same trailing buffer as feeding the
/// whole stream at once: the client-visible output is invariant under how
/// the upstream bytes are split.
pub proof fn lemma_feed_partition_invariance(buf: Seq<char>, chunks: Seq<Seq<char>>)
    requires
        find_sep_from(buf, 0) is None,
    ensures
        spec_feed_all(buf, chunks) == spec_drain(buf + concat_chunks(chunks)),
    decreases chunks.len(),
{
    if chunks.len() == 0 {
        assert(buf + concat_chunks(chunks) =~= buf);
        assert(spec_drain(buf) == (Seq::<Seq<char>>::empty(), buf));
        assert(spec_feed_all(buf, chunks) =~= spec_drain(buf + concat_chunks(chunks)));
    } else {
        let c = chunks.first();
        let rest = chunks.drop_first();
        let first = spec_drain(buf + c);
        lemma_drain_remainder_clean(buf + c);
        lemma_feed_partition_invariance(first.1, rest);
        assert(buf + concat_chunks(chunks) =~= (buf + c) + concat_chunks(rest));
        lemma_drain_append(buf + c, concat_chunks(rest));
        assert(spec_feed_all(buf, chunks) =~= spec_drain(buf + concat_chunks(chunks)));
    }
}

/// Feeding a stream in two chunks yields the same blocks, in the same
/// order, and the same trailing buffer as feeding it at once.
pub proof fn lemma_feed_split_invariance(buf: Seq<char>, c1: Seq<char>, c2: Seq<char>)
    ensures
        spec_drain(buf + (c1 + c2)).0 == spec_drain(buf + c1).0 + spec_drain(
            spec_drain(buf + c1).1 + c2,
        ).0,
        spec_drain(buf + (c1 + c2)).1 == spec_drain(spec_drain(buf + c1).1 + c2).1,
{
    assert(buf + (c1 + c2) =~= (buf + c1) + c2);
    lemma_drain_append(buf + c1, c2);
}

/// Draining `s + t` produces the blocks of `s` followed by the blocks of
/// `s`'s remainder concatenated with `t`.
proof fn lemma_drain_append(s: Seq<char>, t: Seq<char>)
    ensures
        spec_drain(s + t).0 == spec_drain(s).0 + spec_drain(spec_drain(s).1 + t).0,
        spec_drain(s + t).1 == spec_drain(spec_drain(s).1 + t).1,
    decreases s.len(),
{
    lemma_find_sep(s, 0);
    match find_sep_from(s, 0) {
        None => {
            assert(spec_drain(s).0 =~= Seq::<Seq<char>>::empty());
            assert(spec_drain(s).1 == s);
            assert(spec_drain(s).0 + spec_drain(s + t).0 =~= spec_drain(s + t).0);
        },
        Some(p) => {
            let st = s + t;
            lemma_find_sep(st, 0);
            assert(st[p] == '\n' && st[p + 1] == '\n');
            assert forall|q: int| 0 <= q < p implies !((#[trigger] st[q]) == '\n' && st[q + 1]
                == '\n') by {
                assert(st[q] == s[q] && st[q + 1] == s[q + 1]);
            }
            assert(find_sep_from(st, 0) == Some(p)) by {
                match find_sep_from(st, 0) {
                    Some(p2) => {
                        if p2 < p {
                        } else if p2 > p {
                        }
                    },
                    None => {},
                }
            }
            let block = s.subrange(0, p);
            let rest = s.subrange(p + 2, s.len() as int);
            assert(st.subrange(0, p) =~= block);
            assert(st.subrange(p + 2, st.len() as int) =~= rest + t);
            lemma_drain_append(rest, t);
            assert(spec_drain(st).0 =~= spec_drain(s).0 + spec_drain(spec_drain(s).1 + t).0);
        },
    }
}

} // verus!
