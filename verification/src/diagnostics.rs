//! Diagnostic events: their context map, the bounded in-memory store with
//! consecutive-duplicate suppression, and the one-line log format.
use crate::text::{
    char_is_whitespace, chars_of, class_pred, find_sep, first_sep, lead, lead_count,
    lemma_first_sep_unique, lemma_lead_unique, lemma_trail_exists, lemma_trail_unique, push_char,
    range_equals, sep_at, string_from_range, strip, trail, trail_count, CharClass, decimal,
    push_decimal,
};
use std::collections::VecDeque;
use vstd::prelude::*;
use vstd::string::StringExecFns;

verus! {

/// Most events the store keeps; older ones are dropped first.
pub const MAX_EVENTS: usize = 500;

#[derive(Debug, Clone, Copy, PartialEq, Eq, Structural)]
pub enum LogLevel {
    Info,
    Warn,
    Error,
}

#[derive(Debug, Clone, Copy, PartialEq, Eq, Structural)]
pub enum Source {
    UI,
    Worker,
    HID,
    AutoEQ,
}

/// The log-line name of a level.
pub open spec fn level_name(l: LogLevel) -> Seq<char> {
    match l {
        LogLevel::Info => seq!['I', 'N', 'F', 'O'],
        LogLevel::Warn => seq!['W', 'A', 'R', 'N'],
        LogLevel::Error => seq!['E', 'R', 'R', 'O', 'R'],
    }
}

/// The log-line name of a source.
pub open spec fn source_name(s: Source) -> Seq<char> {
    match s {
        Source::UI => seq!['U', 'I'],
        Source::Worker => seq!['W', 'o', 'r', 'k', 'e', 'r'],
        Source::HID => seq!['H', 'I', 'D'],
        Source::AutoEQ => seq!['A', 'u', 't', 'o', 'E', 'Q'],
    }
}

impl LogLevel {
    /// The log-line name of this level.
    pub fn name(&self) -> (s: &'static str)
        ensures
            s@ == level_name(*self),
    {
        proof {
            reveal_strlit("INFO");
            reveal_strlit("WARN");
            reveal_strlit("ERROR");
        }
        match self {
            LogLevel::Info => "INFO",
            LogLevel::Warn => "WARN",
            LogLevel::Error => "ERROR",
        }
    }
}

impl Source {
    /// The log-line name of this source.
    pub fn name(&self) -> (s: &'static str)
        ensures
            s@ == source_name(*self),
    {
        proof {
            reveal_strlit("UI");
            reveal_strlit("Worker");
            reveal_strlit("HID");
            reveal_strlit("AutoEQ");
        }
        match self {
            Source::UI => "UI",
            Source::Worker => "Worker",
            Source::HID => "HID",
            Source::AutoEQ => "AutoEQ",
        }
    }
}

/// Whether key `k` occurs among the entries.
pub open spec fn has_key(entries: Seq<(Seq<char>, Seq<char>)>, k: Seq<char>) -> bool {
    exists|i: int| 0 <= i < entries.len() && #[trigger] entries[i].0 == k
}

/// No key occurs twice.
pub open spec fn keys_distinct(entries: Seq<(Seq<char>, Seq<char>)>) -> bool {
    forall|i: int, j: int|
        0 <= i < entries.len() && 0 <= j < entries.len() && i != j ==> #[trigger] entries[i].0
            != #[trigger] entries[j].0
}

/// The entries after inserting `k -> v`: the value of an existing key is
/// replaced in place, a new key is appended.
pub open spec fn spec_insert(entries: Seq<(Seq<char>, Seq<char>)>, k: Seq<char>, v: Seq<char>) -> Seq<
    (Seq<char>, Seq<char>),
> {
    if has_key(entries, k) {
        let i = choose|i: int| 0 <= i < entries.len() && #[trigger] entries[i].0 == k;
        entries.update(i, (k, v))
    } else {
        entries.push((k, v))
    }
}

/// The value stored under key `k`, if any.
pub open spec fn spec_lookup(entries: Seq<(Seq<char>, Seq<char>)>, k: Seq<char>) -> Option<
    Seq<char>,
> {
    if has_key(entries, k) {
        let i = choose|i: int| 0 <= i < entries.len() && #[trigger] entries[i].0 == k;
        Some(entries[i].1)
    } else {
        None
    }
}

/// Key and value character sequences of string pairs.
pub open spec fn entries_view(v: Seq<(String, String)>) -> Seq<(Seq<char>, Seq<char>)> {
    Seq::new(v.len(), |i: int| (v[i].0@, v[i].1@))
}

/// A key-value context attached to an event: a map from keys to values that
/// remembers insertion order.
#[derive(Debug)]
pub struct DiagnosticContext {
    entries: Vec<(String, String)>,
}

impl DiagnosticContext {
    /// The entries, as key and value character sequences, in insertion order.
    pub closed spec fn view_entries(&self) -> Seq<(Seq<char>, Seq<char>)> {
        entries_view(self.entries@)
    }

    #[verifier::type_invariant]
    closed spec fn inv(&self) -> bool {
        keys_distinct(self.view_entries())
    }

    /// An empty context.
    pub fn new() -> (c: DiagnosticContext)
        ensures
            c.view_entries() == Seq::<(Seq<char>, Seq<char>)>::empty(),
    {
        let c = DiagnosticContext { entries: Vec::new() };
        assert(c.view_entries() =~= Seq::<(Seq<char>, Seq<char>)>::empty());
        c
    }

    /// The number of entries.
    pub fn len(&self) -> (n: usize)
        ensures
            n == self.view_entries().len(),
    {
        self.entries.len()
    }

    /// The key and value of entry `i`.
    pub fn entry(&self, i: usize) -> (r: (&String, &String))
        requires
            i < self.view_entries().len(),
        ensures
            r.0@ == self.view_entries()[i as int].0,
            r.1@ == self.view_entries()[i as int].1,
    {
        let e = &self.entries[i];
        (&e.0, &e.1)
    }

    /// The position of `key` among the entries, if it is there.
    fn position(&self, key: &str) -> (r: Option<usize>)
        ensures
            keys_distinct(self.view_entries()),
            r matches Some(i) ==> i < self.view_entries().len() && self.view_entries()[i as int].0
                == key@,
            r is None ==> !has_key(self.view_entries(), key@),
    {
        proof {
            use_type_invariant(self);
        }
        let k = String::from_str(key);
        let mut i: usize = 0;
        while i < self.entries.len()
            invariant
                i <= self.entries@.len(),
                k@ == key@,
                keys_distinct(self.view_entries()),
                forall|j: int| 0 <= j < i ==> #[trigger] self.view_entries()[j].0 != key@,
            decreases self.entries@.len() - i,
        {
            if self.entries[i].0 == k {
                return Some(i);
            }
            i = i + 1;
        }
        None
    }

    /// The value stored under `key`.
    pub fn get(&self, key: &str) -> (r: Option<&String>)
        ensures
            r matches Some(v) ==> spec_lookup(self.view_entries(), key@) == Some(v@),
            r is None ==> spec_lookup(self.view_entries(), key@) is None,
    {
        match self.position(key) {
            Some(i) => {
                proof {
                    let e = self.view_entries();
                    assert(has_key(e, key@));
                    let c = choose|j: int| 0 <= j < e.len() && #[trigger] e[j].0 == key@;
                    assert(c == i);
                }
                Some(&self.entries[i].1)
            },
            None => None,
        }
    }

    /// Stores `value` under `key`, replacing an existing value.
    pub fn insert(&mut self, key: &str, value: &str)
        ensures
            final(self).view_entries() == spec_insert(old(self).view_entries(), key@, value@),
    {
        let ghost e0 = self.view_entries();
        let pos = self.position(key);
        let mut entries: Vec<(String, String)> = Vec::new();
        std::mem::swap(&mut entries, &mut self.entries);
        assert(entries_view(entries@) == e0);
        match pos {
            Some(i) => {
                entries.set(i, (String::from_str(key), String::from_str(value)));
                proof {
                    assert(has_key(e0, key@));
                    let c = choose|j: int| 0 <= j < e0.len() && #[trigger] e0[j].0 == key@;
                    assert(c == i);
                    assert(entries_view(entries@) =~= e0.update(i as int, (key@, value@)));
                }
            },
            None => {
                entries.push((String::from_str(key), String::from_str(value)));
                assert(entries_view(entries@) =~= e0.push((key@, value@)));
            },
        }
        proof {
            lemma_lookup_after_insert(e0, key@, value@, key@);
        }
        self.entries = entries;
    }
}

/// Reading a key right after storing it gives the stored value.
pub proof fn lemma_lookup_after_insert(
    entries: Seq<(Seq<char>, Seq<char>)>,
    k: Seq<char>,
    v: Seq<char>,
    other: Seq<char>,
)
    requires
        keys_distinct(entries),
    ensures
        keys_distinct(spec_insert(entries, k, v)),
        spec_lookup(spec_insert(entries, k, v), k) == Some(v),
        other != k ==> spec_lookup(spec_insert(entries, k, v), other) == spec_lookup(
            entries,
            other,
        ),
{
    let e2 = spec_insert(entries, k, v);
    if has_key(entries, k) {
        let i = choose|i: int| 0 <= i < entries.len() && #[trigger] entries[i].0 == k;
        assert(e2[i].0 == k);
        assert(has_key(e2, k));
        let j = choose|j: int| 0 <= j < e2.len() && #[trigger] e2[j].0 == k;
        assert(j == i);
        if other != k {
            if has_key(entries, other) {
                let a = choose|a: int| 0 <= a < entries.len() && #[trigger] entries[a].0 == other;
                assert(e2[a].0 == other);
                assert(has_key(e2, other));
            } else {
                if has_key(e2, other) {
                    let b = choose|b: int| 0 <= b < e2.len() && #[trigger] e2[b].0 == other;
                    assert(entries[b].0 == other);
                }
            }
        }
    } else {
        assert(e2[entries.len() as int].0 == k);
        assert(has_key(e2, k));
        if other != k {
            if has_key(entries, other) {
                let a = choose|a: int| 0 <= a < entries.len() && #[trigger] entries[a].0 == other;
                assert(e2[a].0 == other);
                assert(has_key(e2, other));
            } else {
                if has_key(e2, other) {
                    let b = choose|b: int| 0 <= b < e2.len() && #[trigger] e2[b].0 == other;
                    assert(entries[b].0 == other);
                }
            }
        }
    }
}

impl Clone for DiagnosticContext {
    fn clone(&self) -> (c: DiagnosticContext)
        ensures
            c.view_entries() == self.view_entries(),
    {
        proof {
            use_type_invariant(self);
        }
        let mut entries: Vec<(String, String)> = Vec::new();
        let mut i: usize = 0;
        while i < self.entries.len()
            invariant
                i <= self.entries@.len(),
                entries@.len() == i,
                entries_view(entries@) == self.view_entries().subrange(0, i as int),
            decreases self.entries@.len() - i,
        {
            let k = self.entries[i].0.clone();
            let v = self.entries[i].1.clone();
            assert(k@ == self.entries@[i as int].0@);
            assert(v@ == self.entries@[i as int].1@);
            let ghost prev = entries@;
            entries.push((k, v));
            assert forall|j: int| 0 <= j < i implies entries_view(entries@)[j] == entries_view(
                prev,
            )[j] by {
                assert(entries@[j] == prev[j]);
            }
            assert(entries_view(entries@) =~= self.view_entries().subrange(0, i + 1));
            i = i + 1;
        }
        assert(self.view_entries().subrange(0, i as int) =~= self.view_entries());
        DiagnosticContext { entries }
    }
}

/// One diagnostic event: when, how severe, from where, what, and an optional
/// key-value context.
#[derive(Debug)]
pub struct DiagnosticEvent {
    pub timestamp: String,
    pub level: LogLevel,
    pub source: Source,
    pub message: String,
    pub context: Option<DiagnosticContext>,
}

/// The context entries of an event; none without a context.
pub open spec fn event_entries(e: DiagnosticEvent) -> Seq<(Seq<char>, Seq<char>)> {
    match e.context {
        Some(c) => c.view_entries(),
        None => Seq::empty(),
    }
}

/// The `" | key=value"` tail that the context adds to a log line, in entry order.
pub open spec fn context_suffix(entries: Seq<(Seq<char>, Seq<char>)>) -> Seq<char>
    decreases entries.len(),
{
    if entries.len() == 0 {
        Seq::empty()
    } else {
        let (k, v) = entries.last();
        context_suffix(entries.drop_last()) + seq![' ', '|', ' '] + k + seq!['='] + v
    }
}

/// The log line `"{timestamp} [{LEVEL}] [{Source}] {message}"` followed by the
/// context tail.
pub open spec fn log_line(
    ts: Seq<char>,
    level: LogLevel,
    source: Source,
    msg: Seq<char>,
    entries: Seq<(Seq<char>, Seq<char>)>,
) -> Seq<char> {
    ts + seq![' ', '['] + level_name(level) + seq![']', ' ', '['] + source_name(source) + seq![
        ']',
        ' ',
    ] + msg + context_suffix(entries)
}

/// The log line of an event.
pub open spec fn event_log_line(e: DiagnosticEvent) -> Seq<char> {
    log_line(e.timestamp@, e.level, e.source, e.message@, event_entries(e))
}

/// A timestamp made of a date part, one space and a time part, neither part
/// holding a space, the date part non-empty and not starting with whitespace.
pub open spec fn is_two_part_timestamp(ts: Seq<char>) -> bool {
    exists|d: int| #[trigger] space_only_at(ts, d) && 0 < d && !char_is_whitespace(ts[0])
}

/// `ts` holds a space at `d` and nowhere else.
pub open spec fn space_only_at(ts: Seq<char>, d: int) -> bool {
    &&& 0 <= d < ts.len()
    &&& ts[d] == ' '
    &&& forall|j: int| 0 <= j < ts.len() && j != d ==> #[trigger] ts[j] != ' ' 
}

/// A decimal digit.
pub open spec fn is_digit(c: char) -> bool {
    '0' <= c && c <= '9'
}

/// The value of a decimal digit.
pub open spec fn digit_value(c: char) -> int {
    (c as int) - ('0' as int)
}

/// Positions `i` and `i + 1` of `s` hold two digits whose number lies in
/// `lo..=hi`.
pub open spec fn two_digit_field(s: Seq<char>, i: int, lo: int, hi: int) -> bool {
    &&& 0 <= i && i + 1 < s.len()
    &&& is_digit(s[i]) && is_digit(s[i + 1])
    &&& lo <= 10 * digit_value(s[i]) + digit_value(s[i + 1]) <= hi
}

/// A year as chrono's `%Y` writes it: four digits for years 0 to 9999, else a
/// sign followed by at least four digits.
pub open spec fn year_text(y: Seq<char>) -> bool {
    ||| y.len() == 4 && forall|j: int| 0 <= j < 4 ==> #[trigger] is_digit(y[j])
    ||| y.len() >= 5 && (y[0] == '+' || y[0] == '-') && forall|j: int|
        1 <= j < y.len() ==> #[trigger] is_digit(y[j])
}

/// The text of a local time as `%Y-%m-%d %H:%M:%S` writes it, followed when
/// `millis` by `%.3f` (a dot and three digits): month 01 to 12, day 01 to 31,
/// hour 00 to 23, minute 00 to 59 and second 00 to 60.
pub open spec fn is_local_time_text(s: Seq<char>, millis: bool) -> bool {
    let d = s.len() - (if millis { 12int } else { 8int }) - 1;
    &&& d >= 10
    &&& year_text(s.subrange(0, d - 6))
    &&& s[d - 6] == '-'
    &&& two_digit_field(s, d - 5, 1, 12)
    &&& s[d - 3] == '-'
    &&& two_digit_field(s, d - 2, 1, 31)
    &&& s[d] == ' '
    &&& two_digit_field(s, d + 1, 0, 23)
    &&& s[d + 3] == ':'
    &&& two_digit_field(s, d + 4, 0, 59)
    &&& s[d + 6] == ':'
    &&& two_digit_field(s, d + 7, 0, 60)
    &&& millis ==> s[d + 9] == '.' && is_digit(s[d + 10]) && is_digit(s[d + 11]) && is_digit(
        s[d + 12],
    )
}

/// A local time text is a two-part timestamp: its only space separates the
/// date from the time.
pub proof fn lemma_local_time_is_two_part(s: Seq<char>, millis: bool)
    requires
        is_local_time_text(s, millis),
    ensures
        is_two_part_timestamp(s),
{
    let d = s.len() - (if millis { 12int } else { 8int }) - 1;
    let y = s.subrange(0, d - 6);
    assert(y[0] == s[0]);
    assert(is_digit(y[0]) || y[0] == '+' || y[0] == '-');
    assert forall|j: int| 0 <= j < s.len() && j != d implies #[trigger] s[j] != ' ' by {
        if j < d - 6 {
            assert(y[j] == s[j]);
            if j > 0 {
                assert(is_digit(y[j]));
            }
        }
    }
    assert(space_only_at(s, d));
}

/// Calls `chrono::Local::now` and renders it with `%Y-%m-%d %H:%M:%S%.3f`.
/// The instant depends on the clock; the layout that chrono's formatting
/// gives every instant is stated. Like the call it makes, it panics when the
/// system clock reads before 1970 or the local time-zone data cannot be read:
/// a state of the machine, which no precondition can exclude.
#[verifier::external_body]
fn local_timestamp() -> (s: String)
    ensures
        is_local_time_text(s@, true),
{
    chrono::Local::now().format("%Y-%m-%d %H:%M:%S%.3f").to_string()
}

impl DiagnosticEvent {
    /// An event stamped with the current local time, without context.
    pub fn new(level: LogLevel, source: Source, message: &str) -> (e: DiagnosticEvent)
        ensures
            e.level == level,
            e.source == source,
            e.message@ == message@,
            e.context is None,
            is_local_time_text(e.timestamp@, true),
            is_two_part_timestamp(e.timestamp@),
    {
        let ts = local_timestamp();
        proof {
            lemma_local_time_is_two_part(ts@, true);
        }
        DiagnosticEvent::at(ts, level, source, message)
    }

    /// An event with the given timestamp, without context.
    pub fn at(timestamp: String, level: LogLevel, source: Source, message: &str) -> (e:
        DiagnosticEvent)
        ensures
            e.timestamp@ == timestamp@,
            e.level == level,
            e.source == source,
            e.message@ == message@,
            e.context is None,
    {
        DiagnosticEvent {
            timestamp,
            level,
            source,
            message: String::from_str(message),
            context: None,
        }
    }

    /// The event with `value` stored under `key` in its context, which is
    /// created when the event has none.
    pub fn with_context(self, key: &str, value: &str) -> (e: DiagnosticEvent)
        ensures
            e.timestamp@ == self.timestamp@,
            e.level == self.level,
            e.source == self.source,
            e.message@ == self.message@,
            e.context is Some,
            event_entries(e) == spec_insert(event_entries(self), key@, value@),
    {
        let mut e = self;
        let mut ctx = match e.context {
            Some(c) => c,
            None => DiagnosticContext::new(),
        };
        ctx.insert(key, value);
        e.context = Some(ctx);
        e
    }
}

impl Clone for DiagnosticEvent {
    fn clone(&self) -> (e: DiagnosticEvent)
        ensures
            e.timestamp@ == self.timestamp@,
            e.level == self.level,
            e.source == self.source,
            e.message@ == self.message@,
            e.context is Some <==> self.context is Some,
            event_entries(e) == event_entries(*self),
    {
        DiagnosticEvent {
            timestamp: self.timestamp.clone(),
            level: self.level,
            source: self.source,
            message: self.message.clone(),
            context: match &self.context {
                Some(c) => Some(c.clone()),
                None => None,
            },
        }
    }
}

/// The one-line log form of an event:
/// `"{timestamp} [{LEVEL}] [{Source}] {message}"`, then `" | key=value"` for
/// each context entry.
pub fn format_diagnostic_log_line(event: &DiagnosticEvent) -> (line: String)
    ensures
        line@ == event_log_line(*event),
{
    let mut line = event.timestamp.clone();
    push_char(&mut line, ' ');
    push_char(&mut line, '[');
    line.append(event.level.name());
    push_char(&mut line, ']');
    push_char(&mut line, ' ');
    push_char(&mut line, '[');
    line.append(event.source.name());
    push_char(&mut line, ']');
    push_char(&mut line, ' ');
    line.append(event.message.as_str());
    let ghost base = line@;
    assert(base =~= event.timestamp@ + seq![' ', '['] + level_name(event.level) + seq![
        ']',
        ' ',
        '[',
    ] + source_name(event.source) + seq![']', ' '] + event.message@);
    let ghost entries = event_entries(*event);
    match &event.context {
        Some(ctx) => {
            let n = ctx.len();
            let mut i: usize = 0;
            while i < n
                invariant
                    n == entries.len(),
                    entries == ctx.view_entries(),
                    i <= n,
                    line@ == base + context_suffix(entries.subrange(0, i as int)),
                decreases n - i,
            {
                let (k, v) = ctx.entry(i);
                push_char(&mut line, ' ');
                push_char(&mut line, '|');
                push_char(&mut line, ' ');
                line.append(k.as_str());
                push_char(&mut line, '=');
                line.append(v.as_str());
                proof {
                    let next = entries.subrange(0, i + 1);
                    assert(next.drop_last() =~= entries.subrange(0, i as int));
                    assert(next.last() == entries[i as int]);
                    assert(line@ =~= base + context_suffix(next));
                }
                i = i + 1;
            }
            assert(entries.subrange(0, n as int) =~= entries);
        },
        None => {
            assert(line@ =~= base + context_suffix(entries));
        },
    }
    line
}

/// The level a bracket-stripped name stands for.
pub open spec fn level_of_name(s: Seq<char>) -> Option<LogLevel> {
    if s == level_name(LogLevel::Info) {
        Some(LogLevel::Info)
    } else if s == level_name(LogLevel::Warn) {
        Some(LogLevel::Warn)
    } else if s == level_name(LogLevel::Error) {
        Some(LogLevel::Error)
    } else {
        None
    }
}

/// The source a bracket-stripped name stands for.
pub open spec fn source_of_name(s: Seq<char>) -> Option<Source> {
    if s == source_name(Source::UI) {
        Some(Source::UI)
    } else if s == source_name(Source::Worker) {
        Some(Source::Worker)
    } else if s == source_name(Source::HID) {
        Some(Source::HID)
    } else if s == source_name(Source::AutoEQ) {
        Some(Source::AutoEQ)
    } else {
        None
    }
}

/// `s` cut at its first space into the part before and the part after it;
/// `None` when it holds no space.
pub open spec fn cut_at_space(s: Seq<char>) -> Option<(Seq<char>, Seq<char>)> {
    let i = lead(s, class_pred(CharClass::NotSpace));
    if i == s.len() {
        None
    } else {
        Some((s.subrange(0, i), s.subrange(i + 1, s.len() as int)))
    }
}

/// The level and source fields, stripped of brackets, read as names.
pub open spec fn read_names(level: Seq<char>, source: Seq<char>) -> Option<(LogLevel, Source)> {
    let br = class_pred(CharClass::Bracket);
    match (level_of_name(strip(level, br)), source_of_name(strip(source, br))) {
        (Some(l), Some(s)) => Some((l, s)),
        _ => None,
    }
}

/// What a log line reads as: the line is trimmed of whitespace and cut at
/// its first four spaces into date, time, level, source and the rest; the
/// level and source lose their surrounding brackets and must name a known
/// level and source; the message is the rest up to its first `" | "`. The
/// result is the timestamp (date, space, time), level, source and message.
pub open spec fn parse_log_line(line: Seq<char>) -> Option<(Seq<char>, LogLevel, Source, Seq<char>)> {
    match cut_at_space(strip(line, class_pred(CharClass::Whitespace))) {
        None => None,
        Some((date, r1)) => match cut_at_space(r1) {
            None => None,
            Some((time, r2)) => match cut_at_space(r2) {
                None => None,
                Some((lv, r3)) => match cut_at_space(r3) {
                    None => None,
                    Some((src, rest)) => match read_names(lv, src) {
                        None => None,
                        Some((level, source)) => Some(
                            (
                                date + seq![' '] + time,
                                level,
                                source,
                                rest.subrange(0, first_sep(rest)),
                            ),
                        ),
                    },
                },
            },
        },
    }
}

/// A window `v[from..to]` cut at `k`: its tail is `v[from + k..to]` and its
/// head is `v[from..from + k]`.
proof fn lemma_window(v: Seq<char>, from: int, to: int, k: int)
    requires
        0 <= from <= to <= v.len(),
        0 <= k <= to - from,
    ensures
        v.subrange(from, to).subrange(k, to - from) == v.subrange(from + k, to),
        v.subrange(from, to).subrange(0, k) == v.subrange(from, from + k),
{
    assert(v.subrange(from, to).subrange(k, to - from) =~= v.subrange(from + k, to));
    assert(v.subrange(from, to).subrange(0, k) =~= v.subrange(from, from + k));
}

/// Reads `v[from..to]`, stripped of brackets, as a level name.
fn level_in(v: &Vec<char>, from: usize, to: usize) -> (r: Option<LogLevel>)
    requires
        from <= to <= v@.len(),
    ensures
        r == level_of_name(strip(v@.subrange(from as int, to as int), class_pred(CharClass::Bracket))),
{
    let ghost s = v@.subrange(from as int, to as int);
    let a = from + lead_count(v, from, to, CharClass::Bracket);
    let b = to - trail_count(v, a, to, CharClass::Bracket);
    assert(s.subrange(a - from, s.len() as int) =~= v@.subrange(a as int, to as int));
    assert(strip(s, class_pred(CharClass::Bracket)) =~= v@.subrange(a as int, b as int));
    proof {
        reveal_strlit("INFO");
        reveal_strlit("WARN");
        reveal_strlit("ERROR");
        assert("INFO"@ =~= level_name(LogLevel::Info));
        assert("WARN"@ =~= level_name(LogLevel::Warn));
        assert("ERROR"@ =~= level_name(LogLevel::Error));
    }
    if range_equals(v, a, b, "INFO") {
        Some(LogLevel::Info)
    } else if range_equals(v, a, b, "WARN") {
        Some(LogLevel::Warn)
    } else if range_equals(v, a, b, "ERROR") {
        Some(LogLevel::Error)
    } else {
        None
    }
}

/// Reads `v[from..to]`, stripped of brackets, as a source name.
fn source_in(v: &Vec<char>, from: usize, to: usize) -> (r: Option<Source>)
    requires
        from <= to <= v@.len(),
    ensures
        r == source_of_name(strip(v@.subrange(from as int, to as int), class_pred(CharClass::Bracket))),
{
    let ghost s = v@.subrange(from as int, to as int);
    let a = from + lead_count(v, from, to, CharClass::Bracket);
    let b = to - trail_count(v, a, to, CharClass::Bracket);
    assert(s.subrange(a - from, s.len() as int) =~= v@.subrange(a as int, to as int));
    assert(strip(s, class_pred(CharClass::Bracket)) =~= v@.subrange(a as int, b as int));
    proof {
        reveal_strlit("UI");
        reveal_strlit("Worker");
        reveal_strlit("HID");
        reveal_strlit("AutoEQ");
        assert("UI"@ =~= source_name(Source::UI));
        assert("Worker"@ =~= source_name(Source::Worker));
        assert("HID"@ =~= source_name(Source::HID));
        assert("AutoEQ"@ =~= source_name(Source::AutoEQ));
    }
    if range_equals(v, a, b, "UI") {
        Some(Source::UI)
    } else if range_equals(v, a, b, "Worker") {
        Some(Source::Worker)
    } else if range_equals(v, a, b, "HID") {
        Some(Source::HID)
    } else if range_equals(v, a, b, "AutoEQ") {
        Some(Source::AutoEQ)
    } else {
        None
    }
}

/// Finds the first space of `v[from..to]`.
fn cut_space(v: &Vec<char>, from: usize, to: usize) -> (r: Option<usize>)
    requires
        from <= to <= v@.len(),
    ensures
        match r {
            None => cut_at_space(v@.subrange(from as int, to as int)) is None,
            Some(i) => from <= i < to && cut_at_space(v@.subrange(from as int, to as int)) == Some(
                (v@.subrange(from as int, i as int), v@.subrange(i + 1, to as int)),
            ) && v@[i as int] == ' ',
        },
{
    let i = from + lead_count(v, from, to, CharClass::NotSpace);
    if i == to {
        None
    } else {
        proof {
            lemma_window(v@, from as int, to as int, i - from);
            lemma_window(v@, from as int, to as int, i - from + 1);
            assert(v@.subrange(from as int, to as int)[i - from] == v@[i as int]);
        }
        Some(i)
    }
}

/// Reads the level and source fields `v[l0..l1]` and `v[s0..s1]`.
fn names_in(v: &Vec<char>, l0: usize, l1: usize, s0: usize, s1: usize) -> (r: Option<
    (LogLevel, Source),
>)
    requires
        l0 <= l1 <= v@.len(),
        s0 <= s1 <= v@.len(),
    ensures
        r == read_names(v@.subrange(l0 as int, l1 as int), v@.subrange(s0 as int, s1 as int)),
{
    let level = level_in(v, l0, l1);
    let source = source_in(v, s0, s1);
    match (level, source) {
        (Some(l), Some(s)) => Some((l, s)),
        _ => None,
    }
}

/// Reads a log line back into an event without context (see
/// `parse_log_line`); `None` when the line has fewer than five space-separated
/// parts or names an unknown level or source.
pub fn parse_diagnostic_log_line(line: &str) -> (r: Option<DiagnosticEvent>)
    ensures
        match r {
            Some(e) => parse_log_line(line@) == Some((e.timestamp@, e.level, e.source, e.message@))
                && e.context is None,
            None => parse_log_line(line@) is None,
        },
{
    let v = chars_of(line);
    let n = v.len();
    let a = lead_count(&v, 0, n, CharClass::Whitespace);
    let b = n - trail_count(&v, a, n, CharClass::Whitespace);
    proof {
        assert(v@.subrange(0, n as int) =~= line@);
        lemma_window(v@, 0, n as int, a as int);
        lemma_window(v@, a as int, n as int, b - a);
    }
    let i1 = match cut_space(&v, a, b) {
        Some(i) => i,
        None => {
            return None;
        },
    };
    let i2 = match cut_space(&v, i1 + 1, b) {
        Some(i) => i,
        None => {
            return None;
        },
    };
    let i3 = match cut_space(&v, i2 + 1, b) {
        Some(i) => i,
        None => {
            return None;
        },
    };
    let i4 = match cut_space(&v, i3 + 1, b) {
        Some(i) => i,
        None => {
            return None;
        },
    };
    let (level, source) = match names_in(&v, i2 + 1, i3, i3 + 1, i4) {
        Some(p) => p,
        None => {
            return None;
        },
    };
    let m = i4 + 1 + find_sep(&v, i4 + 1, b);
    let timestamp = string_from_range(&v, a, i2);
    let message = string_from_range(&v, i4 + 1, m);
    proof {
        lemma_window(v@, i4 + 1, b as int, m - i4 - 1);
        assert(timestamp@ =~= v@.subrange(a as int, i1 as int) + seq![' '] + v@.subrange(
            i1 + 1,
            i2 as int,
        ));
    }
    Some(DiagnosticEvent { timestamp, level, source, message, context: None })
}

/// No space or bracket in `s`.
pub open spec fn plain(s: Seq<char>) -> bool {
    forall|j: int| 0 <= j < s.len() ==> #[trigger] s[j] != ' ' && s[j] != '[' && s[j] != ']'
}

/// Whether a message comes back unchanged from its log line: it holds no
/// `" | "`; behind it comes `" | "` when the event has context entries, so it
/// must not end in `" |"` then; without entries it ends the line, which is
/// trimmed, so it must be non-empty and not end in whitespace.
pub open spec fn message_survives(msg: Seq<char>, has_entries: bool) -> bool {
    &&& forall|j: int| !#[trigger] sep_at(msg, j)
    &&& has_entries ==> !(msg.len() >= 2 && msg[msg.len() - 2] == ' ' && msg[msg.len() - 1]
        == '|')
    &&& !has_entries ==> msg.len() > 0 && !char_is_whitespace(msg[msg.len() - 1])
}

proof fn lemma_names_plain(l: LogLevel, s: Source)
    ensures
        plain(level_name(l)),
        plain(source_name(s)),
        level_name(l).len() > 0,
        source_name(s).len() > 0,
        level_of_name(level_name(l)) == Some(l),
        source_of_name(source_name(s)) == Some(s),
{
    assert(level_name(LogLevel::Info)[0] == 'I');
    assert(level_name(LogLevel::Warn)[0] == 'W');
    assert(level_name(LogLevel::Error)[0] == 'E');
    assert(source_name(Source::UI)[0] == 'U');
    assert(source_name(Source::Worker)[0] == 'W');
    assert(source_name(Source::HID)[0] == 'H');
    assert(source_name(Source::AutoEQ)[0] == 'A');
}

/// Cutting `a + " " + b` at its first space gives `a` and `b` when `a` holds
/// no space.
proof fn lemma_cut_at(a: Seq<char>, b: Seq<char>)
    requires
        forall|j: int| 0 <= j < a.len() ==> #[trigger] a[j] != ' ',
    ensures
        cut_at_space(a + seq![' '] + b) == Some((a, b)),
{
    let s = a + seq![' '] + b;
    let ns = class_pred(CharClass::NotSpace);
    assert forall|j: int| 0 <= j < a.len() implies #[trigger] ns(s[j]) by {
        assert(s[j] == a[j]);
    }
    assert(s[a.len() as int] == ' ');
    lemma_lead_unique(s, ns, a.len() as int);
    assert(s.subrange(0, a.len() as int) =~= a);
    assert(s.subrange(a.len() as int + 1, s.len() as int) =~= b);
}

/// `"[" + name + "]"` loses exactly its two brackets.
proof fn lemma_strip_brackets(name: Seq<char>)
    requires
        name.len() > 0,
        plain(name),
    ensures
        strip(seq!['['] + name + seq![']'], class_pred(CharClass::Bracket)) == name,
{
    let br = class_pred(CharClass::Bracket);
    let s = seq!['['] + name + seq![']'];
    assert(s[0] == '[');
    assert(s[1] == name[0]);
    lemma_lead_unique(s, br, 1);
    let rest = s.subrange(1, s.len() as int);
    assert(rest =~= name + seq![']']);
    assert(rest[rest.len() - 1] == ']');
    assert(rest[rest.len() - 2] == name[name.len() - 1]);
    lemma_trail_unique(rest, br, 1);
    assert(rest.subrange(0, rest.len() - 1) =~= name);
}

/// A context tail starts with `" | "` and has `'='` right before the last value.
proof fn lemma_suffix_shape(entries: Seq<(Seq<char>, Seq<char>)>)
    requires
        entries.len() > 0,
    ensures
        ({
            let suf = context_suffix(entries);
            let eq = suf.len() - entries.last().1.len() - 1;
            &&& 3 <= eq < suf.len()
            &&& suf[0] == ' ' && suf[1] == '|' && suf[2] == ' '
            &&& suf[eq] == '='
        }),
    decreases entries.len(),
{
    let pre = entries.drop_last();
    let (k, v) = entries.last();
    let suf = context_suffix(entries);
    let head = context_suffix(pre);
    assert(suf == head + seq![' ', '|', ' '] + k + seq!['='] + v);
    assert(suf[suf.len() - v.len() - 1] == '=');
    if pre.len() > 0 {
        lemma_suffix_shape(pre);
        assert(suf[0] == head[0] && suf[1] == head[1] && suf[2] == head[2]);
    } else {
        assert(head.len() == 0);
    }
}

/// Trimming `front + msg + tail` removes nothing from `front` or `msg`: at
/// most the trailing whitespace of the last context value goes.
proof fn lemma_trimmed(
    front: Seq<char>,
    msg: Seq<char>,
    entries: Seq<(Seq<char>, Seq<char>)>,
) -> (kept: Seq<char>)
    requires
        front.len() > 0,
        !char_is_whitespace(front[0]),
        message_survives(msg, entries.len() > 0),
    ensures
        strip(front + msg + context_suffix(entries), class_pred(CharClass::Whitespace)) == front
            + msg + kept,
        entries.len() == 0 ==> kept.len() == 0,
        entries.len() > 0 ==> kept.len() >= 3 && kept[0] == ' ' && kept[1] == '|' && kept[2]
            == ' ',
{
    let ws = class_pred(CharClass::Whitespace);
    let suf = context_suffix(entries);
    let line = front + msg + suf;
    assert(line[0] == front[0]);
    lemma_lead_unique(line, ws, 0);
    assert(line.subrange(0, line.len() as int) =~= line);
    lemma_trail_exists(line, ws);
    let n0 = trail(line, ws);
    if entries.len() == 0 {
        assert(suf.len() == 0);
        assert(line[line.len() - 1] == msg[msg.len() - 1]);
        lemma_trail_unique(line, ws, 0);
    } else {
        lemma_suffix_shape(entries);
        let eq = suf.len() - entries.last().1.len() - 1;
        let at = front.len() + msg.len() + eq;
        assert(line[at] == '=');
        if n0 > line.len() - at - 1 {
            assert(ws(line[at]));
        }
    }
    let kept = suf.subrange(0, suf.len() - n0);
    assert(line.subrange(0, line.len() - n0) =~= front + msg + kept);
    kept
}

/// The message is everything before the first `" | "` of `msg + kept`.
proof fn lemma_message_cut(msg: Seq<char>, kept: Seq<char>, has_entries: bool)
    requires
        message_survives(msg, has_entries),
        !has_entries ==> kept.len() == 0,
        has_entries ==> kept.len() >= 3 && kept[0] == ' ' && kept[1] == '|' && kept[2] == ' ',
    ensures
        (msg + kept).subrange(0, first_sep(msg + kept)) == msg,
{
    let rest = msg + kept;
    if !has_entries {
        assert(rest =~= msg);
        assert forall|j: int| 0 <= j < msg.len() implies !#[trigger] sep_at(rest, j) by {
            assert(!sep_at(msg, j));
        }
    } else {
        assert forall|j: int| 0 <= j < msg.len() implies !#[trigger] sep_at(rest, j) by {
            if j + 3 <= msg.len() {
                assert(!sep_at(msg, j));
                assert(rest[j] == msg[j] && rest[j + 1] == msg[j + 1] && rest[j + 2] == msg[j
                    + 2]);
            } else if j + 2 == msg.len() {
                assert(rest[j + 2] == kept[0]);
            } else {
                assert(rest[j + 1] == kept[0]);
            }
        }
        assert(sep_at(rest, msg.len() as int));
    }
    lemma_first_sep_unique(rest, msg.len() as int);
    assert(rest.subrange(0, msg.len() as int) =~= msg);
}

/// Reading back the log line of an event gives its timestamp, level, source
/// and message when its timestamp is a date and a time joined by its
/// only space and does not start with whitespace, and its message survives
/// the line (see `message_survives`).
pub proof fn lemma_log_line_roundtrip(e: DiagnosticEvent)
    requires
        is_two_part_timestamp(e.timestamp@),
        message_survives(e.message@, event_entries(e).len() > 0),
    ensures
        parse_log_line(event_log_line(e)) == Some((e.timestamp@, e.level, e.source, e.message@)),
{
    let ts = e.timestamp@;
    let msg = e.message@;
    let ent = event_entries(e);
    let d = choose|d: int| #[trigger] space_only_at(ts, d) && 0 < d && !char_is_whitespace(ts[0]);
    let date = ts.subrange(0, d);
    let time = ts.subrange(d + 1, ts.len() as int);
    let ln = level_name(e.level);
    let sn = source_name(e.source);
    let lb = seq!['['] + ln + seq![']'];
    let sb = seq!['['] + sn + seq![']'];
    lemma_names_plain(e.level, e.source);
    assert(ts =~= date + seq![' '] + time);
    let front = date + seq![' '] + time + seq![' '] + lb + seq![' '] + sb + seq![' '];
    assert(event_log_line(e) =~= front + msg + context_suffix(ent));
    assert(front[0] == ts[0]);
    let kept = lemma_trimmed(front, msg, ent);
    let rest = msg + kept;
    assert(front + msg + kept =~= date + seq![' '] + (time + seq![' '] + (lb + seq![' '] + (sb
        + seq![' '] + rest))));
    assert forall|j: int| 0 <= j < date.len() implies #[trigger] date[j] != ' ' by {
        assert(date[j] == ts[j]);
    }
    assert forall|j: int| 0 <= j < time.len() implies #[trigger] time[j] != ' ' by {
        assert(time[j] == ts[d + 1 + j]);
    }
    assert forall|j: int| 0 <= j < lb.len() implies #[trigger] lb[j] != ' ' by {
        if 0 < j < lb.len() - 1 {
            assert(lb[j] == ln[j - 1]);
        }
    }
    assert forall|j: int| 0 <= j < sb.len() implies #[trigger] sb[j] != ' ' by {
        if 0 < j < sb.len() - 1 {
            assert(sb[j] == sn[j - 1]);
        }
    }
    lemma_cut_at(date, time + seq![' '] + (lb + seq![' '] + (sb + seq![' '] + rest)));
    lemma_cut_at(time, lb + seq![' '] + (sb + seq![' '] + rest));
    lemma_cut_at(lb, sb + seq![' '] + rest);
    lemma_cut_at(sb, rest);
    lemma_strip_brackets(ln);
    lemma_strip_brackets(sn);
    lemma_message_cut(msg, kept, ent.len() > 0);
}

/// Whether `e` repeats the level, source and message of the last event of `s`.
pub open spec fn repeats_last(s: Seq<DiagnosticEvent>, e: DiagnosticEvent) -> bool {
    &&& s.len() > 0
    &&& s.last().level == e.level
    &&& s.last().source == e.source
    &&& s.last().message@ == e.message@
}

/// The events after storing `e`: the oldest goes first when the store is full.
pub open spec fn stored_after(s: Seq<DiagnosticEvent>, e: DiagnosticEvent) -> Seq<DiagnosticEvent> {
    if s.len() >= MAX_EVENTS {
        s.subrange(1, s.len() as int).push(e)
    } else {
        s.push(e)
    }
}

/// The newest `MAX_EVENTS` events of `s`.
pub open spec fn newest(s: Seq<DiagnosticEvent>) -> Seq<DiagnosticEvent> {
    if s.len() > MAX_EVENTS {
        s.subrange(s.len() - MAX_EVENTS, s.len() as int)
    } else {
        s
    }
}

/// The events of `s` at level `Error`, in order.
pub open spec fn errors_of(s: Seq<DiagnosticEvent>) -> Seq<DiagnosticEvent>
    decreases s.len(),
{
    if s.len() == 0 {
        Seq::empty()
    } else if s.last().level == LogLevel::Error {
        errors_of(s.drop_last()).push(s.last())
    } else {
        errors_of(s.drop_last())
    }
}

/// The events that references point to.
pub open spec fn deref_all(v: Seq<&DiagnosticEvent>) -> Seq<DiagnosticEvent> {
    Seq::new(v.len(), |i: int| *v[i])
}

/// No event repeats the level, source and message of the one before it.
pub open spec fn no_adjacent_repeats(s: Seq<DiagnosticEvent>) -> bool {
    forall|i: int|
        0 < i < s.len() ==> !(#[trigger] s[i].level == s[i - 1].level && s[i].source == s[i
            - 1].source && s[i].message@ == s[i - 1].message@)
}

/// A store filled by pushes never holds an event right after one with the
/// same level, source and message: a push keeps that so (see
/// `DiagnosticsStore::push`, which leaves the store as it is on a repeat and
/// stores `stored_after` otherwise).
pub proof fn lemma_push_keeps_no_adjacent_repeats(s: Seq<DiagnosticEvent>, e: DiagnosticEvent)
    requires
        no_adjacent_repeats(s),
    ensures
        !repeats_last(s, e) ==> no_adjacent_repeats(stored_after(s, e)),
{
    if !repeats_last(s, e) {
        let t = stored_after(s, e);
        let base = if s.len() >= MAX_EVENTS {
            s.subrange(1, s.len() as int)
        } else {
            s
        };
        assert(t == base.push(e));
        assert forall|i: int| 0 < i < t.len() implies !(#[trigger] t[i].level == t[i - 1].level
            && t[i].source == t[i - 1].source && t[i].message@ == t[i - 1].message@) by {
            if i == t.len() - 1 {
                assert(t[i - 1] == base.last());
                assert(base.last() == s.last());
            } else if s.len() >= MAX_EVENTS {
                assert(t[i] == s[i + 1]);
                assert(t[i - 1] == s[i]);
            } else {
                assert(t[i] == s[i]);
                assert(t[i - 1] == s[i - 1]);
            }
        }
    }
}

/// The recent diagnostic events, oldest first, at most `MAX_EVENTS` of them.
#[derive(Debug)]
pub struct DiagnosticsStore {
    events: VecDeque<DiagnosticEvent>,
}

impl View for DiagnosticsStore {
    type V = Seq<DiagnosticEvent>;

    closed spec fn view(&self) -> Seq<DiagnosticEvent> {
        self.events@
    }
}

impl Default for DiagnosticsStore {
    fn default() -> (s: DiagnosticsStore)
        ensures
            s@ == Seq::<DiagnosticEvent>::empty(),
    {
        DiagnosticsStore { events: VecDeque::new() }
    }
}

impl DiagnosticsStore {
    #[verifier::type_invariant]
    closed spec fn bounded(&self) -> bool {
        self.events@.len() <= MAX_EVENTS
    }

    /// Stores `event` unless it repeats the level, source and message of the
    /// last stored event; when full, the oldest event goes. Returns the log
    /// line to append to the diagnostics log for a stored event, `None` for a
    /// repeat.
    pub fn push(&mut self, event: DiagnosticEvent) -> (logged: Option<String>)
        ensures
            repeats_last(old(self)@, event) ==> final(self)@ == old(self)@ && logged is None,
            !repeats_last(old(self)@, event) ==> final(self)@ == stored_after(old(self)@, event),
            !repeats_last(old(self)@, event) ==> (logged matches Some(line) && line@
                == event_log_line(event)),
            final(self)@.len() <= MAX_EVENTS,
    {
        proof {
            use_type_invariant(&*self);
        }
        let n = self.events.len();
        if n > 0 {
            let last = &self.events[n - 1];
            if last.level == event.level && last.source == event.source && last.message
                == event.message {
                return None;
            }
        }
        let line = format_diagnostic_log_line(&event);
        let mut events: VecDeque<DiagnosticEvent> = VecDeque::new();
        std::mem::swap(&mut events, &mut self.events);
        if n >= MAX_EVENTS {
            let _ = events.pop_front();
        }
        events.push_back(event);
        self.events = events;
        Some(line)
    }

    /// References to the stored events, oldest first.
    pub fn events(&self) -> (v: Vec<&DiagnosticEvent>)
        ensures
            deref_all(v@) == self@,
    {
        let mut v: Vec<&DiagnosticEvent> = Vec::new();
        let mut i: usize = 0;
        while i < self.events.len()
            invariant
                i <= self@.len(),
                v@.len() == i,
                deref_all(v@) == self@.subrange(0, i as int),
            decreases self@.len() - i,
        {
            let ghost prev = v@;
            v.push(&self.events[i]);
            assert forall|j: int| 0 <= j < i implies deref_all(v@)[j] == deref_all(prev)[j] by {
                assert(v@[j] == prev[j]);
            }
            assert(deref_all(v@) =~= self@.subrange(0, i + 1));
            i = i + 1;
        }
        assert(self@.subrange(0, i as int) =~= self@);
        v
    }

    /// A store holding the newest `MAX_EVENTS` of `events`, oldest first.
    pub fn from_events(events: Vec<DiagnosticEvent>) -> (s: DiagnosticsStore)
        ensures
            s@ == newest(events@),
    {
        let ghost all = events@;
        let mut rest = events;
        let mut kept: VecDeque<DiagnosticEvent> = VecDeque::new();
        while rest.len() > 0 && kept.len() < MAX_EVENTS
            invariant
                kept@.len() <= MAX_EVENTS,
                rest@.len() + kept@.len() == all.len(),
                rest@ == all.subrange(0, rest@.len() as int),
                kept@ == all.subrange(rest@.len() as int, all.len() as int),
            decreases rest@.len(),
        {
            let e = rest.pop().unwrap();
            kept.push_front(e);
            assert(kept@ =~= all.subrange(rest@.len() as int, all.len() as int));
        }
        assert(kept@ =~= newest(all));
        DiagnosticsStore { events: kept }
    }

    /// References to the stored events at level `Error`, oldest first.
    pub fn errors(&self) -> (v: Vec<&DiagnosticEvent>)
        ensures
            deref_all(v@) == errors_of(self@),
    {
        let mut v: Vec<&DiagnosticEvent> = Vec::new();
        let mut i: usize = 0;
        while i < self.events.len()
            invariant
                i <= self@.len(),
                deref_all(v@) == errors_of(self@.subrange(0, i as int)),
            decreases self@.len() - i,
        {
            let e = &self.events[i];
            proof {
                assert(self@.subrange(0, i + 1).drop_last() =~= self@.subrange(0, i as int));
            }
            if e.level == LogLevel::Error {
                let ghost prev = v@;
                v.push(e);
                assert forall|j: int| 0 <= j < prev.len() implies deref_all(v@)[j] == deref_all(
                    prev,
                )[j] by {
                    assert(v@[j] == prev[j]);
                }
                assert(deref_all(v@) =~= errors_of(self@.subrange(0, i + 1)));
            }
            i = i + 1;
        }
        assert(self@.subrange(0, i as int) =~= self@);
        v
    }

    /// Forgets every event.
    pub fn clear(&mut self)
        ensures
            final(self)@ == Seq::<DiagnosticEvent>::empty(),
    {
        self.events = VecDeque::new();
    }

    /// The number of stored events.
    pub fn count(&self) -> (n: usize)
        ensures
            n == self@.len(),
            n <= MAX_EVENTS,
    {
        proof {
            use_type_invariant(self);
        }
        self.events.len()
    }
}

/// The lines of the diagnostics report for one event: its line without the
/// context, then `"  key: value"` per context entry.
pub open spec fn event_report_lines(e: DiagnosticEvent) -> Seq<Seq<char>> {
    seq![log_line(e.timestamp@, e.level, e.source, e.message@, Seq::empty())] + Seq::new(
        event_entries(e).len(),
        |i: int| seq![' ', ' '] + event_entries(e)[i].0 + seq![':', ' '] + event_entries(e)[i].1,
    )
}

/// The report lines of the events, in order.
pub open spec fn events_report_lines(events: Seq<DiagnosticEvent>) -> Seq<Seq<char>>
    decreases events.len(),
{
    if events.len() == 0 {
        Seq::empty()
    } else {
        events_report_lines(events.drop_last()) + event_report_lines(events.last())
    }
}

/// Lines joined with line feeds between them.
pub open spec fn join_lines(lines: Seq<Seq<char>>) -> Seq<char>
    decreases lines.len(),
{
    if lines.len() == 0 {
        Seq::empty()
    } else if lines.len() == 1 {
        lines[0]
    } else {
        join_lines(lines.drop_last()) + seq!['\n'] + lines.last()
    }
}

/// The diagnostics report: a header with the version, the time it was made
/// and the connection status, the events, and their count.
pub open spec fn report_lines(
    events: Seq<DiagnosticEvent>,
    version: Seq<char>,
    now: Seq<char>,
    status: Seq<char>,
) -> Seq<Seq<char>> {
    seq![
        "=== Frost-Tune Diagnostics ==="@,
        "Version: "@ + version,
        "Timestamp: "@ + now,
        "Connection Status: "@ + status,
        Seq::empty(),
        "=== Events ==="@,
    ] + events_report_lines(events) + seq![
        Seq::empty(),
        "=== Total Events: "@ + decimal(events.len()) + " ==="@,
    ]
}

/// Calls `chrono::Local::now` and renders it with `%Y-%m-%d %H:%M:%S`. The
/// instant depends on the clock; the layout that chrono's formatting gives
/// every instant is stated. It panics, as the call it makes does, when the
/// system clock reads before 1970 or the local time-zone data cannot be read.
#[verifier::external_body]
fn local_time_to_seconds() -> (s: String)
    ensures
        is_local_time_text(s@, false),
{
    chrono::Local::now().format("%Y-%m-%d %H:%M:%S").to_string()
}

/// Appends a line feed and then `line`.
fn push_line(out: &mut String, line: &str)
    ensures
        final(out)@ == old(out)@ + seq!['\n'] + line@,
{
    push_char(out, '\n');
    out.append(line);
}

/// Joining one more line adds a line feed and the line.
proof fn lemma_join_push(lines: Seq<Seq<char>>, l: Seq<char>)
    requires
        lines.len() > 0,
    ensures
        join_lines(lines.push(l)) == join_lines(lines) + seq!['\n'] + l,
{
    assert(lines.push(l).drop_last() =~= lines);
}

/// The diagnostics report of the store, stamped with the given time.
pub fn format_diagnostics_at(
    store: &DiagnosticsStore,
    app_version: &str,
    now: &str,
    connection_status: &str,
) -> (r: String)
    ensures
        r@ == join_lines(report_lines(store@, app_version@, now@, connection_status@)),
{
    let ghost events = store@;
    let mut out = String::new();
    let mut lines: Ghost<Seq<Seq<char>>> = Ghost(Seq::empty());
    proof {
        reveal_strlit("=== Frost-Tune Diagnostics ===");
    }
    out.append("=== Frost-Tune Diagnostics ===");
    proof {
        lines@ = lines@.push("=== Frost-Tune Diagnostics ==="@);
        assert(out@ == join_lines(lines@));
    }
    let mut line = String::from_str("Version: ");
    line.append(app_version);
    push_line(&mut out, line.as_str());
    proof {
        lemma_join_push(lines@, line@);
        lines@ = lines@.push(line@);
    }
    let mut line = String::from_str("Timestamp: ");
    line.append(now);
    push_line(&mut out, line.as_str());
    proof {
        lemma_join_push(lines@, line@);
        lines@ = lines@.push(line@);
    }
    let mut line = String::from_str("Connection Status: ");
    line.append(connection_status);
    push_line(&mut out, line.as_str());
    proof {
        lemma_join_push(lines@, line@);
        lines@ = lines@.push(line@);
    }
    push_line(&mut out, "");
    proof {
        reveal_strlit("");
        lemma_join_push(lines@, Seq::empty());
        lines@ = lines@.push(Seq::empty());
    }
    push_line(&mut out, "=== Events ===");
    proof {
        lemma_join_push(lines@, "=== Events ==="@);
        lines@ = lines@.push("=== Events ==="@);
    }
    let ghost header = lines@;
    let all = store.events();
    let mut i: usize = 0;
    while i < all.len()
        invariant
            i <= all@.len(),
            deref_all(all@) == events,
            header.len() == 6,
            lines@.len() >= 6,
            lines@ == header + events_report_lines(events.subrange(0, i as int)),
            out@ == join_lines(lines@),
        decreases all@.len() - i,
    {
        let e: &DiagnosticEvent = all[i];
        assert(*e == events[i as int]);
        let mut head = e.timestamp.clone();
        push_char(&mut head, ' ');
        push_char(&mut head, '[');
        head.append(e.level.name());
        push_char(&mut head, ']');
        push_char(&mut head, ' ');
        push_char(&mut head, '[');
        head.append(e.source.name());
        push_char(&mut head, ']');
        push_char(&mut head, ' ');
        head.append(e.message.as_str());
        push_line(&mut out, head.as_str());
        proof {
            lemma_join_push(lines@, head@);
            lines@ = lines@.push(head@);
            assert(head@ =~= log_line(e.timestamp@, e.level, e.source, e.message@, Seq::empty()));
        }
        let ghost before_ctx = lines@;
        let ghost ent = event_entries(*e);
        match &e.context {
            Some(ctx) => {
                let n = ctx.len();
                let mut j: usize = 0;
                while j < n
                    invariant
                        n == ent.len(),
                        ent == ctx.view_entries(),
                        j <= n,
                        lines@ == before_ctx + Seq::new(
                            j as nat,
                            |k: int| seq![' ', ' '] + ent[k].0 + seq![':', ' '] + ent[k].1,
                        ),
                        lines@.len() > 0,
                        before_ctx.len() > 0,
                        out@ == join_lines(lines@),
                    decreases n - j,
                {
                    let (k, v) = ctx.entry(j);
                    let mut l = String::from_str("  ");
                    proof {
                        reveal_strlit("  ");
                        assert(l@ =~= seq![' ', ' ']);
                    }
                    l.append(k.as_str());
                    push_char(&mut l, ':');
                    push_char(&mut l, ' ');
                    l.append(v.as_str());
                    push_line(&mut out, l.as_str());
                    proof {
                        assert(l@ =~= seq![' ', ' '] + ent[j as int].0 + seq![':', ' '] + ent[j as int].1);
                        lemma_join_push(lines@, l@);
                        lines@ = lines@.push(l@);
                        assert(lines@ =~= before_ctx + Seq::new(
                            (j + 1) as nat,
                            |k: int| seq![' ', ' '] + ent[k].0 + seq![':', ' '] + ent[k].1,
                        ));
                    }
                    j = j + 1;
                }
            },
            None => {
                assert(lines@ =~= before_ctx + Seq::new(
                    0,
                    |k: int| seq![' ', ' '] + ent[k].0 + seq![':', ' '] + ent[k].1,
                ));
            },
        }
        proof {
            let sub = events.subrange(0, i + 1);
            assert(sub.drop_last() =~= events.subrange(0, i as int));
            assert(sub.last() == *e);
            assert(lines@ =~= header + events_report_lines(sub));
        }
        i = i + 1;
    }
    assert(events.subrange(0, i as int) =~= events);
    push_line(&mut out, "");
    proof {
        lemma_join_push(lines@, Seq::empty());
        lines@ = lines@.push(Seq::empty());
    }
    let mut last = String::from_str("=== Total Events: ");
    push_decimal(&mut last, store.count() as u64);
    last.append(" ===");
    push_line(&mut out, last.as_str());
    proof {
        lemma_join_push(lines@, last@);
        lines@ = lines@.push(last@);
        assert(lines@ =~= report_lines(events, app_version@, now@, connection_status@));
    }
    out
}

/// The diagnostics report of the store, stamped with the current local time
/// as `%Y-%m-%d %H:%M:%S` writes it.
pub fn format_diagnostics(
    store: &DiagnosticsStore,
    app_version: &str,
    connection_status: &str,
) -> (r: String)
    ensures
        exists|now: Seq<char>|
            #![trigger report_lines(store@, app_version@, now, connection_status@)]
            is_local_time_text(now, false) && r@ == join_lines(
                report_lines(store@, app_version@, now, connection_status@),
            ),
{
    let now = local_time_to_seconds();
    let r = format_diagnostics_at(store, app_version, now.as_str(), connection_status);
    assert(is_local_time_text(now@, false) && r@ == join_lines(
        report_lines(store@, app_version@, now@, connection_status@),
    ));
    r
}

} // verus!
