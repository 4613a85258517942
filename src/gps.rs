use vstd::prelude::*;
use crate::civil::{CivilDate, TimeOfDay, unix_seconds, unix_seconds_bounded, utc_timestamp};
use crate::correlator::{CorrelatedFix, FRESHNESS_WINDOW_MS, edge_outcome};
use crate::mailbox::Mailbox;
use crate::sentence::{SentenceAssembler, reassemble};

verus! {

#[verifier::external_type_specification]
#[verifier::external_body]
pub struct ExNmea(nmea::Nmea);

/// Kind of position solution that the receiver reports.
#[derive(Clone, Copy, Debug, PartialEq, Eq, Structural)]
pub enum FixKind {
    Invalid,
    Gps,
    DGps,
    Pps,
    Rtk,
    FloatRtk,
    Estimated,
    Manual,
    Simulation,
}

/// What the NMEA parser's accumulated state says about the current fix.
#[derive(Clone, Copy, Debug, PartialEq, Eq, Structural)]
pub struct FixReport {
    pub kind: Option<FixKind>,
    pub date: Option<CivilDate>,
    pub time: Option<TimeOfDay>,
}

impl FixReport {
    /// Any date and time present are real ones.
    pub open spec fn wf(&self) -> bool {
        &&& (self.date matches Some(d) ==> d.wf())
        &&& (self.time matches Some(t) ==> t.wf())
    }
}

/// The fix carries a kind other than invalid, a date and a time.
pub open spec fn is_usable(report: FixReport) -> bool {
    &&& report.kind matches Some(k) && k != FixKind::Invalid
    &&& report.date is Some
    &&& report.time is Some
}

/// Relies on nmea::Nmea::default: a parser with no fix data yet.
#[verifier::external_body]
fn parser_new() -> (r: nmea::Nmea) {
    nmea::Nmea::default()
}

/// Number of commas in `s`.
pub open spec fn comma_count(s: Seq<char>) -> nat
    decreases s.len(),
{
    if s.len() == 0 {
        0
    } else {
        comma_count(s.drop_last()) + if s.last() == ',' {
            1nat
        } else {
            0nat
        }
    }
}

/// Whether `s` has message identifier `GS` followed by `last`, in the place
/// where the parser reads it (after `$` and the two-letter talker).
pub open spec fn message_id_is(s: Seq<char>, last: char) -> bool {
    &&& s.len() >= 6
    &&& s[3] == 'G' && s[4] == 'S' && s[5] == last
}

/// A GSA sentence with more fields than its satellite list can hold: the
/// parser's fixed list of eighteen satellites would overflow on it. Every
/// list entry ends with a comma, and three commas come before the list.
pub open spec fn overflows_satellite_list(s: Seq<char>) -> bool {
    &&& message_id_is(s, 'A')
    &&& comma_count(s) > 21
}

pub open spec fn is_digit(c: char) -> bool {
    0x30 <= (c as u32) <= 0x39
}

/// The decimal value of the digits in the field after the second comma of
/// `s` (the sentence number of a GSV sentence), capped at fifteen.
pub open spec fn sentence_number(s: Seq<char>) -> nat
    decreases s.len(),
{
    if s.len() == 0 {
        0
    } else {
        let v = sentence_number(s.drop_last());
        let c = s.last();
        if comma_count(s.drop_last()) == 2 && is_digit(c) {
            let w = v * 10 + ((c as u32) - 0x30) as nat;
            if w < 15 {
                w
            } else {
                15
            }
        } else {
            v
        }
    }
}

/// A GSV sentence numbered fifteen or more: the parser keeps the GSV data
/// of each satellite system in fifteen slots, in a window as wide as the
/// largest sentence number it has seen, and panics when a sixteenth entry
/// would be stored. With every number it takes at fourteen or below, the
/// window stays under fifteen entries.
pub open spec fn overflows_view_window(s: Seq<char>) -> bool {
    &&& message_id_is(s, 'V')
    &&& sentence_number(s) >= 15
}

/// A sentence on which the parser would panic, or might, given the
/// sentences that this library hands it.
pub open spec fn parser_may_panic(s: Seq<char>) -> bool {
    overflows_satellite_list(s) || overflows_view_window(s)
}

/// Whether `s` is a sentence that the parser cannot take.
pub fn overflows_parser(s: &str) -> (r: bool)
    ensures
        r == parser_may_panic(s@),
{
    broadcast use vstd::string::axiom_spec_iter;
    let ghost text = s@;
    let mut commas: usize = 0;
    let mut gs = true;
    let mut fifth_a = false;
    let mut fifth_v = false;
    let mut number: u32 = 0;
    let mut seen: usize = 0;
    for c in it: s.chars()
        invariant
            it.seq() == text,
            it.index() <= text.len(),
            seen == if it.index() < 6 { it.index() } else { 6 },
            commas == if comma_count(text.subrange(0, it.index() as int)) < 22 {
                comma_count(text.subrange(0, it.index() as int))
            } else {
                22
            },
            gs == (forall|k: int| 3 <= k < 5 && k < it.index() ==> text[k] == seq!['G', 'S'][k - 3]),
            it.index() >= 6 ==> fifth_a == (text[5] == 'A') && fifth_v == (text[5] == 'V'),
            number == sentence_number(text.subrange(0, it.index() as int)),
            number <= 15,
    {
        let ghost i = it.index();
        let ghost prefix = text.subrange(0, i as int);
        proof {
            assert(c == text[i]);
            assert(text.subrange(0, i + 1).drop_last() =~= prefix);
        }
        let code = c as u32;
        if commas == 2 && 0x30 <= code && code <= 0x39 {
            let w = number * 10 + (code - 0x30);
            number = if w < 15 { w } else { 15 };
        }
        if c == ',' && commas < 22 {
            commas = commas + 1;
        }
        if (seen == 3 && c != 'G') || (seen == 4 && c != 'S') {
            gs = false;
        }
        if seen == 5 {
            fifth_a = c == 'A';
            fifth_v = c == 'V';
        }
        if seen < 6 {
            seen = seen + 1;
        }
    }
    proof {
        assert(text.subrange(0, text.len() as int) =~= text);
    }
    seen >= 6 && gs && ((fifth_a && commas > 21) || (fifth_v && number >= 15))
}

/// Whether the NMEA parser accepts sentence `s`; this depends on the text
/// alone, not on what it parsed before.
pub uninterp spec fn parse_accepts(s: Seq<char>) -> bool;

/// Relies on nmea::Nmea::parse: parses one sentence into the parser's
/// accumulated state; whether it succeeded. It panics on a GSA sentence with
/// over eighteen satellite entries, and on a GSV sentence once its window
/// of fifteen entries per satellite system is full, which takes sentence
/// numbers of fifteen or more: both are left out. The parser that this is
/// called on is fed through this function alone.
#[verifier::external_body]
fn parser_feed(p: &mut nmea::Nmea, sentence: &str) -> (r: bool)
    requires
        !parser_may_panic(sentence@),
    ensures
        r == parse_accepts(sentence@),
{
    p.parse(sentence).is_ok()
}

/// Relies on the nmea::Nmea::fix_type field: the kind of the current fix.
#[verifier::external_body]
fn parser_fix_kind(p: &nmea::Nmea) -> (r: Option<FixKind>) {
    match p.fix_type {
        None => None,
        Some(nmea::sentences::FixType::Invalid) => Some(FixKind::Invalid),
        Some(nmea::sentences::FixType::Gps) => Some(FixKind::Gps),
        Some(nmea::sentences::FixType::DGps) => Some(FixKind::DGps),
        Some(nmea::sentences::FixType::Pps) => Some(FixKind::Pps),
        Some(nmea::sentences::FixType::Rtk) => Some(FixKind::Rtk),
        Some(nmea::sentences::FixType::FloatRtk) => Some(FixKind::FloatRtk),
        Some(nmea::sentences::FixType::Estimated) => Some(FixKind::Estimated),
        Some(nmea::sentences::FixType::Manual) => Some(FixKind::Manual),
        Some(nmea::sentences::FixType::Simulation) => Some(FixKind::Simulation),
    }
}

/// Relies on the nmea::Nmea::fix_date field, a chrono::NaiveDate, read through
/// chrono::Datelike: a NaiveDate is always a real date within chrono's years.
#[verifier::external_body]
fn parser_fix_date(p: &nmea::Nmea) -> (r: Option<CivilDate>)
    ensures
        r matches Some(d) ==> d.wf(),
{
    match p.fix_date {
        Some(d) => Some(CivilDate {
            year: chrono::Datelike::year(&d),
            month: chrono::Datelike::month(&d),
            day: chrono::Datelike::day(&d),
        }),
        None => None,
    }
}

/// Relies on the nmea::Nmea::fix_time field, a chrono::NaiveTime, read through
/// chrono::Timelike: hour, minute and second are in their usual ranges (a
/// leap second shows in the fraction, not in `second`).
#[verifier::external_body]
fn parser_fix_time(p: &nmea::Nmea) -> (r: Option<TimeOfDay>)
    ensures
        r matches Some(t) ==> t.wf(),
{
    match p.fix_time {
        Some(t) => Some(TimeOfDay {
            hour: chrono::Timelike::hour(&t),
            minute: chrono::Timelike::minute(&t),
            second: chrono::Timelike::second(&t),
        }),
        None => None,
    }
}

/// The correlated fix that a report yields at local time `now`, if usable.
pub open spec fn correlation(report: FixReport, now: u64) -> Option<(u64, int)> {
    if is_usable(report) {
        Some((now, unix_seconds(report.date->Some_0, report.time->Some_0)))
    } else {
        None
    }
}

/// Pairs a usable fix report with the local instant `now` (milliseconds).
pub fn correlate(report: &FixReport, now: u64) -> (r: Option<CorrelatedFix>)
    requires
        report.wf(),
    ensures
        match r {
            Some(f) => correlation(*report, now) == Some((f.captured_at, f.unix_time as int))
                && f.unix_time < i64::MAX,
            None => correlation(*report, now) is None,
        },
{
    let usable_kind = match report.kind {
        Some(FixKind::Invalid) => false,
        Some(_) => true,
        None => false,
    };
    if !usable_kind {
        return None;
    }
    match (report.date, report.time) {
        (Some(date), Some(time)) => {
            proof {
                unix_seconds_bounded(date, time);
            }
            let unix_time = utc_timestamp(&date, &time);
            Some(CorrelatedFix { captured_at: now, unix_time })
        },
        _ => None,
    }
}

/// What became of one sentence completed by the reassembler.
#[derive(Debug)]
pub struct SentenceReport {
    /// The sentence text handed to the parser.
    pub text: String,
    /// Whether the parser accepted it.
    pub parsed: bool,
    /// The parser's fix state after it.
    pub report: FixReport,
    /// The fix put into the mailbox after it, if any.
    pub fix: Option<CorrelatedFix>,
}

/// The mailbox content after putting, in order, each fix that `reports`
/// carry, starting from `init`.
pub open spec fn latest_fix(reports: Seq<SentenceReport>, init: Option<CorrelatedFix>) -> Option<
    CorrelatedFix,
>
    decreases reports.len(),
{
    if reports.len() == 0 {
        init
    } else {
        match reports.last().fix {
            Some(f) => Some(f),
            None => latest_fix(reports.drop_last(), init),
        }
    }
}

/// One report is consistent with the fix it carries.
pub open spec fn report_ok(r: SentenceReport, now: u64) -> bool {
    &&& r.report.wf()
    &&& r.parsed == (!parser_may_panic(r.text@) && parse_accepts(r.text@))
    &&& match r.fix {
        Some(f) => correlation(r.report, now) == Some((f.captured_at, f.unix_time as int))
            && f.unix_time < i64::MAX,
        None => correlation(r.report, now) is None,
    }
}

/// The NMEA side of the board: reassembles sentences from received bytes,
/// parses them and posts each usable fix, with the local instant, to the
/// time correlator.
pub struct GpsReceiver {
    assembler: SentenceAssembler,
    parser: nmea::Nmea,
}

impl GpsReceiver {
    /// The partial sentence held so far.
    pub closed spec fn pending(&self) -> Seq<char> {
        self.assembler.content()
    }

    pub closed spec fn wf(&self) -> bool {
        self.assembler.wf()
    }

    /// A receiver with no partial sentence and no fix data.
    pub fn new() -> (r: Self)
        ensures
            r.wf(),
            r.pending() == Seq::<char>::empty(),
    {
        GpsReceiver { assembler: SentenceAssembler::new(), parser: parser_new() }
    }

    /// Takes a chunk of received bytes; returns the sentences it completes,
    /// in order, without parsing them.
    pub fn reassemble_bytes(&mut self, bytes: &[u8]) -> (r: Vec<String>)
        requires
            old(self).wf(),
        ensures
            final(self).wf(),
            final(self).pending() == reassemble(old(self).pending(), bytes@).0,
            r@.map_values(|s: String| s@) == reassemble(old(self).pending(), bytes@).1,
    {
        self.assembler.feed(bytes)
    }

    /// Parses one completed sentence at local time `now` (milliseconds) and,
    /// when the parser then holds a usable fix, puts it into `mailbox`.
    pub fn handle_sentence(
        &mut self,
        text: String,
        now: u64,
        mailbox: &mut Mailbox<CorrelatedFix>,
    ) -> (r: SentenceReport)
        requires
            old(self).wf(),
        ensures
            final(self).wf(),
            final(self).pending() == old(self).pending(),
            r.text@ == text@,
            report_ok(r, now),
            final(mailbox)@ == match r.fix {
                Some(f) => Some(f),
                None => old(mailbox)@,
            },
    {
        let parsed = if overflows_parser(text.as_str()) {
            false
        } else {
            parser_feed(&mut self.parser, text.as_str())
        };
        let report = FixReport {
            kind: parser_fix_kind(&self.parser),
            date: parser_fix_date(&self.parser),
            time: parser_fix_time(&self.parser),
        };
        let fix = correlate(&report, now);
        match fix {
            Some(f) => mailbox.put(f),
            None => {},
        }
        SentenceReport { text, parsed, report, fix }
    }

    /// Handles one chunk of received bytes at local time `now` (milliseconds).
    /// Each completed sentence is parsed in order, and after each one a usable
    /// fix is put into `mailbox`.
    pub fn feed(&mut self, bytes: &[u8], now: u64, mailbox: &mut Mailbox<CorrelatedFix>) -> (r: Vec<
        SentenceReport,
    >)
        requires
            old(self).wf(),
        ensures
            final(self).wf(),
            final(self).pending() == reassemble(old(self).pending(), bytes@).0,
            r@.map_values(|s: SentenceReport| s.text@) == reassemble(old(self).pending(), bytes@).1,
            forall|k: int| 0 <= k < r@.len() ==> report_ok(#[trigger] r@[k], now),
            final(mailbox)@ == latest_fix(r@, old(mailbox)@),
    {
        let sentences = self.assembler.feed(bytes);
        let mut out: Vec<SentenceReport> = Vec::new();
        let mut i: usize = 0;
        while i < sentences.len()
            invariant
                i <= sentences@.len(),
                self.wf(),
                self.pending() == reassemble(old(self).pending(), bytes@).0,
                sentences@.map_values(|s: String| s@) == reassemble(old(self).pending(), bytes@).1,
                out@.len() == i,
                forall|k: int| 0 <= k < i ==> (#[trigger] out@[k]).text@ == sentences@[k]@,
                forall|k: int| 0 <= k < out@.len() ==> report_ok(#[trigger] out@[k], now),
                mailbox@ == latest_fix(out@, old(mailbox)@),
            decreases sentences@.len() - i,
        {
            let text = sentences[i].clone();
            let report = self.handle_sentence(text, now, mailbox);
            let ghost before = out@;
            out.push(report);
            proof {
                assert(out@.drop_last() =~= before);
            }
            i = i + 1;
        }
        proof {
            assert(out@.map_values(|s: SentenceReport| s.text@) =~= sentences@.map_values(
                |s: String| s@,
            ));
        }
        out
    }
}

/// A sentence that leaves a usable fix, reported at local time `captured`,
/// followed by a PPS edge at `now` with nothing put in between: the edge
/// yields the parsed time plus one second when it comes under the window
/// after the fix, and nothing when it comes later; either way the mailbox is
/// left empty.
pub proof fn fix_then_edge(r: SentenceReport, captured: u64, now: u64)
    requires
        report_ok(r, captured),
        is_usable(r.report),
        captured <= now,
    ensures
        r.fix is Some,
        edge_outcome(r.fix, now).0 is None,
        now - captured < FRESHNESS_WINDOW_MS ==> edge_outcome(r.fix, now).1 == Some(
            unix_seconds(r.report.date->Some_0, r.report.time->Some_0) + 1,
        ),
        now - captured >= FRESHNESS_WINDOW_MS ==> edge_outcome(r.fix, now).1 is None,
{
}

} // verus!
