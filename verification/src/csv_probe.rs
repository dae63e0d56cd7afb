//! Record-accumulating probes.
//!
//! `CsvProbe` accumulates one record per generation notification and, on
//! request, encodes them all as CSV text in one bulk pass; writing that
//! text to a file or other endpoint is the caller's business. Its records
//! are provably a function of the notifications it has received.
//! `BoundedProbe` is the same accumulator with a fixed capacity whose
//! sink refuses further records once full, so delivery to it can fail.

use vstd::prelude::*;
use vstd::string::StringExecFns;
use crate::errors::ProbeDeliveryError;
use crate::probe::{Probe, ProbeEvent};
use crate::swarm::Swarm;

verus! {

/// One accumulated progress record: an iteration number and the global
/// best fitness after it, in scaled fixed-point units.
#[derive(Clone, Copy, PartialEq, Eq, Structural, Debug)]
pub struct GenerationRecord {
    pub iteration: usize,
    pub best_fitness: i64,
}

/// The record that a generation event gives rise to.
pub open spec fn record_of_event(event: ProbeEvent) -> GenerationRecord {
    match event {
        ProbeEvent::Generation { iteration, swarm } => GenerationRecord {
            iteration: iteration as usize,
            best_fitness: swarm.global_best_fitness,
        },
        _ => GenerationRecord { iteration: 0, best_fitness: 0 },
    }
}

/// The records that a notification history gives rise to: one per
/// generation event, in delivery order, none for begin or end.
pub open spec fn records_of_log(log: Seq<ProbeEvent>) -> Seq<GenerationRecord>
    decreases log.len(),
{
    if log.len() == 0 {
        Seq::empty()
    } else {
        records_of_log(log.drop_last()) + (if log.last() is Generation {
            seq![record_of_event(log.last())]
        } else {
            Seq::empty()
        })
    }
}

/// The decimal digit character for `d` in `0..10`.
pub open spec fn digit_char(d: int) -> char {
    if d == 0 { '0' }
    else if d == 1 { '1' }
    else if d == 2 { '2' }
    else if d == 3 { '3' }
    else if d == 4 { '4' }
    else if d == 5 { '5' }
    else if d == 6 { '6' }
    else if d == 7 { '7' }
    else if d == 8 { '8' }
    else { '9' }
}

/// The decimal digits of a nonnegative integer, most significant first.
pub open spec fn decimal_digits(n: int) -> Seq<char>
    decreases n,
{
    if n < 10 {
        seq![digit_char(n)]
    } else {
        decimal_digits(n / 10).push(digit_char(n % 10))
    }
}

/// The usual decimal rendering of an integer: a minus sign for negative
/// values, then the digits without leading zeros.
pub open spec fn decimal_of(x: int) -> Seq<char> {
    if x < 0 {
        seq!['-'] + decimal_digits(-x)
    } else {
        decimal_digits(x)
    }
}

/// The single-character string for the decimal digit `d`.
fn digit_str(d: u64) -> (r: String)
    requires
        d < 10,
    ensures
        r@ == seq![digit_char(d as int)],
{
    proof {
        reveal_strlit("0");
        reveal_strlit("1");
        reveal_strlit("2");
        reveal_strlit("3");
        reveal_strlit("4");
        reveal_strlit("5");
        reveal_strlit("6");
        reveal_strlit("7");
        reveal_strlit("8");
        reveal_strlit("9");
    }
    match d {
        0 => String::from_str("0"),
        1 => String::from_str("1"),
        2 => String::from_str("2"),
        3 => String::from_str("3"),
        4 => String::from_str("4"),
        5 => String::from_str("5"),
        6 => String::from_str("6"),
        7 => String::from_str("7"),
        8 => String::from_str("8"),
        _ => String::from_str("9"),
    }
}

/// The decimal digits of `n`, built most significant first.
fn decimal_u64(n: u64) -> (s: String)
    ensures
        s@ == decimal_digits(n as int),
    decreases n,
{
    if n < 10 {
        digit_str(n)
    } else {
        let mut s = decimal_u64(n / 10);
        let digit = digit_str(n % 10);
        s.append(digit.as_str());
        proof {
            assert(decimal_digits(n as int / 10).push(digit_char(n as int % 10))
                =~= decimal_digits(n as int / 10) + seq![digit_char(n as int % 10)]);
        }
        s
    }
}

/// The decimal rendering of a usize.
fn fmt_usize(value: usize) -> (r: String)
    ensures
        r@ == decimal_of(value as int),
{
    decimal_u64(value as u64)
}

/// The decimal rendering of an i64: a minus sign for negative values,
/// then the digits of the magnitude.
fn fmt_i64(value: i64) -> (r: String)
    ensures
        r@ == decimal_of(value as int),
{
    if value < 0 {
        let magnitude = (-(value as i128)) as u64;
        let mut s = String::from_str("-");
        let digits = decimal_u64(magnitude);
        s.append(digits.as_str());
        proof {
            reveal_strlit("-");
            assert(s@ =~= decimal_of(value as int));
        }
        s
    } else {
        decimal_u64(value as u64)
    }
}

/// The CSV encoding of one record of the given fields, quoting where the
/// field content requires it, terminated by a newline.
pub uninterp spec fn csv_line_of(fields: Seq<Seq<char>>) -> Seq<char>;

/// Relies on csv::Writer::write_record: it encodes exactly one record of
/// the given fields as CSV text, a function of the fields alone.
#[verifier::external_body]
fn csv_encode_record(fields: &Vec<String>) -> (r: String)
    ensures
        r@ == csv_line_of(fields@.map_values(|f: String| f@)),
{
    let mut writer = csv::Writer::from_writer(Vec::new());
    let _ = writer.write_record(fields);
    match writer.into_inner() {
        Ok(bytes) => String::from_utf8(bytes).unwrap_or_default(),
        Err(_) => String::new(),
    }
}

/// The fields of the header record.
pub open spec fn header_fields() -> Seq<Seq<char>> {
    seq!["generation"@, "best_fitness"@]
}

/// The fields of one accumulated record.
pub open spec fn record_fields(record: GenerationRecord) -> Seq<Seq<char>> {
    seq![decimal_of(record.iteration as int), decimal_of(record.best_fitness as int)]
}

/// The full CSV text for a run: the header record, then one record per
/// accumulated generation, in notification order.
pub open spec fn csv_text_of(records: Seq<GenerationRecord>) -> Seq<char>
    decreases records.len(),
{
    if records.len() == 0 {
        csv_line_of(header_fields())
    } else {
        csv_text_of(records.drop_last()) + csv_line_of(record_fields(records.last()))
    }
}

/// A probe that accumulates one record per generation notification and
/// encodes the whole accumulation as CSV text in one bulk pass.
pub struct CsvProbe {
    records: Vec<GenerationRecord>,
    history: Ghost<Seq<ProbeEvent>>,
}

impl CsvProbe {
    /// The accumulated records are exactly the ones the notification
    /// history gives rise to.
    #[verifier::type_invariant]
    spec fn records_follow_history(self) -> bool {
        self.records@ == records_of_log(self.history@)
    }

    /// The records accumulated so far, in delivery order.
    pub closed spec fn recorded(&self) -> Seq<GenerationRecord> {
        self.records@
    }

    /// A record probe that has seen no event yet.
    pub fn new() -> (r: CsvProbe)
        ensures
            r.log() == Seq::<ProbeEvent>::empty(),
            r.recorded() == Seq::<GenerationRecord>::empty(),
    {
        CsvProbe { records: Vec::new(), history: Ghost(Seq::empty()) }
    }

    /// The accumulated records: one per generation event received, in
    /// delivery order, none for begin or end.
    pub fn records(&self) -> (r: &Vec<GenerationRecord>)
        ensures
            r@ == self.recorded(),
            r@ == records_of_log(self.log()),
    {
        proof {
            use_type_invariant(self);
        }
        &self.records
    }

    /// Encode everything accumulated so far as CSV text: the header, then
    /// one line per record in delivery order.
    pub fn flush(&self) -> (out: String)
        ensures
            out@ == csv_text_of(self.recorded()),
            out@ == csv_text_of(records_of_log(self.log())),
    {
        proof {
            use_type_invariant(self);
        }
        let mut field_strings: Vec<String> = Vec::new();
        field_strings.push(String::from_str("generation"));
        field_strings.push(String::from_str("best_fitness"));
        proof {
            assert(field_strings@.map_values(|f: String| f@) =~= header_fields());
        }
        let mut out = csv_encode_record(&field_strings);
        let mut i: usize = 0;
        while i < self.records.len()
            invariant
                i <= self.records@.len(),
                out@ == csv_text_of(self.records@.take(i as int)),
            decreases self.records@.len() - i,
        {
            let record = self.records[i];
            let mut fields: Vec<String> = Vec::new();
            fields.push(fmt_usize(record.iteration));
            fields.push(fmt_i64(record.best_fitness));
            proof {
                assert(fields@.map_values(|f: String| f@) =~= record_fields(record));
            }
            let line = csv_encode_record(&fields);
            out.append(line.as_str());
            proof {
                assert(self.records@.take(i + 1).drop_last() =~= self.records@.take(i as int));
                assert(self.records@.take(i + 1).last() == self.records@[i as int]);
            }
            i = i + 1;
        }
        proof {
            assert(self.records@.take(self.records@.len() as int) =~= self.records@);
        }
        out
    }
}

impl Probe for CsvProbe {
    closed spec fn log(&self) -> Seq<ProbeEvent> {
        self.history@
    }

    fn on_begin(&mut self, swarm: &Swarm) -> (r: Result<(), ProbeDeliveryError>)
        ensures
            final(self).recorded() == old(self).recorded(),
            r is Ok,
    {
        proof {
            use_type_invariant(&*self);
            let h = self.history@;
            let event = ProbeEvent::Begin { swarm: swarm@ };
            assert(h.push(event).drop_last() =~= h);
            assert(records_of_log(h.push(event)) =~= records_of_log(h));
            self.history@ = h.push(event);
        }
        Ok(())
    }

    fn on_new_generation(&mut self, swarm: &Swarm, iteration: usize) -> (r: Result<
        (),
        ProbeDeliveryError,
    >)
        ensures
            final(self).recorded() == old(self).recorded().push(
                GenerationRecord { iteration, best_fitness: swarm.global_best_fitness },
            ),
            r is Ok,
    {
        proof {
            use_type_invariant(&*self);
        }
        let record = GenerationRecord { iteration, best_fitness: swarm.global_best_fitness };
        let count = self.records.len();
        let mut records: Vec<GenerationRecord> = Vec::new();
        let mut k: usize = 0;
        while k < count
            invariant
                count == self.records@.len(),
                k <= count,
                self == old(self),
                records@ == self.records@.take(k as int),
            decreases count - k,
        {
            records.push(self.records[k]);
            proof {
                assert(self.records@.take(k + 1).drop_last() =~= self.records@.take(k as int));
            }
            k = k + 1;
        }
        proof {
            assert(self.records@.take(count as int) =~= self.records@);
        }
        records.push(record);
        let ghost h2 = self.history@.push(
            ProbeEvent::Generation { iteration: iteration as int, swarm: swarm@ },
        );
        proof {
            use_type_invariant(&*self);
            assert(h2.drop_last() =~= self.history@);
            assert(records_of_log(h2) =~= records@);
        }
        *self = CsvProbe { records, history: Ghost(h2) };
        Ok(())
    }

    fn on_end(&mut self, swarm: &Swarm) -> (r: Result<(), ProbeDeliveryError>)
        ensures
            final(self).recorded() == old(self).recorded(),
            r is Ok,
    {
        proof {
            use_type_invariant(&*self);
            let h = self.history@;
            let event = ProbeEvent::End { swarm: swarm@ };
            assert(h.push(event).drop_last() =~= h);
            assert(records_of_log(h.push(event)) =~= records_of_log(h));
            self.history@ = h.push(event);
        }
        Ok(())
    }
}

/// A record accumulator whose sink holds at most `capacity` records and
/// refuses delivery once full. The refusal is a `ProbeDeliveryError`; the
/// notification still counts as received.
pub struct BoundedProbe {
    /// How many records the sink accepts in total.
    pub capacity: usize,
    /// The records the sink accepted, in delivery order.
    pub records: Vec<GenerationRecord>,
    /// The notifications received so far.
    pub history: Ghost<Seq<ProbeEvent>>,
}

impl BoundedProbe {
    /// A bounded sink for at most `capacity` records, having seen no
    /// event yet.
    pub fn new(capacity: usize) -> (r: BoundedProbe)
        ensures
            r.log() == Seq::<ProbeEvent>::empty(),
            r.records@ == Seq::<GenerationRecord>::empty(),
            r.capacity == capacity,
    {
        BoundedProbe { capacity, records: Vec::new(), history: Ghost(Seq::empty()) }
    }
}

impl Probe for BoundedProbe {
    open spec fn log(&self) -> Seq<ProbeEvent> {
        self.history@
    }

    fn on_begin(&mut self, swarm: &Swarm) -> (r: Result<(), ProbeDeliveryError>)
        ensures
            final(self).records@ == old(self).records@,
            final(self).capacity == old(self).capacity,
            r is Ok,
    {
        proof {
            self.history@ = self.history@.push(ProbeEvent::Begin { swarm: swarm@ });
        }
        Ok(())
    }

    fn on_new_generation(&mut self, swarm: &Swarm, iteration: usize) -> (r: Result<
        (),
        ProbeDeliveryError,
    >)
        ensures
            final(self).capacity == old(self).capacity,
            r is Ok <==> old(self).records@.len() < old(self).capacity,
            r is Ok ==> final(self).records@ == old(self).records@.push(
                GenerationRecord { iteration, best_fitness: swarm.global_best_fitness },
            ),
            r is Err ==> final(self).records@ == old(self).records@,
    {
        let delivered: Result<(), ProbeDeliveryError> = if self.records.len() < self.capacity {
            self.records.push(
                GenerationRecord { iteration, best_fitness: swarm.global_best_fitness },
            );
            Ok(())
        } else {
            Err(ProbeDeliveryError)
        };
        proof {
            self.history@ = self.history@.push(
                ProbeEvent::Generation { iteration: iteration as int, swarm: swarm@ },
            );
        }
        delivered
    }

    fn on_end(&mut self, swarm: &Swarm) -> (r: Result<(), ProbeDeliveryError>)
        ensures
            final(self).records@ == old(self).records@,
            final(self).capacity == old(self).capacity,
            r is Ok,
    {
        proof {
            self.history@ = self.history@.push(ProbeEvent::End { swarm: swarm@ });
        }
        Ok(())
    }
}

} // verus!
