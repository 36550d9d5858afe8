//! Timestamped NMEA streams: each line is `\s:serial,c:timestamp*checksum`
//! followed by `\!` and the rest of an NMEA sentence.

use vstd::prelude::*;
use crate::decode::ais::Message;
use crate::decode::nmea::{
    MessageAssembler, NmeaAisMessage, NmeaError, NmeaView, PendingView, add_fragment_safe,
    outcome_view, spec_add_fragment, spec_parse,
};
use crate::sources::nmea::trimmed;
use crate::text::{chars_of, parse_uint, parse_unsigned, split, split_chars, string_from_chars, sub_chars, trim, views};
use vstd::string::StringExecFns;

verus! {

/// A complete binary AIS message with the time and serial number of the
/// line that completed it.
#[derive(Debug, Clone)]
pub struct TimestampedMessage {
    pub timestamp: u64,
    pub binary_data: Vec<u8>,
    pub serial: u64,
}

impl TimestampedMessage {
    /// Decodes the binary data into an AIS message.
    pub fn decode(&self) -> (r: Option<Message>)
        ensures
            match r {
                Some(m) => Message::outcome(self.binary_data@) is Ok && m.decodes(self.binary_data@),
                None => Message::outcome(self.binary_data@) is Err,
            },
    {
        match Message::from_bytes(self.binary_data.as_slice()) {
            Ok(m) => Some(m),
            Err(_) => None,
        }
    }
}

/// Why a line is not a timestamped sentence.
#[derive(Debug, Clone, Copy, PartialEq, Eq, Structural)]
pub enum TimestampError {
    /// There is no `\!` before an NMEA sentence.
    MissingSentence,
    /// The line does not start with `\s:`.
    MissingSerialPrefix,
    /// The tag does not hold exactly one `*`.
    MissingChecksum,
    /// The tag does not hold exactly two comma separated fields.
    WrongFields,
    /// The serial number is not a `u64`.
    InvalidSerial,
    /// The second field does not start with `c:`.
    MissingTimestampPrefix,
    /// The timestamp is not a `u64`.
    InvalidTimestamp,
}

impl TimestampError {
    pub open spec fn text(self) -> Seq<char> {
        match self {
            TimestampError::MissingSentence => "Invalid timestamped format: missing \\!"@,
            TimestampError::MissingSerialPrefix => "Invalid timestamped format: missing \\s:"@,
            TimestampError::MissingChecksum => "Invalid timestamped format: missing checksum"@,
            TimestampError::WrongFields => "Invalid timestamped format: expected s:serial,c:timestamp"@,
            TimestampError::InvalidSerial => "Invalid serial number"@,
            TimestampError::MissingTimestampPrefix => "Invalid timestamped format: missing c: prefix"@,
            TimestampError::InvalidTimestamp => "Invalid timestamp"@,
        }
    }

    /// The message describing the error.
    pub fn message(&self) -> (r: String)
        ensures
            r@ == self.text(),
    {
        match self {
            TimestampError::MissingSentence => String::from_str(
                "Invalid timestamped format: missing \\!",
            ),
            TimestampError::MissingSerialPrefix => String::from_str(
                "Invalid timestamped format: missing \\s:",
            ),
            TimestampError::MissingChecksum => String::from_str(
                "Invalid timestamped format: missing checksum",
            ),
            TimestampError::WrongFields => String::from_str(
                "Invalid timestamped format: expected s:serial,c:timestamp",
            ),
            TimestampError::InvalidSerial => String::from_str("Invalid serial number"),
            TimestampError::MissingTimestampPrefix => String::from_str(
                "Invalid timestamped format: missing c: prefix",
            ),
            TimestampError::InvalidTimestamp => String::from_str("Invalid timestamp"),
        }
    }
}

/// The first index `i >= from` where `s` holds `\!`.
pub open spec fn find_sentence(s: Seq<char>, from: int) -> Option<int>
    decreases s.len() - from,
{
    if from < 0 || from + 1 >= s.len() {
        None
    } else if s[from] == '\\' && s[from + 1] == '!' {
        Some(from)
    } else {
        find_sentence(s, from + 1)
    }
}

/// What a timestamped line holds: its serial number, its timestamp and the
/// NMEA sentence (`!` and what follows the first `\!`), or why it holds none.
pub open spec fn spec_parse_timestamped(line: Seq<char>) -> Result<(u64, u64, Seq<char>), TimestampError> {
    match find_sentence(line, 0) {
        None => Err(TimestampError::MissingSentence),
        Some(i) => {
            let tag = line.take(i);
            let sentence = seq!['!'] + line.skip(i + 2);
            if !(tag.len() >= 3 && tag[0] == '\\' && tag[1] == 's' && tag[2] == ':') {
                Err(TimestampError::MissingSerialPrefix)
            } else {
                let parts = split(tag.skip(3), '*');
                if parts.len() != 2 {
                    Err(TimestampError::MissingChecksum)
                } else {
                    let fields = split(parts[0], ',');
                    if fields.len() != 2 {
                        Err(TimestampError::WrongFields)
                    } else {
                        match parse_uint(fields[0], 10, u64::MAX as nat) {
                            None => Err(TimestampError::InvalidSerial),
                            Some(serial) => if !(fields[1].len() >= 2 && fields[1][0] == 'c'
                                && fields[1][1] == ':') {
                                Err(TimestampError::MissingTimestampPrefix)
                            } else {
                                match parse_uint(fields[1].skip(2), 10, u64::MAX as nat) {
                                    None => Err(TimestampError::InvalidTimestamp),
                                    Some(t) => Ok((serial as u64, t as u64, sentence)),
                                }
                            },
                        }
                    }
                }
            }
        },
    }
}

/// Splits a timestamped line into serial number, timestamp and NMEA
/// sentence.
pub fn parse_timestamped_line(line: &str) -> (r: Result<(u64, u64, String), TimestampError>)
    ensures
        match r {
            Ok((serial, t, sentence)) => spec_parse_timestamped(line@) == Ok::<
                (u64, u64, Seq<char>),
                TimestampError,
            >((serial, t, sentence@)),
            Err(e) => spec_parse_timestamped(line@) == Err::<(u64, u64, Seq<char>), TimestampError>(e),
        },
{
    let s = chars_of(line);
    let n = s.len();
    let mut j: usize = 0;
    let mut found: Option<usize> = None;
    while found.is_none() && n > 0 && j < n - 1
        invariant
            s@ == line@,
            n == s@.len(),
            j <= n,
            found is None ==> find_sentence(s@, 0) == find_sentence(s@, j as int),
            found matches Some(k) ==> find_sentence(s@, 0) == Some(k as int) && k + 1 < n,
        decreases n - j,
    {
        if s[j] == '\\' && s[j + 1] == '!' {
            found = Some(j);
        }
        j = j + 1;
    }
    let i = match found {
        None => {
            return Err(TimestampError::MissingSentence);
        },
        Some(k) => k,
    };
    let tag = sub_chars(s.as_slice(), 0, i);
    let mut sentence: Vec<char> = Vec::new();
    sentence.push('!');
    let rest = sub_chars(s.as_slice(), i + 2, n);
    let mut k: usize = 0;
    while k < rest.len()
        invariant
            k <= rest@.len(),
            sentence@ == seq!['!'] + rest@.take(k as int),
        decreases rest@.len() - k,
    {
        sentence.push(rest[k]);
        assert(rest@.take(k + 1) =~= rest@.take(k as int).push(rest@[k as int]));
        k = k + 1;
    }
    proof {
        assert(rest@.take(rest@.len() as int) =~= rest@);
        assert(tag@ =~= s@.take(i as int));
        assert(rest@ =~= s@.skip(i + 2));
    }
    if !(tag.len() >= 3 && tag[0] == '\\' && tag[1] == 's' && tag[2] == ':') {
        return Err(TimestampError::MissingSerialPrefix);
    }
    let content = sub_chars(tag.as_slice(), 3, tag.len());
    assert(content@ =~= tag@.skip(3));
    let parts = split_chars(content.as_slice(), '*');
    if parts.len() != 2 {
        return Err(TimestampError::MissingChecksum);
    }
    assert(parts@[0]@ == split(tag@.skip(3), '*')[0]);
    let fields = split_chars(parts[0].as_slice(), ',');
    if fields.len() != 2 {
        return Err(TimestampError::WrongFields);
    }
    let ghost fv = split(parts@[0]@, ',');
    assert(fields@[0]@ == fv[0] && fields@[1]@ == fv[1]);
    let serial = match parse_unsigned(fields[0].as_slice(), 10, u64::MAX) {
        None => {
            return Err(TimestampError::InvalidSerial);
        },
        Some(v) => v,
    };
    let f1 = &fields[1];
    if !(f1.len() >= 2 && f1[0] == 'c' && f1[1] == ':') {
        return Err(TimestampError::MissingTimestampPrefix);
    }
    let digits = sub_chars(f1.as_slice(), 2, f1.len());
    assert(digits@ =~= fv[1].skip(2));
    let timestamp = match parse_unsigned(digits.as_slice(), 10, u64::MAX) {
        None => {
            return Err(TimestampError::InvalidTimestamp);
        },
        Some(v) => v,
    };
    Ok((serial, timestamp, string_from_chars(sentence.as_slice())))
}

/// What one line of a timestamped stream gives.
#[derive(Debug)]
pub enum TimestampedStep {
    /// The line was a fragment of a message whose other fragments are
    /// still missing.
    NeedMore,
    /// The line is not a timestamped sentence and is skipped.
    Skipped(TimestampError),
    /// A complete message.
    Message(TimestampedMessage),
    /// The sentence did not parse, or its fragment did not fit.
    Error(NmeaError),
}

/// Whether feeding the timestamped `line` to an assembler with pending
/// entries `p` causes no arithmetic fault.
pub open spec fn timestamped_line_safe(p: PendingView, line: Seq<char>) -> bool {
    match spec_parse_timestamped(trim(line)) {
        Ok((_, _, sentence)) => match spec_parse(sentence) {
            Ok(m) => add_fragment_safe(p, m),
            Err(_) => true,
        },
        Err(_) => true,
    }
}

/// Collects complete binary AIS messages from a timestamped NMEA stream.
pub struct TimestampedNmeaIterator {
    assembler: MessageAssembler,
}

impl TimestampedNmeaIterator {
    /// The pending fragments.
    pub closed spec fn pending(&self) -> PendingView {
        self.assembler.pending()
    }

    pub closed spec fn wf(&self) -> bool {
        self.assembler.wf()
    }

    pub fn new() -> (r: Self)
        ensures
            r.wf(),
            r.pending() == Seq::<(Seq<char>, Seq<Option<NmeaView>>)>::empty(),
    {
        TimestampedNmeaIterator { assembler: MessageAssembler::new() }
    }

    /// Whether `line` can be fed without an arithmetic fault.
    pub fn accepts_line(&self, line: &str) -> (r: bool)
        requires
            self.wf(),
        ensures
            r == timestamped_line_safe(self.pending(), line@),
    {
        let t = trimmed(line);
        match parse_timestamped_line(t.as_str()) {
            Ok((_, _, sentence)) => match NmeaAisMessage::parse(sentence.as_str()) {
                Ok(m) => self.assembler.accepts(&m),
                Err(_) => true,
            },
            Err(_) => true,
        }
    }

    /// Feeds the next line of the stream: the line is trimmed and split, its
    /// sentence parsed and added to the pending fragments.
    pub fn next_from_line(&mut self, line: &str) -> (r: TimestampedStep)
        requires
            old(self).wf(),
            timestamped_line_safe(old(self).pending(), line@),
        ensures
            final(self).wf(),
            match spec_parse_timestamped(trim(line@)) {
                Err(e) => final(self).pending() == old(self).pending() && r == TimestampedStep::Skipped(e),
                Ok((serial, t, sentence)) => match spec_parse(sentence) {
                    Err(e) => final(self).pending() == old(self).pending() && r == TimestampedStep::Error(e),
                    Ok(m) => {
                        let (p2, out) = spec_add_fragment(old(self).pending(), m);
                        &&& final(self).pending() == p2
                        &&& match out {
                            Err(e) => r == TimestampedStep::Error(e),
                            Ok(None) => r is NeedMore,
                            Ok(Some(b)) => match r {
                                TimestampedStep::Message(msg) => msg.timestamp == t && msg.serial == serial
                                    && msg.binary_data@ == b,
                                _ => false,
                            },
                        }
                    },
                },
            },
    {
        let t = trimmed(line);
        let (serial, timestamp, sentence) = match parse_timestamped_line(t.as_str()) {
            Ok(parsed) => parsed,
            Err(e) => {
                return TimestampedStep::Skipped(e);
            },
        };
        let m = match NmeaAisMessage::parse(sentence.as_str()) {
            Ok(m) => m,
            Err(e) => {
                return TimestampedStep::Error(e);
            },
        };
        let r = self.assembler.add_fragment(m);
        assert(outcome_view(r) == spec_add_fragment(old(self).pending(), m@).1);
        match r {
            Ok(Some(b)) => TimestampedStep::Message(
                TimestampedMessage { timestamp, binary_data: b, serial },
            ),
            Ok(None) => TimestampedStep::NeedMore,
            Err(e) => TimestampedStep::Error(e),
        }
    }
}

} // verus!
