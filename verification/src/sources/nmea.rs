//! Decoding an NMEA stream line by line.

use vstd::prelude::*;
use crate::decode::ais::Message;
use crate::decode::nmea::{
    MessageAssembler, NmeaAisMessage, NmeaError, NmeaView, PendingView, add_fragment_safe,
    outcome_view, result_view, spec_add_fragment, spec_parse,
};
use crate::text::{chars_of, string_from_chars, trim, trim_chars};

verus! {

/// What one line of an NMEA stream gives.
#[derive(Debug)]
pub enum NmeaStep {
    /// The line was a fragment of a message whose other fragments are
    /// still missing.
    NeedMore,
    /// A complete message.
    Message(Message),
    /// The line did not parse, or its fragment did not fit.
    Error(NmeaError),
    /// A complete binary message that did not decode: the stream ends.
    Stop,
}

/// Whether feeding `line` to an assembler with pending entries `p` causes no
/// arithmetic fault.
pub open spec fn line_safe(p: PendingView, line: Seq<char>) -> bool {
    match spec_parse(trim(line)) {
        Ok(m) => add_fragment_safe(p, m),
        Err(_) => true,
    }
}

/// Decodes the AIS messages of an NMEA stream, assembling multi-fragment
/// messages.
pub struct NmeaIterator {
    assembler: MessageAssembler,
}

impl NmeaIterator {
    /// The pending fragments.
    pub closed spec fn pending(&self) -> PendingView {
        self.assembler.pending()
    }

    pub closed spec fn wf(&self) -> bool {
        self.assembler.wf()
    }

    pub fn new() -> (r: Self)
        ensures
            r.wf(),
            r.pending() == Seq::<(Seq<char>, Seq<Option<NmeaView>>)>::empty(),
    {
        NmeaIterator { assembler: MessageAssembler::new() }
    }

    /// Whether `line` can be fed without an arithmetic fault.
    pub fn accepts_line(&self, line: &str) -> (r: bool)
        requires
            self.wf(),
        ensures
            r == line_safe(self.pending(), line@),
    {
        let t = trimmed(line);
        match NmeaAisMessage::parse(t.as_str()) {
            Ok(m) => self.assembler.accepts(&m),
            Err(_) => true,
        }
    }

    /// Feeds the next line of the stream: the line is trimmed, parsed and
    /// added to the pending fragments.
    pub fn next_from_line(&mut self, line: &str) -> (r: NmeaStep)
        requires
            old(self).wf(),
            line_safe(old(self).pending(), line@),
        ensures
            final(self).wf(),
            match spec_parse(trim(line@)) {
                Err(e) => final(self).pending() == old(self).pending() && r == NmeaStep::Error(e),
                Ok(m) => {
                    let (p2, out) = spec_add_fragment(old(self).pending(), m);
                    &&& final(self).pending() == p2
                    &&& match out {
                        Err(e) => r == NmeaStep::Error(e),
                        Ok(None) => r is NeedMore,
                        Ok(Some(b)) => match r {
                            NmeaStep::Message(msg) => Message::outcome(b) is Ok && msg.decodes(b),
                            NmeaStep::Stop => Message::outcome(b) is Err,
                            _ => false,
                        },
                    }
                },
            },
    {
        let t = trimmed(line);
        let m = match NmeaAisMessage::parse(t.as_str()) {
            Ok(m) => m,
            Err(e) => {
                return NmeaStep::Error(e);
            },
        };
        let r = self.assembler.add_fragment(m);
        assert(outcome_view(r) == spec_add_fragment(old(self).pending(), m@).1);
        match r {
            Ok(Some(b)) => match Message::from_bytes(b.as_slice()) {
                Ok(msg) => NmeaStep::Message(msg),
                Err(_) => NmeaStep::Stop,
            },
            Ok(None) => NmeaStep::NeedMore,
            Err(e) => NmeaStep::Error(e),
        }
    }
}

/// `line` with surrounding whitespace removed.
pub(crate) fn trimmed(line: &str) -> (r: String)
    ensures
        r@ == trim(line@),
{
    let cs = chars_of(line);
    let t = trim_chars(cs.as_slice());
    string_from_chars(t.as_slice())
}

} // verus!
