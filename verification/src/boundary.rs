//! The boundary marshaller and the host environment it talks to.
//!
//! The host can only accept fixed-width scalars, so a text value crosses
//! the boundary as an address/length pair into the module's linear
//! memory.  The host environment is modelled explicitly: its memory is a
//! byte vector, and each imported sink records the bytes the host reads
//! out of memory when a pair is handed to it.  The marshalling contract
//! is round-trip identity: the sink records exactly the bytes of the
//! original text value, and the pair's length field is exactly its byte
//! count.

use vstd::prelude::*;
use vstd::string::StrSliceExecFns;
use vstd::string::StringSliceAdditionalSpecFns;

verus! {

/// An address/length pair: the only form in which a variable-length
/// value crosses the module/host boundary.
#[derive(Clone, Copy)]
pub struct Packet {
    pub addr: usize,
    pub len: usize,
}

impl Packet {
    /// The designated region lies inside the given memory.
    pub open spec fn in_bounds(self, mem: Seq<u8>) -> bool {
        self.addr + self.len <= mem.len()
    }

    /// The bytes the pair designates in the given memory.
    pub open spec fn region(self, mem: Seq<u8>) -> Seq<u8>
        recommends
            self.in_bounds(mem),
    {
        mem.subrange(self.addr as int, self.addr + self.len)
    }
}

/// Which of the two imported sinks a delivery is aimed at.
#[derive(Clone, Copy)]
pub enum Sink {
    Info,
    Error,
}

/// The messages a vector of recorded deliveries holds, as byte sequences.
pub open spec fn log_view(v: Seq<Vec<u8>>) -> Seq<Seq<u8>> {
    v.map(|i: int, m: Vec<u8>| m@)
}

proof fn lemma_log_view_push(v: Seq<Vec<u8>>, m: Vec<u8>)
    ensures
        log_view(v.push(m)) == log_view(v).push(m@),
{
    assert(log_view(v.push(m)) =~= log_view(v).push(m@));
}

/// The host environment as the module observes it: the linear memory the
/// two sides share, and the two imported sinks, each recording what the
/// host has read out of memory on every delivery so far.
pub struct Host {
    mem: Vec<u8>,
    info: Vec<Vec<u8>>,
    errors: Vec<Vec<u8>>,
}

impl Host {
    /// The linear memory contents.
    pub closed spec fn memory(self) -> Seq<u8> {
        self.mem@
    }

    /// Every message delivered to the informational sink, oldest first.
    pub closed spec fn info_log(self) -> Seq<Seq<u8>> {
        log_view(self.info@)
    }

    /// Every message delivered to the error sink, oldest first.
    pub closed spec fn error_log(self) -> Seq<Seq<u8>> {
        log_view(self.errors@)
    }

    /// A fresh host binding: empty memory, nothing delivered yet.
    pub fn new() -> (h: Host)
        ensures
            h.memory() == Seq::<u8>::empty(),
            h.info_log() == Seq::<Seq<u8>>::empty(),
            h.error_log() == Seq::<Seq<u8>>::empty(),
    {
        let h = Host { mem: Vec::new(), info: Vec::new(), errors: Vec::new() };
        proof {
            assert(h.memory() =~= Seq::<u8>::empty());
            assert(h.info_log() =~= Seq::<Seq<u8>>::empty());
            assert(h.error_log() =~= Seq::<Seq<u8>>::empty());
        }
        h
    }

    /// Place the bytes of `s` into linear memory and form the
    /// address/length pair under which the host will find them.  The
    /// length field is exactly the byte count of `s`.
    pub fn store_text(&mut self, s: &str) -> (p: Packet)
        ensures
            final(self).memory() == old(self).memory() + s.spec_bytes(),
            final(self).info_log() == old(self).info_log(),
            final(self).error_log() == old(self).error_log(),
            p.addr == old(self).memory().len(),
            p.len == s.spec_bytes().len(),
            p.in_bounds(final(self).memory()),
            p.region(final(self).memory()) == s.spec_bytes(),
    {
        let addr: usize = self.mem.len();
        let len: usize = s.len();
        let mut bytes = s.as_bytes_vec();
        self.mem.append(&mut bytes);
        let total: usize = self.mem.len();
        let p = Packet { addr, len };
        proof {
            // the appended bytes now sit in a vector, so their count fits in usize
            assert(total == addr + s.spec_bytes().len());
            assert(p.region(self.mem@) =~= s.spec_bytes());
        }
        p
    }

    /// What the host does with a pair it receives: read `len` bytes
    /// starting at `addr` out of linear memory.
    pub fn read_region(&self, p: Packet) -> (bytes: Vec<u8>)
        requires
            p.in_bounds(self.memory()),
        ensures
            bytes@ == p.region(self.memory()),
    {
        let total: usize = self.mem.len();
        let mut bytes: Vec<u8> = Vec::new();
        let mut i: usize = 0;
        while i < p.len
            invariant
                i <= p.len,
                p.addr + p.len <= total,
                total == self.memory().len(),
                bytes@ == self.memory().subrange(p.addr as int, p.addr + i),
            decreases p.len - i,
        {
            bytes.push(self.mem[p.addr + i]);
            i = i + 1;
            proof {
                assert(bytes@ =~= self.memory().subrange(p.addr as int, p.addr + i));
            }
        }
        bytes
    }

    /// Deliver a pair to one of the sinks: the host reads the designated
    /// bytes and records them.  Memory and the other sink are untouched.
    pub fn deliver(&mut self, p: Packet, sink: Sink)
        requires
            p.in_bounds(old(self).memory()),
        ensures
            final(self).memory() == old(self).memory(),
            (sink matches Sink::Info) ==> {
                &&& final(self).info_log() == old(self).info_log().push(
                    p.region(old(self).memory()),
                )
                &&& final(self).error_log() == old(self).error_log()
            },
            (sink matches Sink::Error) ==> {
                &&& final(self).error_log() == old(self).error_log().push(
                    p.region(old(self).memory()),
                )
                &&& final(self).info_log() == old(self).info_log()
            },
    {
        let bytes = self.read_region(p);
        let ghost b = bytes;
        match sink {
            Sink::Info => {
                self.info.push(bytes);
                proof {
                    lemma_log_view_push(old(self).info@, b);
                }
            },
            Sink::Error => {
                self.errors.push(bytes);
                proof {
                    lemma_log_view_push(old(self).errors@, b);
                }
            },
        }
    }

    /// How many messages the informational sink has recorded.
    pub fn info_count(&self) -> (n: usize)
        ensures
            n == self.info_log().len(),
    {
        self.info.len()
    }

    /// How many messages the error sink has recorded.
    pub fn error_count(&self) -> (n: usize)
        ensures
            n == self.error_log().len(),
    {
        self.errors.len()
    }

    /// The bytes of one recorded informational message.
    pub fn info_message(&self, i: usize) -> (m: &Vec<u8>)
        requires
            i < self.info_log().len(),
        ensures
            m@ == self.info_log()[i as int],
    {
        &self.info[i]
    }

    /// The bytes of one recorded error message.
    pub fn error_message(&self, i: usize) -> (m: &Vec<u8>)
        requires
            i < self.error_log().len(),
        ensures
            m@ == self.error_log()[i as int],
    {
        &self.errors[i]
    }
}

/// Marshal a text value and invoke the chosen sink with the resulting
/// address/length pair.  Round-trip identity: the sink records exactly
/// the bytes of `s`, whatever its length.
pub fn wrap(host: &mut Host, s: &str, sink: Sink)
    ensures
        final(host).memory() == old(host).memory() + s.spec_bytes(),
        (sink matches Sink::Info) ==> {
            &&& final(host).info_log() == old(host).info_log().push(s.spec_bytes())
            &&& final(host).error_log() == old(host).error_log()
        },
        (sink matches Sink::Error) ==> {
            &&& final(host).error_log() == old(host).error_log().push(s.spec_bytes())
            &&& final(host).info_log() == old(host).info_log()
        },
{
    let p = host.store_text(s);
    host.deliver(p, sink);
}

/// Forward `s` to the informational sink (the host's console log).
pub fn log(host: &mut Host, s: &str)
    ensures
        final(host).memory() == old(host).memory() + s.spec_bytes(),
        final(host).info_log() == old(host).info_log().push(s.spec_bytes()),
        final(host).error_log() == old(host).error_log(),
{
    wrap(host, s, Sink::Info);
}

/// Forward `s` to the error sink (the host's console error channel).
pub fn error(host: &mut Host, s: &str)
    ensures
        final(host).memory() == old(host).memory() + s.spec_bytes(),
        final(host).error_log() == old(host).error_log().push(s.spec_bytes()),
        final(host).info_log() == old(host).info_log(),
{
    wrap(host, s, Sink::Error);
}

} // verus!
