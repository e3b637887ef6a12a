//! Framing of the replies that come over a socket: a JSON reply ends at a
//! newline, or travels COBS-encoded between two zero bytes.

use vstd::prelude::*;

verus! {

/// The index of the first newline in `s`.
pub open spec fn first_newline(s: Seq<u8>) -> Option<int>
    decreases s.len(),
{
    if s.len() == 0 {
        None
    } else if s[0] == 10 {
        Some(0)
    } else {
        match first_newline(s.subrange(1, s.len() as int)) {
            Some(i) => Some(i + 1),
            None => None,
        }
    }
}

/// A reply ends at the first newline byte (10): `first_newline(s)` is the
/// index of a newline with none before it, and `None` only where `s` holds
/// no newline at all.
pub proof fn lemma_first_newline(s: Seq<u8>)
    ensures
        first_newline(s) matches Some(i) ==> 0 <= i < s.len() && s[i] == 10 && forall|j: int|
            0 <= j < i ==> s[j] != 10,
        first_newline(s) is None ==> forall|j: int| 0 <= j < s.len() ==> s[j] != 10,
    decreases s.len(),
{
    if s.len() > 0 && s[0] != 10 {
        let t = s.subrange(1, s.len() as int);
        lemma_first_newline(t);
        assert forall|j: int| 1 <= j < s.len() implies s[j] == t[j - 1] by {}
    }
}

/// What to do after a read.
#[derive(Debug)]
pub enum LineStep {
    /// Read again.
    Read,
    /// The reply is complete.
    Done,
    /// The socket closed before a reply came.
    Eof,
    /// These bytes, up to and including the newline, are the reply: parse
    /// them, then read again while draining, else stop.
    Parse(Vec<u8>),
}

/// Collects the bytes of one newline-terminated reply. Bytes after the
/// newline are drained: read and dropped until the socket has no more.
pub struct LineReader {
    buf: Vec<u8>,
    draining: bool,
}

impl LineReader {
    /// The bytes held, not yet part of a reply.
    pub closed spec fn pending(&self) -> Seq<u8> {
        self.buf@
    }

    /// Whether the reply came and the rest is being drained.
    pub closed spec fn spec_draining(&self) -> bool {
        self.draining
    }

    pub fn new() -> (r: LineReader)
        ensures
            r.pending() == Seq::<u8>::empty(),
            !r.spec_draining(),
    {
        LineReader { buf: Vec::new(), draining: false }
    }

    pub fn draining(&self) -> (r: bool)
        ensures
            r == self.spec_draining(),
    {
        self.draining
    }

    /// Takes in the bytes of a read.
    pub fn on_data(&mut self, chunk: &[u8]) -> (r: LineStep)
        ensures
            old(self).spec_draining() ==> r is Read && final(self).pending() == old(self).pending()
                && final(self).spec_draining(),
            !old(self).spec_draining() ==> match first_newline(old(self).pending() + chunk@) {
                None => r is Read && final(self).pending() == old(self).pending() + chunk@
                    && !final(self).spec_draining(),
                Some(p) => r matches LineStep::Parse(f) && f@ == (old(self).pending() + chunk@).subrange(0, p + 1)
                    && final(self).pending() == (old(self).pending() + chunk@).subrange(p + 1, (old(self).pending() + chunk@).len() as int)
                    && final(self).spec_draining() == (p + 1 < (old(self).pending() + chunk@).len()),
            },
    {
        if self.draining {
            return LineStep::Read;
        }
        let ghost all = self.buf@ + chunk@;
        let mut i: usize = 0;
        while i < chunk.len()
            invariant
                i <= chunk@.len(),
                self.buf@ == old(self).buf@ + chunk@.subrange(0, i as int),
                !self.draining,
            decreases chunk@.len() - i,
        {
            self.buf.push(chunk[i]);
            i = i + 1;
            assert(self.buf@ =~= old(self).buf@ + chunk@.subrange(0, i as int));
        }
        assert(chunk@.subrange(0, chunk@.len() as int) =~= chunk@);
        assert(self.buf@ == all);
        proof {
            lemma_first_newline(all);
        }
        let mut k: usize = 0;
        assert(all.subrange(0, all.len() as int) =~= all);
        while k < self.buf.len()
            invariant
                self.buf@ == all,
                k <= all.len(),
                first_newline(all) == match first_newline(all.subrange(k as int, all.len() as int)) {
                    Some(j) => Some(j + k),
                    None => None::<int>,
                },
            ensures
                self.buf@ == all,
                k <= all.len(),
                first_newline(all) == match first_newline(all.subrange(k as int, all.len() as int)) {
                    Some(j) => Some(j + k),
                    None => None::<int>,
                },
                k < all.len() ==> all[k as int] == 10,
            decreases all.len() - k,
        {
            let ghost rest = all.subrange(k as int, all.len() as int);
            assert(rest.subrange(1, rest.len() as int) =~= all.subrange(k + 1, all.len() as int));
            if self.buf[k] == 10 {
                break;
            }
            k = k + 1;
        }
        if k == self.buf.len() {
            assert(all.subrange(k as int, all.len() as int).len() == 0);
            return LineStep::Read;
        }
        let mut frame: Vec<u8> = Vec::new();
        let mut rest: Vec<u8> = Vec::new();
        let mut j: usize = 0;
        while j < self.buf.len()
            invariant
                self.buf@ == all,
                k < all.len(),
                j <= all.len(),
                j <= k + 1 ==> frame@ == all.subrange(0, j as int) && rest@ == Seq::<u8>::empty(),
                j > k + 1 ==> frame@ == all.subrange(0, k + 1) && rest@ == all.subrange(k + 1, j as int),
            decreases all.len() - j,
        {
            if j <= k {
                frame.push(self.buf[j]);
            } else {
                rest.push(self.buf[j]);
            }
            j = j + 1;
            assert(frame@ =~= all.subrange(0, if j <= k + 1 { j as int } else { k + 1 }));
            assert(j > k + 1 ==> rest@ =~= all.subrange(k + 1, j as int));
        }
        assert(rest@ =~= all.subrange(k + 1, all.len() as int));
        self.draining = rest.len() > 0;
        self.buf = rest;
        LineStep::Parse(frame)
    }

    /// The socket reported that it has closed.
    pub fn on_eof(&self) -> (r: LineStep)
        ensures
            self.spec_draining() ==> r is Done,
            !self.spec_draining() ==> r is Eof,
    {
        if self.draining {
            LineStep::Done
        } else {
            LineStep::Eof
        }
    }

    /// The socket has no data for now.
    pub fn on_would_block(&self) -> (r: LineStep)
        ensures
            self.spec_draining() ==> r is Done,
            !self.spec_draining() ==> r is Read,
    {
        if self.draining {
            LineStep::Done
        } else {
            LineStep::Read
        }
    }
}

/// The COBS encoding of `data` between zero sentinels, as
/// `cobs::encode_vec_including_sentinels` gives it.
pub uninterp spec fn cobs_framed(data: Seq<u8>) -> Seq<u8>;

/// The message that the COBS frame body `encoded` decodes to, as
/// `cobs::decode_in_place` gives it, or `None` where it rejects the body.
pub uninterp spec fn cobs_decoding(encoded: Seq<u8>) -> Option<Seq<u8>>;

/// Encodes `data` with COBS between two zero bytes.
///
/// Trusted: calls `cobs::encode_vec_including_sentinels`. Its source writes a
/// zero first and returns at least the two sentinel bytes; the rest of the
/// result is named, not stated.
#[verifier::external_body]
fn cobs_encode_framed(data: &[u8]) -> (r: Vec<u8>)
    ensures
        r@ == cobs_framed(data@),
        r@.len() >= 2,
        r@[0] == 0,
{
    cobs::encode_vec_including_sentinels(data)
}

/// Decodes in place the COBS body `buf[start..end]`.
///
/// Trusted: calls `cobs::decode_in_place` on that slice. Its source writes
/// only inside the slice, writes the decoded message at the slice's start
/// and returns its length, which is at most the slice's; on a malformed
/// body it fails (the error is dropped here) and the slice may have been
/// partly overwritten. The decoded message itself is named, not stated.
#[verifier::external_body]
fn cobs_decode_range(buf: &mut Vec<u8>, start: usize, end: usize) -> (r: Option<usize>)
    requires
        start <= end <= old(buf)@.len(),
    ensures
        final(buf)@.len() == old(buf)@.len(),
        forall|k: int| 0 <= k < old(buf)@.len() && !(start <= k < end) ==> final(buf)@[k] == old(buf)@[k],
        match cobs_decoding(old(buf)@.subrange(start as int, end as int)) {
            Some(d) => r == Some(d.len() as usize) && d.len() <= end - start && final(buf)@.subrange(
                start as int,
                start + d.len(),
            ) == d,
            None => r is None,
        },
{
    match cobs::decode_in_place(&mut buf[start..end]) {
        Ok(n) => Some(n),
        Err(_) => None,
    }
}

/// The bytes to send for the request `json`: COBS-encoded between zeros.
pub fn encode_request(json: &[u8]) -> (r: Vec<u8>)
    ensures
        r@ == cobs_framed(json@),
        r@.len() >= 2,
        r@[0] == 0,
{
    cobs_encode_framed(json)
}

/// How many zeros `s` holds.
pub open spec fn count_zeros(s: Seq<u8>) -> nat
    decreases s.len(),
{
    if s.len() == 0 {
        0
    } else {
        count_zeros(s.drop_last()) + if s.last() == 0 { 1nat } else { 0nat }
    }
}

/// Zeros are counted byte by byte: a single byte counts one exactly when it
/// is zero, and the count of two runs of bytes together is the sum of theirs.
pub proof fn lemma_count_zeros(s: Seq<u8>, t: Seq<u8>, b: u8)
    ensures
        count_zeros(seq![b]) == (if b == 0 { 1nat } else { 0nat }),
        count_zeros(s + t) == count_zeros(s) + count_zeros(t),
    decreases t.len(),
{
    assert(seq![b].drop_last() =~= Seq::<u8>::empty());
    assert(count_zeros(Seq::<u8>::empty()) == 0);
    assert(seq![b].last() == b);
    if t.len() > 0 {
        lemma_count_zeros(s, t.drop_last(), b);
        assert((s + t).drop_last() =~= s + t.drop_last());
        assert((s + t).last() == t.last());
    } else {
        assert(s + t =~= s);
    }
}

/// The index of the second zero of `s`.
pub open spec fn second_zero(s: Seq<u8>) -> Option<int> {
    if exists|j: int| 0 <= j < s.len() && s[j] == 0 && count_zeros(s.subrange(0, j)) == 1 {
        Some(choose|j: int| 0 <= j < s.len() && s[j] == 0 && count_zeros(s.subrange(0, j)) == 1)
    } else {
        None
    }
}

proof fn lemma_count_zeros_step(s: Seq<u8>, j: int)
    requires
        0 <= j < s.len(),
    ensures
        count_zeros(s.subrange(0, j + 1)) == count_zeros(s.subrange(0, j)) + if s[j] == 0 { 1nat } else { 0nat },
{
    assert(s.subrange(0, j + 1).drop_last() =~= s.subrange(0, j));
}

proof fn lemma_second_zero_unique(s: Seq<u8>, j: int, k: int)
    requires
        0 <= j < k < s.len(),
        s[j] == 0,
        count_zeros(s.subrange(0, j)) == 1,
    ensures
        count_zeros(s.subrange(0, k)) >= 2,
    decreases k - j,
{
    lemma_count_zeros_step(s, j);
    if k > j + 1 {
        lemma_count_zeros_step(s, k - 1);
        lemma_count_zeros_up(s, j + 1, k - 1);
    }
}

proof fn lemma_count_zeros_up(s: Seq<u8>, a: int, b: int)
    requires
        0 <= a <= b <= s.len(),
    ensures
        count_zeros(s.subrange(0, a)) <= count_zeros(s.subrange(0, b)),
    decreases b - a,
{
    if a < b {
        lemma_count_zeros_step(s, b - 1);
        lemma_count_zeros_up(s, a, b - 1);
    }
}

/// Collects one COBS frame: from a zero byte to the next, decoded.
pub struct CobsReader {
    buf: Vec<u8>,
    zeroes: usize,
}

impl CobsReader {
    /// The bytes held.
    pub closed spec fn held(&self) -> Seq<u8> {
        self.buf@
    }

    /// How many zero bytes have come in (saturating).
    pub closed spec fn zeroes(&self) -> usize {
        self.zeroes
    }

    pub fn new() -> (r: CobsReader)
        ensures
            r.held() == Seq::<u8>::empty(),
            r.zeroes() == 0,
    {
        CobsReader { buf: Vec::new(), zeroes: 0 }
    }

    /// Takes in the bytes of a read, and gives the decoded frame once two
    /// zero bytes have come and the body between the first two zeros held
    /// decodes; otherwise more must be read.
    pub fn on_data(&mut self, chunk: &[u8]) -> (r: Option<Vec<u8>>)
        ensures
            final(self).zeroes() == if old(self).zeroes() + count_zeros(chunk@) > usize::MAX {
                usize::MAX as int
            } else {
                old(self).zeroes() + count_zeros(chunk@)
            },
            ({
                let all = old(self).held() + chunk@;
                if final(self).zeroes() < 2 {
                    r is None && final(self).held() == all
                } else {
                    match second_zero(all) {
                        None => r is None && final(self).held() == all,
                        Some(z) => final(self).held().len() == all.len() && match cobs_decoding(all.subrange(1, z)) {
                            Some(d) => r matches Some(f) && f@ == d,
                            None => r is None,
                        },
                    }
                }
            }),
    {
        let ghost all = self.buf@ + chunk@;
        let mut i: usize = 0;
        let mut count: usize = 0;
        while i < chunk.len()
            invariant
                i <= chunk@.len(),
                self.buf@ == old(self).buf@ + chunk@.subrange(0, i as int),
                self.zeroes == old(self).zeroes,
                count == count_zeros(chunk@.subrange(0, i as int)),
                count <= i,
            decreases chunk@.len() - i,
        {
            proof {
                lemma_count_zeros_step(chunk@, i as int);
            }
            if chunk[i] == 0 {
                count = count + 1;
            }
            self.buf.push(chunk[i]);
            i = i + 1;
            assert(self.buf@ =~= old(self).buf@ + chunk@.subrange(0, i as int));
        }
        assert(chunk@.subrange(0, chunk@.len() as int) =~= chunk@);
        self.zeroes = self.zeroes.saturating_add(count);
        if self.zeroes < 2 {
            return None;
        }
        assert(all.subrange(0, all.len() as int) =~= all);
        // the second zero held
        let mut j: usize = 0;
        let mut seen: usize = 0;
        while j < self.buf.len()
            invariant
                self.buf@ == all,
                j <= all.len(),
                seen == count_zeros(all.subrange(0, j as int)),
                seen <= 1,
            ensures
                self.buf@ == all,
                j <= all.len(),
                j < all.len() ==> all[j as int] == 0 && count_zeros(all.subrange(0, j as int)) == 1,
                j == all.len() ==> count_zeros(all.subrange(0, all.len() as int)) <= 1,
            decreases all.len() - j,
        {
            proof {
                lemma_count_zeros_step(all, j as int);
            }
            if self.buf[j] == 0 {
                if seen == 1 {
                    break;
                }
                seen = seen + 1;
            }
            j = j + 1;
        }
        if j == self.buf.len() {
            proof {
                assert(all.subrange(0, all.len() as int) =~= all);
                if second_zero(all) is Some {
                    let z = second_zero(all).unwrap();
                    assert(0 <= z < all.len() && all[z] == 0 && count_zeros(all.subrange(0, z)) == 1);
                    lemma_count_zeros_step(all, z);
                    lemma_count_zeros_up(all, z + 1, all.len() as int);
                }
            }
            return None;
        }
        proof {
            let z = second_zero(all).unwrap();
            assert(all[j as int] == 0 && count_zeros(all.subrange(0, j as int)) == 1);
            if z < j {
                lemma_second_zero_unique(all, z, j as int);
            } else if j < z {
                lemma_second_zero_unique(all, j as int, z);
            }
            assert(z == j);
        }
        if j < 1 {
            proof {
                assert(count_zeros(all.subrange(0, 0)) == 0);
            }
            return None;
        }
        match cobs_decode_range(&mut self.buf, 1, j) {
            Some(n) => {
                let mut frame: Vec<u8> = Vec::new();
                let mut k: usize = 0;
                while k < n
                    invariant
                        k <= n,
                        1 + n <= self.buf@.len(),
                        frame@ == self.buf@.subrange(1, 1 + k),
                    decreases n - k,
                {
                    frame.push(self.buf[1 + k]);
                    k = k + 1;
                    assert(frame@ =~= self.buf@.subrange(1, 1 + k));
                }
                Some(frame)
            },
            None => None,
        }
    }
}

} // verus!
