//! The output-sink collaborator.
//!
//! An [`OutStream`] accepts bytes and can be flushed; either operation may
//! report a failure, which callers propagate rather than swallow. The
//! no-op [`Sink`] reports every byte as consumed and never fails; the
//! in-memory [`ByteBuf`] keeps what was written so it can be inspected.

use vstd::prelude::*;

verus! {

use vstd::slice::slice_subrange;

/// A write or flush failure reported by an output sink.
#[derive(Clone, Copy, PartialEq, Eq, Structural, Debug)]
pub struct WriteError;

/// The output-sink capability: write bytes, flush, either may fail.
///
/// `contents` is the sequence of bytes the sink has accepted so far. A
/// `reliable` sink never fails and consumes every byte offered; whether a
/// sink is reliable never changes over its lifetime.
pub trait OutStream {
    /// The bytes accepted so far.
    spec fn contents(&self) -> Seq<u8>;

    /// Whether this sink is guaranteed to consume everything and never fail.
    spec fn reliable(&self) -> bool;

    /// Offers `buf`; on `Ok(n)` the first `n` bytes were accepted, on an
    /// error nothing was.
    fn write(&mut self, buf: &[u8]) -> (r: Result<usize, WriteError>)
        ensures
            match r {
                Ok(n) => n <= buf@.len() && final(self).contents() == old(self).contents()
                    + buf@.take(n as int),
                Err(_) => final(self).contents() == old(self).contents(),
            },
            final(self).reliable() == old(self).reliable(),
            old(self).reliable() ==> (r matches Ok(n) && n == buf@.len()),
    ;

    /// Flushes buffered state; accepted bytes are never lost.
    fn flush(&mut self) -> (r: Result<(), WriteError>)
        ensures
            final(self).contents() == old(self).contents(),
            final(self).reliable() == old(self).reliable(),
            old(self).reliable() ==> r is Ok,
    ;
}

/// A no-op sink: it reports all bytes as consumed and flush always
/// succeeds. What it accepted is tracked only for specification purposes.
pub struct Sink {
    pub accepted: Ghost<Seq<u8>>,
}

impl Sink {
    pub fn new() -> (s: Sink)
        ensures
            s.contents() == Seq::<u8>::empty(),
            s.reliable(),
    {
        Sink { accepted: Ghost(Seq::empty()) }
    }
}

impl OutStream for Sink {
    open spec fn contents(&self) -> Seq<u8> {
        self.accepted@
    }

    open spec fn reliable(&self) -> bool {
        true
    }

    fn write(&mut self, buf: &[u8]) -> (r: Result<usize, WriteError>) {
        self.accepted = Ghost(self.accepted@ + buf@);
        proof {
            assert(buf@.take(buf@.len() as int) =~= buf@);
        }
        Ok(buf.len())
    }

    fn flush(&mut self) -> (r: Result<(), WriteError>) {
        Ok(())
    }
}

/// An in-memory sink that keeps every byte written.
pub struct ByteBuf {
    pub bytes: Vec<u8>,
}

impl ByteBuf {
    pub fn new() -> (b: ByteBuf)
        ensures
            b.contents() == Seq::<u8>::empty(),
            b.reliable(),
    {
        ByteBuf { bytes: Vec::new() }
    }
}

impl OutStream for ByteBuf {
    open spec fn contents(&self) -> Seq<u8> {
        self.bytes@
    }

    open spec fn reliable(&self) -> bool {
        true
    }

    fn write(&mut self, buf: &[u8]) -> (r: Result<usize, WriteError>) {
        let n = buf.len();
        let mut i: usize = 0;
        while i < n
            invariant
                n == buf@.len(),
                0 <= i <= n,
                self.bytes@ == old(self).bytes@ + buf@.take(i as int),
            decreases n - i,
        {
            self.bytes.push(buf[i]);
            proof {
                assert(buf@.take(i + 1) =~= buf@.take(i as int).push(buf@[i as int]));
                assert(old(self).bytes@ + buf@.take(i + 1) =~= (old(self).bytes@ + buf@.take(
                    i as int,
                )).push(buf@[i as int]));
            }
            i = i + 1;
        }
        Ok(n)
    }

    fn flush(&mut self) -> (r: Result<(), WriteError>) {
        Ok(())
    }
}

/// The greeting that `say_hello` writes: the bytes of `"hello, world\n"`.
pub open spec fn greeting() -> Seq<u8> {
    seq![104u8, 101u8, 108u8, 108u8, 111u8, 44u8, 32u8, 119u8, 111u8, 114u8, 108u8, 100u8, 10u8]
}

/// Builds the greeting as a byte vector.
pub fn greeting_bytes() -> (v: Vec<u8>)
    ensures
        v@ == greeting(),
{
    let mut v: Vec<u8> = Vec::new();
    v.push(104u8);
    v.push(101u8);
    v.push(108u8);
    v.push(108u8);
    v.push(111u8);
    v.push(44u8);
    v.push(32u8);
    v.push(119u8);
    v.push(111u8);
    v.push(114u8);
    v.push(108u8);
    v.push(100u8);
    v.push(10u8);
    proof {
        assert(v@ =~= greeting());
    }
    v
}

/// Writes the whole buffer, retrying partial writes, and propagates any
/// sink failure. A sink that accepts zero bytes while some remain is
/// reported as a failure too, so the loop always terminates.
pub fn write_all<W: OutStream>(out: &mut W, buf: &[u8]) -> (r: Result<(), WriteError>)
    ensures
        final(out).reliable() == old(out).reliable(),
        r is Ok ==> final(out).contents() == old(out).contents() + buf@,
        r is Err ==> exists|k: int|
            0 <= k <= buf@.len() && final(out).contents() == old(out).contents() + buf@.take(k),
        old(out).reliable() ==> r is Ok,
{
    let mut written: usize = 0;
    while written < buf.len()
        invariant
            written <= buf@.len(),
            out.reliable() == old(out).reliable(),
            out.contents() == old(out).contents() + buf@.take(written as int),
        decreases buf@.len() - written,
    {
        let rest = slice_subrange(buf, written, buf.len());
        match out.write(rest) {
            Ok(n) => {
                if n == 0 {
                    return Err(WriteError);
                }
                proof {
                    assert(rest@.take(n as int) =~= buf@.subrange(
                        written as int,
                        written + n,
                    ));
                    assert(buf@.take(written + n) =~= buf@.take(written as int) + buf@.subrange(
                        written as int,
                        written + n,
                    ));
                    assert(old(out).contents() + buf@.take(written as int) + rest@.take(n as int)
                        =~= old(out).contents() + buf@.take(written + n));
                }
                written = written + n;
            },
            Err(e) => {
                return Err(e);
            },
        }
    }
    proof {
        assert(buf@.take(buf@.len() as int) =~= buf@);
    }
    Ok(())
}

/// Writes the greeting and flushes, propagating any sink failure. On
/// success the sink has accepted exactly the greeting; on failure it has
/// accepted some prefix of it.
pub fn say_hello_generic<W: OutStream>(out: &mut W) -> (r: Result<(), WriteError>)
    ensures
        final(out).reliable() == old(out).reliable(),
        r is Ok ==> final(out).contents() == old(out).contents() + greeting(),
        r is Err ==> exists|k: int|
            0 <= k <= greeting().len() && final(out).contents() == old(out).contents()
                + greeting().take(k),
        old(out).reliable() ==> r is Ok,
{
    let msg = greeting_bytes();
    let wrote = write_all(out, msg.as_slice());
    match wrote {
        Ok(u) => {
            proof {
                assert(greeting().take(greeting().len() as int) =~= greeting());
            }
            out.flush()
        },
        Err(e) => Err(e),
    }
}

/// Writes the greeting and flushes; behaves exactly like
/// `say_hello_generic`.
pub fn say_hello<W: OutStream>(out: &mut W) -> (r: Result<(), WriteError>)
    ensures
        final(out).reliable() == old(out).reliable(),
        r is Ok ==> final(out).contents() == old(out).contents() + greeting(),
        r is Err ==> exists|k: int|
            0 <= k <= greeting().len() && final(out).contents() == old(out).contents()
                + greeting().take(k),
        old(out).reliable() ==> r is Ok,
{
    say_hello_generic(out)
}

} // verus!
