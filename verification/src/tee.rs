//! A reader that copies everything it reads into a backup sink, and keeps
//! reading when the backup fails.

use vstd::prelude::*;

verus! {

#[verifier::external_type_specification]
#[verifier::external_body]
pub struct ExIoError(std::io::Error);

/// Calls `std::io::Read::read` on `reader`. Nothing is claimed of the
/// result or of what lands in `buf`: it depends on the reader.
#[verifier::external_body]
fn read_chunk<R: std::io::Read>(reader: &mut R, buf: &mut [u8]) -> std::io::Result<usize> {
    reader.read(buf)
}

/// Calls `std::io::Write::write_all` on `writer` with the first `n` bytes of
/// `buf` and reports whether it returned `Ok`. Nothing is claimed of the
/// outcome: it depends on the writer.
#[verifier::external_body]
fn write_chunk<W: std::io::Write>(writer: &mut W, buf: &[u8], n: usize) -> (ok: bool)
    requires
        n <= buf@.len(),
{
    writer.write_all(&buf[..n]).is_ok()
}

/// Reads from `inner` and copies each chunk into `sink`. The first failed
/// write detaches the sink for good; reading carries on regardless.
pub struct TeeReader<R, W> {
    inner: R,
    sink: Option<W>,
    delivered: Ghost<Seq<u8>>,
    copied: Ghost<Seq<u8>>,
}

impl<R, W> TeeReader<R, W> {
    /// The reader that the bytes come from.
    pub closed spec fn source(self) -> R {
        self.inner
    }

    /// The backup sink, `None` once a write to it failed.
    pub closed spec fn copy_target(self) -> Option<W> {
        self.sink
    }

    /// Every byte handed out by `read` so far, in order.
    pub closed spec fn delivered(self) -> Seq<u8> {
        self.delivered@
    }

    /// The chunks counted as written to the sink: those handed out while
    /// it was attached and whose write was reported successful, in order.
    pub closed spec fn copied(self) -> Seq<u8> {
        self.copied@
    }

    /// Creates a tee over `inner` that copies into `sink`.
    pub fn new(inner: R, sink: W) -> (tee: Self)
        ensures
            tee.source() == inner,
            tee.copy_target() == Some(sink),
            tee.delivered() == Seq::<u8>::empty(),
            tee.copied() == Seq::<u8>::empty(),
            tee.backup_is_prefix_of_input(),
    {
        let tee = TeeReader {
            inner,
            sink: Some(sink),
            delivered: Ghost(Seq::empty()),
            copied: Ghost(Seq::empty()),
        };
        assert(tee.delivered@.take(0) =~= tee.copied@);
        tee
    }

    /// The backup holds a prefix of what was read, and all of it as long as
    /// the sink is attached: a failed backup loses only the tail.
    pub open spec fn backup_is_prefix_of_input(self) -> bool {
        &&& self.copied().len() <= self.delivered().len()
        &&& self.copied() == self.delivered().take(self.copied().len() as int)
        &&& self.copy_target() is Some ==> self.copied() == self.delivered()
    }

    /// Records one chunk after it was offered to the sink: the first `n`
    /// bytes of `buf` were handed out, and `write_ok` says whether the sink
    /// took them (it is not consulted when no sink is attached). A failed
    /// write detaches the sink for good; a successful one keeps it and adds
    /// the chunk to the backup. A count larger than `buf` detaches the sink.
    pub fn settle(&mut self, buf: &[u8], n: usize, write_ok: bool)
        ensures
            final(self).source() == old(self).source(),
            n > buf@.len() ==> {
                &&& final(self).copy_target() is None
                &&& final(self).delivered() == old(self).delivered() + buf@
                &&& final(self).copied() == old(self).copied()
            },
            n <= buf@.len() ==> final(self).delivered() == old(self).delivered() + buf@.take(
                n as int,
            ),
            n <= buf@.len() && old(self).copy_target() is Some && write_ok ==> {
                &&& final(self).copy_target() == old(self).copy_target()
                &&& final(self).copied() == old(self).copied() + buf@.take(n as int)
            },
            n <= buf@.len() && old(self).copy_target() is Some && !write_ok ==> {
                &&& final(self).copy_target() is None
                &&& final(self).copied() == old(self).copied()
            },
            old(self).copy_target() is None ==> {
                &&& final(self).copy_target() is None
                &&& final(self).copied() == old(self).copied()
            },
            old(self).backup_is_prefix_of_input() ==> final(self).backup_is_prefix_of_input(),
    {
        let ghost was_copied = self.copied@;
        if n > buf.len() {
            let ghost seen = buf@;
            self.sink = None;
            self.delivered = Ghost(self.delivered@ + seen);
            proof {
                if old(self).backup_is_prefix_of_input() {
                    assert(self.delivered@.take(self.copied@.len() as int) =~= self.copied@);
                }
            }
            return;
        }
        let ghost chunk = buf@.take(n as int);
        if !write_ok {
            self.sink = None;
        }
        if self.sink.is_some() {
            self.copied = Ghost(self.copied@ + chunk);
        }
        self.delivered = Ghost(self.delivered@ + chunk);
        proof {
            if old(self).backup_is_prefix_of_input() {
                assert(self.delivered@.take(was_copied.len() as int) =~= was_copied);
                assert(self.delivered@.take(self.copied@.len() as int) =~= self.copied@);
            }
        }
    }
}

impl<R, W: std::io::Write> TeeReader<R, W> {
    /// Passes on what one read of the source returned, `got`, with `buf`
    /// holding the bytes it read: the result goes back unchanged, and a
    /// successful chunk is offered to the sink. A sink failure detaches the
    /// sink and is not reported. A count larger than `buf` breaks the `Read`
    /// contract; the tee then detaches the sink rather than copy a slice that
    /// does not exist.
    pub fn pass_on(&mut self, buf: &[u8], got: std::io::Result<usize>) -> (res: std::io::Result<usize>)
        ensures
            res == got,
            final(self).source() == old(self).source(),
            got is Err ==> {
                &&& final(self).delivered() == old(self).delivered()
                &&& final(self).copied() == old(self).copied()
                &&& final(self).copy_target() == old(self).copy_target()
            },
            got matches Ok(n) ==> n <= buf@.len() ==> final(self).delivered() == old(
                self,
            ).delivered() + buf@.take(n as int),
            got matches Ok(n) ==> n <= buf@.len() ==> final(self).copy_target() is Some
                ==> final(self).copied() == old(self).copied() + buf@.take(n as int),
            got matches Ok(n) ==> n > buf@.len() ==> {
                &&& final(self).copy_target() is None
                &&& final(self).delivered() == old(self).delivered() + buf@
            },
            got is Ok && old(self).copy_target() is None ==> {
                &&& final(self).copy_target() is None
                &&& final(self).copied() == old(self).copied()
            },
            final(self).copy_target() is Some ==> old(self).copy_target() is Some,
            final(self).copy_target() is None ==> final(self).copied() == old(self).copied(),
            old(self).backup_is_prefix_of_input() ==> final(self).backup_is_prefix_of_input(),
    {
        let n = match got {
            Ok(n) => n,
            Err(e) => return Err(e),
        };
        let write_ok = if n <= buf.len() {
            match &mut self.sink {
                Some(s) => write_chunk(s, buf, n),
                None => true,
            }
        } else {
            true
        };
        self.settle(buf, n, write_ok);
        Ok(n)
    }
}

impl<R: std::io::Read, W: std::io::Write> std::io::Read for TeeReader<R, W> {
    /// Reads one chunk from the source into `buf` and passes the result on
    /// with `pass_on`: whether it succeeds is the source's to decide, and a
    /// failing sink never makes it fail.
    fn read(&mut self, buf: &mut [u8]) -> (res: std::io::Result<usize>)
        ensures
            res is Err ==> {
                &&& final(self).delivered() == old(self).delivered()
                &&& final(self).copied() == old(self).copied()
                &&& final(self).copy_target() == old(self).copy_target()
            },
            res matches Ok(n) ==> n <= final(buf)@.len() ==> final(self).delivered() == old(
                self,
            ).delivered() + final(buf)@.take(n as int),
            res matches Ok(n) ==> n <= final(buf)@.len() ==> final(self).copy_target() is Some
                ==> final(self).copied() == old(self).copied() + final(buf)@.take(n as int),
            res matches Ok(n) ==> n > final(buf)@.len() ==> {
                &&& final(self).copy_target() is None
                &&& final(self).delivered() == old(self).delivered() + final(buf)@
            },
            res is Ok && old(self).copy_target() is None ==> {
                &&& final(self).copy_target() is None
                &&& final(self).copied() == old(self).copied()
            },
            final(self).copy_target() is Some ==> old(self).copy_target() is Some,
            final(self).copy_target() is None ==> final(self).copied() == old(self).copied(),
            old(self).backup_is_prefix_of_input() ==> final(self).backup_is_prefix_of_input(),
    {
        let got = read_chunk(&mut self.inner, buf);
        self.pass_on(buf, got)
    }
}

} // verus!
