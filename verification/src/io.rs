//! Non-blocking I/O handles: descriptors, pipes, and the read/write/accept
//! contracts that move bytes through a `ByteBuf` without losing cursor
//! position.

use crate::buf::ByteBuf;
use crate::error::MioError;
use crate::error::MioResult;
use crate::os;
use vstd::prelude::*;

verus! {

/// A pollable OS descriptor.
#[derive(Clone, Copy, Debug, PartialEq, Eq, Structural)]
pub struct IoDesc {
    pub fd: i32,
}

/// Anything that exposes a pollable descriptor and so can be registered
/// with the reactor.
pub trait IoHandle {
    fn desc(&self) -> &IoDesc;
}

/// The outcome of one non-blocking operation: either it transferred
/// something, or the OS asked the caller to try again later. `WouldBlock`
/// is a normal signal, never a hard error.
#[derive(Clone, Copy, Debug)]
pub enum NonBlock<T> {
    Ready(T),
    WouldBlock,
}

impl<T> NonBlock<T> {
    /// The transferred value. Callers must rule `WouldBlock` out first.
    pub fn unwrap(self) -> (r: T)
        requires
            self is Ready,
        ensures
            self matches NonBlock::Ready(v) && r == v,
    {
        match self {
            NonBlock::Ready(v) => v,
            NonBlock::WouldBlock => vstd::pervasive::unreached(),
        }
    }

    pub fn is_ready(&self) -> (r: bool)
        ensures
            r == (self is Ready),
    {
        match self {
            NonBlock::Ready(_) => true,
            NonBlock::WouldBlock => false,
        }
    }
}

/// Reads into the free window of `buf`: on `Ready(n)`, exactly `n` bytes
/// arrived, never more than the window held, and the position cursor
/// advanced over them; on `WouldBlock` or an error the buffer is untouched.
pub trait IoReader {
    fn read(&mut self, buf: &mut ByteBuf) -> (r: MioResult<NonBlock<usize>>)
        requires
            old(buf)@.wf(),
        ensures
            final(buf)@.wf(),
            final(buf)@.lim == old(buf)@.lim,
            final(buf)@.data.len() == old(buf)@.data.len(),
            r matches Ok(nb) ==> (nb matches NonBlock::Ready(n) ==> n <= old(buf)@.remaining()
                && final(buf)@.pos == old(buf)@.pos + n),
            r matches Ok(nb) ==> (nb is WouldBlock ==> final(buf)@ == old(buf)@),
            r matches Err(e) ==> final(buf)@ == old(buf)@ && e != MioError::WouldBlock,
    ;
}

/// Writes from the readable window of `buf`: on `Ready(n)`, the OS accepted
/// exactly `n` bytes of the window, in order, and the position cursor
/// consumed them; the bytes themselves are untouched. On `WouldBlock` or an
/// error the buffer is untouched.
pub trait IoWriter {
    fn write(&mut self, buf: &mut ByteBuf) -> (r: MioResult<NonBlock<usize>>)
        requires
            old(buf)@.wf(),
        ensures
            final(buf)@.wf(),
            final(buf)@.lim == old(buf)@.lim,
            final(buf)@.data == old(buf)@.data,
            r matches Ok(nb) ==> (nb matches NonBlock::Ready(n) ==> n <= old(buf)@.remaining()
                && final(buf)@ == old(buf)@.advanced(n as int)),
            r matches Ok(nb) ==> (nb is WouldBlock ==> final(buf)@ == old(buf)@),
            r matches Err(e) ==> final(buf)@ == old(buf)@ && e != MioError::WouldBlock,
    ;
}

/// Takes pending connections off a listening handle, as new handles.
pub trait IoAcceptor<S> {
    fn accept(&mut self) -> MioResult<NonBlock<S>>;
}

/// The shared read path: asks the OS for at most `remaining()` bytes and
/// appends whatever arrived at the position cursor.
pub(crate) fn read_desc(desc: &IoDesc, buf: &mut ByteBuf) -> (r: MioResult<NonBlock<usize>>)
    requires
        old(buf)@.wf(),
    ensures
        final(buf)@.wf(),
        final(buf)@.lim == old(buf)@.lim,
        final(buf)@.data.len() == old(buf)@.data.len(),
        r matches Ok(nb) ==> (nb matches NonBlock::Ready(n) ==> n <= old(buf)@.remaining()
            && final(buf)@.pos == old(buf)@.pos + n),
        r matches Ok(nb) ==> (nb is WouldBlock ==> final(buf)@ == old(buf)@),
        r matches Err(e) ==> final(buf)@ == old(buf)@ && e != MioError::WouldBlock,
{
    let want = buf.remaining();
    match os::sys_read(desc.fd, want) {
        Ok(chunk) => {
            let n = buf.write(chunk.as_slice());
            Ok(NonBlock::Ready(n))
        },
        Err(code) => {
            let e = MioError::from_errno(code);
            if e == MioError::WouldBlock {
                Ok(NonBlock::WouldBlock)
            } else {
                Err(e)
            }
        },
    }
}

/// The shared write path: offers the readable window to the OS and consumes
/// exactly the accepted prefix.
pub(crate) fn write_desc(desc: &IoDesc, buf: &mut ByteBuf) -> (r: MioResult<NonBlock<usize>>)
    requires
        old(buf)@.wf(),
    ensures
        final(buf)@.wf(),
        final(buf)@.lim == old(buf)@.lim,
        final(buf)@.data == old(buf)@.data,
        r matches Ok(nb) ==> (nb matches NonBlock::Ready(n) ==> n <= old(buf)@.remaining()
            && final(buf)@ == old(buf)@.advanced(n as int)),
        r matches Ok(nb) ==> (nb is WouldBlock ==> final(buf)@ == old(buf)@),
        r matches Err(e) ==> final(buf)@ == old(buf)@ && e != MioError::WouldBlock,
{
    let accepted = match os::sys_write(desc.fd, buf.bytes()) {
        Ok(n) => n,
        Err(code) => {
            let e = MioError::from_errno(code);
            if e == MioError::WouldBlock {
                return Ok(NonBlock::WouldBlock);
            }
            return Err(e);
        },
    };
    buf.advance(accepted);
    proof {
        assert(buf@ =~= old(buf)@.advanced(accepted as int));
    }
    Ok(NonBlock::Ready(accepted))
}

/// The read end of a unidirectional byte pipe.
pub struct PipeReader {
    desc: IoDesc,
}

/// The write end of a unidirectional byte pipe.
pub struct PipeWriter {
    desc: IoDesc,
}

impl IoHandle for PipeReader {
    fn desc(&self) -> &IoDesc {
        &self.desc
    }
}

impl IoHandle for PipeWriter {
    fn desc(&self) -> &IoDesc {
        &self.desc
    }
}

impl PipeReader {
    /// Closes the read end; a writer then observes a hang-up.
    pub fn close(self) -> (r: MioResult<()>) {
        match os::sys_close(self.desc.fd) {
            Ok(()) => Ok(()),
            Err(code) => Err(MioError::from_errno(code)),
        }
    }
}

impl PipeWriter {
    /// Closes the write end; once the pipe is drained, the reader observes
    /// a hang-up.
    pub fn close(self) -> (r: MioResult<()>) {
        match os::sys_close(self.desc.fd) {
            Ok(()) => Ok(()),
            Err(code) => Err(MioError::from_errno(code)),
        }
    }
}

impl IoReader for PipeReader {
    fn read(&mut self, buf: &mut ByteBuf) -> MioResult<NonBlock<usize>> {
        read_desc(&self.desc, buf)
    }
}

impl IoWriter for PipeWriter {
    fn write(&mut self, buf: &mut ByteBuf) -> MioResult<NonBlock<usize>> {
        write_desc(&self.desc, buf)
    }
}

/// Creates a non-blocking unidirectional byte pipe.
pub fn pipe() -> (r: MioResult<(PipeReader, PipeWriter)>) {
    match os::sys_pipe() {
        Ok((rfd, wfd)) => Ok(
            (PipeReader { desc: IoDesc { fd: rfd } }, PipeWriter { desc: IoDesc { fd: wfd } }),
        ),
        Err(code) => Err(MioError::from_errno(code)),
    }
}

} // verus!
