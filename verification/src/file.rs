//! Reading from an open file: what to ask of the kernel, and what to
//! make of its answer.

use vstd::prelude::*;

verus! {

/// Error number for an argument that is not valid.
pub const EINVAL: isize = 22;

/// What an open file stands for.
#[derive(Debug, Clone, Copy, PartialEq, Eq, Structural)]
pub enum FileType {
    Pipe,
    Inode,
    Fifo,
    /// The file is not open.
    Unopened,
}

/// An open file.
#[derive(Debug, Clone, Copy, PartialEq, Eq)]
pub struct File {
    pub kind: FileType,
    pub flags: u32,
    pub readable: bool,
    pub writeable: bool,
    /// Where the next read from an inode starts.
    pub off: i64,
}

/// What a read asks of the kernel.
#[derive(Debug, Clone, Copy, PartialEq, Eq, Structural)]
pub enum ReadRequest {
    /// Read from the file's pipe.
    Pipe,
    /// Lock the file's inode, read from it at `off`, and unlock it.
    Inode { off: i64 },
}

impl File {
    /// What a read of this file asks of the kernel: nothing but the error
    /// `-EINVAL` where the file is not readable, else a read from its pipe
    /// or from its inode.
    pub fn read(&self) -> (request: Result<ReadRequest, isize>)
        requires
            self.readable ==> self.kind != FileType::Unopened,
        ensures
            request == if !self.readable {
                Err::<ReadRequest, isize>(-22isize)
            } else if self.kind == FileType::Inode {
                Ok(ReadRequest::Inode { off: self.off })
            } else {
                Ok(ReadRequest::Pipe)
            },
    {
        if !self.readable {
            return Err(-EINVAL);
        }
        match self.kind {
            FileType::Pipe | FileType::Fifo => Ok(ReadRequest::Pipe),
            _ => Ok(ReadRequest::Inode { off: self.off }),
        }
    }

    /// Takes the kernel's answer `outcome` to `request`: a read from the
    /// inode that yielded bytes moves the file's offset on by their
    /// number; an answer of 0 is success, any other is handed back as the
    /// error.
    pub fn finish_read(&mut self, request: ReadRequest, outcome: isize) -> (result: Result<
        (),
        isize,
    >)
        requires
            request is Inode && outcome > 0 ==> old(self).off + outcome <= i64::MAX,
        ensures
            *final(self) == (File {
                off: if request is Inode && outcome > 0 {
                    (old(self).off + outcome) as i64
                } else {
                    old(self).off
                },
                ..*old(self)
            }),
            result == if outcome != 0 {
                Err::<(), isize>(outcome)
            } else {
                Ok(())
            },
    {
        if let ReadRequest::Inode { off: _ } = request {
            if outcome > 0 {
                self.off += outcome as i64;
            }
        }
        if outcome != 0 {
            Err(outcome)
        } else {
            Ok(())
        }
    }
}

} // verus!
