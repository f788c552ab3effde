//! The decisions of one serial exchange. The port itself is opened, written
//! and read by the application; the library says where to send and when the
//! response is complete, and decodes what arrived.
use vstd::prelude::*;

use crate::error::Error;
use crate::protocol::{parse_response_spec, FrameModel, Function};

verus! {

/// The most bytes one read hands back: the serial adapter delivers large
/// responses in pieces of this size.
pub const READ_CHUNK: usize = 32;

/// Where to reach a device: the port name and its baud rate.
#[derive(Debug, Clone)]
pub struct Builder {
    pub port_name: String,
    pub baudrate: u32,
}

impl Builder {
    pub fn new(port_name: String, baudrate: u32) -> (r: Builder)
        ensures
            r.port_name@ == port_name@,
            r.baudrate == baudrate,
    {
        Builder { port_name, baudrate }
    }
}

/// The bytes of a response, gathered read by read.
pub struct ResponseReader {
    buf: Vec<u8>,
}

impl View for ResponseReader {
    type V = Seq<u8>;

    closed spec fn view(&self) -> Seq<u8> {
        self.buf@
    }
}

impl ResponseReader {
    /// A reader that holds nothing yet.
    pub fn new() -> (r: ResponseReader)
        ensures
            r@ == Seq::<u8>::empty(),
    {
        ResponseReader { buf: Vec::new() }
    }

    /// Takes the bytes of one read and says whether to read again: only a
    /// full chunk can be followed by more.
    pub fn push_chunk(&mut self, chunk: &[u8]) -> (more: bool)
        requires
            chunk@.len() <= READ_CHUNK,
        ensures
            final(self)@ == old(self)@ + chunk@,
            more == (chunk@.len() == READ_CHUNK),
    {
        let ghost start = self.buf@;
        let mut i: usize = 0;
        while i < chunk.len()
            invariant
                i <= chunk@.len(),
                self.buf@ == start + chunk@.subrange(0, i as int),
            decreases chunk@.len() - i,
        {
            self.buf.push(chunk[i]);
            proof {
                assert(chunk@.subrange(0, i as int + 1) =~= chunk@.subrange(0, i as int).push(
                    chunk@[i as int],
                ));
            }
            i = i + 1;
        }
        proof {
            assert(chunk@.subrange(0, chunk@.len() as int) =~= chunk@);
        }
        chunk.len() == READ_CHUNK
    }

    /// The number of bytes gathered.
    pub fn len(&self) -> (r: usize)
        ensures
            r == self@.len(),
    {
        self.buf.len()
    }

    /// Decodes what was gathered as a response frame.
    pub fn finish(&self) -> (r: Result<Function, Error>)
        ensures
            match r {
                Ok(f) => parse_response_spec(self@) == Ok::<FrameModel, Error>(f@),
                Err(e) => parse_response_spec(self@) == Err::<FrameModel, Error>(e),
            },
    {
        Function::parse_response(self.buf.as_slice())
    }
}

} // verus!
