//! Reading and writing the body of one message.
use crate::error::{nonblocking, unblocked, IoError};
use crate::http::{h1, Buffer};
use vstd::prelude::*;

verus! {

/// A transport behind the bytes that were received from it and not consumed yet.
pub struct BufReader<'a, T> {
    pub buf: &'a mut Buffer,
    pub reader: &'a mut T,
}

/// Where a body is read from: straight from the transport, or what was buffered of it first.
pub enum Trans<'a, T> {
    Port(&'a mut T),
    Buf(BufReader<'a, T>),
}

impl<'a, T> Trans<'a, T> {
    /// The transport itself.
    pub open spec fn port(&self) -> T {
        match self {
            Trans::Port(t) => **t,
            Trans::Buf(buf) => *buf.reader,
        }
    }

    /// Get a reference to the transport.
    pub fn get_ref(&self) -> (port: &T)
        ensures
            *port == self.port(),
    {
        match self {
            Trans::Port(t) => &**t,
            Trans::Buf(buf) => &*buf.reader,
        }
    }

    /// Reads from the transport by `port`, or from what was buffered of it by `buffered`.
    pub fn read<
        F: FnOnce(&mut T, &mut [u8]) -> Result<usize, IoError>,
        G: FnOnce(&mut BufReader<'a, T>, &mut [u8]) -> Result<usize, IoError>,
    >(&mut self, buf: &mut [u8], port: F, buffered: G) -> (res: Result<usize, IoError>)
        requires
            forall|t: &mut T, b: &mut [u8]| #[trigger] call_requires(port, (t, b)),
            forall|r: &mut BufReader<'a, T>, b: &mut [u8]| #[trigger]
                call_requires(buffered, (r, b)),
        ensures
            *old(self) is Port == *final(self) is Port,
            *old(self) is Port ==> exists|t: &mut T, b: &mut [u8]|
                {
                    &&& #[trigger] call_ensures(port, (t, b), res)
                    &&& *t == *(*old(self))->Port_0
                    &&& *final(t) == *(*final(self))->Port_0
                    &&& b@ == old(buf)@
                    &&& final(b)@ == final(buf)@
                },
            *old(self) is Port ==> *final((*final(self))->Port_0) == *final((*old(self))->Port_0),
            *old(self) is Buf ==> exists|r: &mut BufReader<'a, T>, b: &mut [u8]|
                {
                    &&& #[trigger] call_ensures(buffered, (r, b), res)
                    &&& *r == (*old(self))->Buf_0
                    &&& *final(r) == (*final(self))->Buf_0
                    &&& b@ == old(buf)@
                    &&& final(b)@ == final(buf)@
                },
    {
        match self {
            Trans::Port(t) => port(*t, buf),
            Trans::Buf(b) => buffered(b, buf),
        }
    }
}

/// Wraps a transport to provide HTTP decoding when reading.
pub struct Decoder<'a, D, T>(pub DecoderImpl<'a, D, T>);

/// A decoder of one of the protocols that connections speak.
pub enum DecoderImpl<'a, D, T> {
    H1(&'a mut h1::Decoder<D>, Trans<'a, T>),
}

impl<'a, D, T> Decoder<'a, D, T> {
    /// What decodes the body.
    pub open spec fn decoder(&self) -> h1::Decoder<D> {
        match self.0 {
            DecoderImpl::H1(decoder, _) => *decoder,
        }
    }

    /// Where the body is read from.
    pub open spec fn trans(&self) -> Trans<'a, T> {
        match self.0 {
            DecoderImpl::H1(_, trans) => trans,
        }
    }

    /// A decoder that speaks HTTP/1.
    pub fn h1(decoder: &'a mut h1::Decoder<D>, transport: Trans<'a, T>) -> (wrapped: Decoder<
        'a,
        D,
        T,
    >)
        ensures
            wrapped.decoder() == *old(decoder),
            wrapped.trans() == transport,
            *final(wrapped.0->H1_0) == *final(decoder),
    {
        Decoder(DecoderImpl::H1(decoder, transport))
    }

    /// Read from the transport, by `decode`.
    pub fn read<
        F: FnOnce(&mut h1::Decoder<D>, &mut Trans<'a, T>, &mut [u8]) -> Result<usize, IoError>,
    >(&mut self, buf: &mut [u8], decode: F) -> (res: Result<usize, IoError>)
        requires
            forall|d: &mut h1::Decoder<D>, t: &mut Trans<'a, T>, b: &mut [u8]| #[trigger]
                call_requires(decode, (d, t, b)),
        ensures
            exists|d: &mut h1::Decoder<D>, t: &mut Trans<'a, T>, b: &mut [u8]|
                {
                    &&& #[trigger] call_ensures(decode, (d, t, b), res)
                    &&& *d == old(self).decoder()
                    &&& *final(d) == final(self).decoder()
                    &&& *t == old(self).trans()
                    &&& *final(t) == final(self).trans()
                    &&& b@ == old(buf)@
                    &&& final(b)@ == final(buf)@
                },
            *final(final(self).0->H1_0) == *final(old(self).0->H1_0),
    {
        match &mut self.0 {
            DecoderImpl::H1(decoder, transport) => decode(*decoder, transport, buf),
        }
    }

    /// Try to read from the transport, by `decode`.
    ///
    /// This method looks for the `WouldBlock` error. If the read did not block,
    /// a return value would be `Ok(Some(x))`. If the read would block,
    /// this method would return `Ok(None)`.
    pub fn try_read<
        F: FnOnce(&mut h1::Decoder<D>, &mut Trans<'a, T>, &mut [u8]) -> Result<usize, IoError>,
    >(&mut self, buf: &mut [u8], decode: F) -> (res: Result<Option<usize>, IoError>)
        requires
            forall|d: &mut h1::Decoder<D>, t: &mut Trans<'a, T>, b: &mut [u8]| #[trigger]
                call_requires(decode, (d, t, b)),
        ensures
            exists|
                d: &mut h1::Decoder<D>,
                t: &mut Trans<'a, T>,
                b: &mut [u8],
                outcome: Result<usize, IoError>,
            |
                {
                    &&& #[trigger] call_ensures(decode, (d, t, b), outcome)
                    &&& *d == old(self).decoder()
                    &&& *final(d) == final(self).decoder()
                    &&& *t == old(self).trans()
                    &&& *final(t) == final(self).trans()
                    &&& b@ == old(buf)@
                    &&& final(b)@ == final(buf)@
                    &&& res == unblocked(outcome)
                },
            *final(final(self).0->H1_0) == *final(old(self).0->H1_0),
    {
        nonblocking(self.read(buf, decode))
    }

    /// Get a reference to the transport.
    pub fn get_ref(&self) -> (port: &T)
        ensures
            *port == self.trans().port(),
    {
        match &self.0 {
            DecoderImpl::H1(_, transport) => transport.get_ref(),
        }
    }
}

/// Wraps a transport to provide HTTP encoding when writing.
pub struct Encoder<'a, E, T>(pub EncoderImpl<'a, E, T>);

/// An encoder of one of the protocols that connections speak.
pub enum EncoderImpl<'a, E, T> {
    H1(&'a mut h1::Encoder<E>, &'a mut T),
}

impl<'a, E, T> Encoder<'a, E, T> {
    /// What encodes the body.
    pub open spec fn encoder(&self) -> h1::Encoder<E> {
        match self.0 {
            EncoderImpl::H1(encoder, _) => *encoder,
        }
    }

    /// Where the body is written to.
    pub open spec fn port(&self) -> T {
        match self.0 {
            EncoderImpl::H1(_, transport) => *transport,
        }
    }

    /// Whether writing this to the body reaches the transport at all.
    pub open spec fn takes(&self, data: &[u8]) -> bool {
        data@.len() > 0 && !self.encoder().closed
    }

    /// An encoder that speaks HTTP/1.
    pub fn h1(encoder: &'a mut h1::Encoder<E>, transport: &'a mut T) -> (wrapped: Encoder<'a, E, T>)
        ensures
            wrapped.encoder() == *old(encoder),
            wrapped.port() == *old(transport),
            *final(wrapped.0->H1_0) == *final(encoder),
            *final(wrapped.0->H1_1) == *final(transport),
    {
        Encoder(EncoderImpl::H1(encoder, transport))
    }

    /// Write to the transport, by `encode`.
    pub fn write<F: FnOnce(&mut h1::Encoder<E>, &mut T, &[u8]) -> Result<usize, IoError>>(
        &mut self,
        data: &[u8],
        encode: F,
    ) -> (res: Result<usize, IoError>)
        requires
            forall|e: &mut h1::Encoder<E>, t: &mut T| #[trigger] call_requires(encode, (e, t, data)),
        ensures
            if old(self).takes(data) {
                exists|e: &mut h1::Encoder<E>, t: &mut T|
                    {
                        &&& #[trigger] call_ensures(encode, (e, t, data), res)
                        &&& *e == old(self).encoder()
                        &&& *final(e) == final(self).encoder()
                        &&& *t == old(self).port()
                        &&& *final(t) == final(self).port()
                    }
            } else {
                &&& res == Ok::<usize, IoError>(0)
                &&& final(self).encoder() == old(self).encoder()
                &&& final(self).port() == old(self).port()
            },
            *final(final(self).0->H1_0) == *final(old(self).0->H1_0),
            *final(final(self).0->H1_1) == *final(old(self).0->H1_1),
    {
        if data.len() == 0 {
            return Ok(0);
        }
        match &mut self.0 {
            EncoderImpl::H1(encoder, transport) => {
                if encoder.is_closed() {
                    Ok(0)
                } else {
                    encode(*encoder, *transport, data)
                }
            },
        }
    }

    /// Try to write to the transport, by `encode`.
    ///
    /// This method looks for the `WouldBlock` error. If the write did not block,
    /// a return value would be `Ok(Some(x))`. If the write would block,
    /// this method would return `Ok(None)`.
    pub fn try_write<F: FnOnce(&mut h1::Encoder<E>, &mut T, &[u8]) -> Result<usize, IoError>>(
        &mut self,
        data: &[u8],
        encode: F,
    ) -> (res: Result<Option<usize>, IoError>)
        requires
            forall|e: &mut h1::Encoder<E>, t: &mut T| #[trigger] call_requires(encode, (e, t, data)),
        ensures
            if old(self).takes(data) {
                exists|e: &mut h1::Encoder<E>, t: &mut T, outcome: Result<usize, IoError>|
                    {
                        &&& #[trigger] call_ensures(encode, (e, t, data), outcome)
                        &&& *e == old(self).encoder()
                        &&& *final(e) == final(self).encoder()
                        &&& *t == old(self).port()
                        &&& *final(t) == final(self).port()
                        &&& res == unblocked(outcome)
                    }
            } else {
                &&& res == Ok::<Option<usize>, IoError>(Some(0))
                &&& final(self).encoder() == old(self).encoder()
                &&& final(self).port() == old(self).port()
            },
            *final(final(self).0->H1_0) == *final(old(self).0->H1_0),
            *final(final(self).0->H1_1) == *final(old(self).0->H1_1),
    {
        nonblocking(self.write(data, encode))
    }

    /// Closes an encoder, signaling that no more writing will occur.
    ///
    /// This is needed for encodings that don't know the length of the content
    /// beforehand. Most common instance would be usage of
    /// `Transfer-Encoding: chunked`. You would call `close()` to signal
    /// the `Encoder` should write the end chunk, or `0\r\n\r\n`.
    pub fn close(&mut self)
        ensures
            final(self).encoder() == (h1::Encoder { closed: true, ..old(self).encoder() }),
            final(self).port() == old(self).port(),
            *final(final(self).0->H1_0) == *final(old(self).0->H1_0),
            *final(final(self).0->H1_1) == *final(old(self).0->H1_1),
    {
        match &mut self.0 {
            EncoderImpl::H1(encoder, _) => encoder.close(),
        }
    }

    /// Get a reference to the transport.
    pub fn get_ref(&self) -> (port: &T)
        ensures
            *port == self.port(),
    {
        match &self.0 {
            EncoderImpl::H1(_, transport) => &**transport,
        }
    }
}

} // verus!
