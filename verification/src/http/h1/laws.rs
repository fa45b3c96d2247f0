//! What holds of every transaction, whatever its handler and its transport do.
use crate::error::{Async, Error, IoError, Poll};
use crate::http::conn::TxnResult;
use crate::http::h1::txn::{finishes, flush_log, flushes, offered, taken, takes_bytes};
use crate::http::h1::{Decoder, Encoder, Ending, Heads, Reading, State, TxnIo, Writing};
use crate::http::{EncodedHead, Http1Transaction, Io, MessageHead, WriteBuf};
use vstd::prelude::*;

verus! {

/// One thing that happens to a transaction.
pub enum Step<D, E> {
    /// The decoder of the request's body came to stand here.
    Read(Decoder<D>),
    /// The response's head, which lets the connection live or not, was set to go out in front of
    /// the body.
    Head(bool, Encoder<E>, Vec<u8>),
    /// The encoder of the response's body came to stand here.
    Write(Encoder<E>),
    /// The handler wants to read no more.
    EndReading,
    /// The handler wants to write no more.
    EndWriting(Option<(Ending, Poll<(), IoError>)>),
    /// The handler gave up.
    Abort,
}

impl<D, E> State<D, E> {
    /// The state after a step. A step that the state has no place for changes nothing.
    pub open spec fn step(self, step: Step<D, E>) -> State<D, E> {
        match step {
            Step::Read(decoder) => if self.reading is Body {
                self.after_read(decoder)
            } else {
                self
            },
            Step::Head(agrees, encoder, bytes) => if self.before_head() {
                self.after_head(agrees, encoder.prefixed(WriteBuf { bytes: bytes, pos: 0 }))
            } else {
                self
            },
            Step::Write(encoder) => if self.writing is Body {
                self.after_write(encoder)
            } else {
                self
            },
            Step::EndReading => self.after_end_reading(),
            Step::EndWriting(last) => self.after_end_writing(last),
            Step::Abort => self.aborted(),
        }
    }

    /// The state after some steps.
    pub open spec fn run(self, steps: Seq<Step<D, E>>) -> State<D, E>
        decreases steps.len(),
    {
        if steps.len() == 0 {
            self
        } else {
            self.run(steps.drop_last()).step(steps.last())
        }
    }

    /// The other state is this one after some steps.
    pub open spec fn reaches(self, other: State<D, E>) -> bool {
        exists|steps: Seq<Step<D, E>>| other == #[trigger] self.run(steps)
    }

    /// What is true of every state that a transaction can be in: a body that is still read or
    /// written has not come to its end, and only a connection that may be kept alive is.
    pub open spec fn inv(self) -> bool {
        &&& !(self.reading is Init)
        &&& !(self.reading is Parse)
        &&& self.reading matches Reading::Body(decoder) ==> !decoder.eof
        &&& self.writing matches Writing::Body(encoder) ==> !encoder.complete()
        &&& self.writing is KeepAlive ==> self.keep_alive
    }
}

/// Running some steps and then some more is running them all.
pub proof fn run_concat<D, E>(state: State<D, E>, first: Seq<Step<D, E>>, more: Seq<Step<D, E>>)
    ensures
        state.run(first + more) == state.run(first).run(more),
    decreases more.len(),
{
    if more.len() > 0 {
        run_concat(state, first, more.drop_last());
        assert((first + more).drop_last() =~= first + more.drop_last());
    }
}

/// A state that can be reached from one that can be reached can be reached.
pub proof fn reaches_transitive<D, E>(a: State<D, E>, b: State<D, E>, c: State<D, E>)
    requires
        a.reaches(b),
        b.reaches(c),
    ensures
        a.reaches(c),
{
    let first = choose|steps: Seq<Step<D, E>>| b == a.run(steps);
    let more = choose|steps: Seq<Step<D, E>>| c == b.run(steps);
    run_concat(a, first, more);
}

/// A state reaches what one step makes of it.
pub proof fn reaches_by_step<D, E>(state: State<D, E>, step: Step<D, E>)
    ensures
        state.reaches(state.step(step)),
{
    let steps = seq![step];
    assert(state.run(steps.drop_last()) == state);
    assert(state.run(steps) == state.step(step));
}

/// Every transaction starts in a state that keeps the invariant.
pub proof fn start_keeps_inv<D, E, I>(incoming: Result<(MessageHead<I>, Decoder<D>), Error>)
    ensures
        State::<D, E>::started(incoming).inv(),
{
}

/// No step breaks the invariant.
pub proof fn run_keeps_inv<D, E>(state: State<D, E>, steps: Seq<Step<D, E>>)
    requires
        state.inv(),
    ensures
        state.run(steps).inv(),
    decreases steps.len(),
{
    if steps.len() > 0 {
        run_keeps_inv(state, steps.drop_last());
    }
}

/// Once a connection is not to be kept alive, nothing brings it back.
pub proof fn keep_alive_is_only_lost<D, E>(state: State<D, E>, steps: Seq<Step<D, E>>)
    ensures
        state.run(steps).keep_alive ==> state.keep_alive,
    decreases steps.len(),
{
    if steps.len() > 0 {
        keep_alive_is_only_lost(state, steps.drop_last());
    }
}

/// The response has one head: once it has been written, it is never due again.
pub proof fn head_is_written_once<D, E>(state: State<D, E>, steps: Seq<Step<D, E>>)
    requires
        !state.before_head(),
    ensures
        !state.run(steps).before_head(),
    decreases steps.len(),
{
    if steps.len() > 0 {
        head_is_written_once(state, steps.drop_last());
    }
}

/// A transaction that is over stays as it is, unless its handler gives it up after all.
pub proof fn over_is_over<D, E>(state: State<D, E>, steps: Seq<Step<D, E>>)
    requires
        state.outcome() is Ready,
        forall|i: int| 0 <= i < steps.len() ==> !((#[trigger] steps[i]) is Abort),
    ensures
        state.run(steps) == state,
    decreases steps.len(),
{
    if steps.len() > 0 {
        over_is_over(state, steps.drop_last());
    }
}

/// A transaction that was given up is over, and takes its connection with it.
pub proof fn aborted_closes<D, E>(state: State<D, E>, steps: Seq<Step<D, E>>)
    ensures
        state.aborted().run(steps).outcome() == Async::Ready(TxnResult::Close),
    decreases steps.len(),
{
    if steps.len() > 0 {
        aborted_closes(state, steps.drop_last());
    }
}

impl<D, E> State<D, E> {
    /// The `i`th of the steps was the one by which the request's body came to its end.
    pub open spec fn reads_end(self, steps: Seq<Step<D, E>>, i: int) -> bool {
        &&& 0 <= i < steps.len()
        &&& self.run(steps.take(i)).reading is Body
        &&& steps[i] matches Step::Read(decoder) && decoder.eof
    }

    /// The `i`th of the steps was the one by which the response's head was written, and it lets
    /// the connection live.
    pub open spec fn agrees(self, steps: Seq<Step<D, E>>, i: int) -> bool {
        &&& 0 <= i < steps.len()
        &&& self.run(steps.take(i)).before_head()
        &&& steps[i] matches Step::Head(agrees, _, _) && agrees
    }

    /// The `i`th of the steps was the one by which the last of the response was written.
    pub open spec fn writes_end(self, steps: Seq<Step<D, E>>, i: int) -> bool {
        &&& 0 <= i < steps.len()
        &&& self.run(steps.take(i)).writing is Body
        &&& match steps[i] {
            Step::Write(encoder) => encoder.complete(),
            Step::EndWriting(Some((_, Ok(Async::Ready(_))))) => true,
            _ => false,
        }
    }
}

/// What a transaction's state tells of the steps that led to it.
proof fn state_tells_history<D, E>(start: State<D, E>, steps: Seq<Step<D, E>>)
    requires
        start.inv(),
        start.before_head(),
    ensures
        start.run(steps).reading is KeepAlive ==> start.reading is KeepAlive || exists|i: int|
            start.reads_end(steps, i),
        start.run(steps).keep_alive && (start.run(steps).writing is Body || start.run(
            steps,
        ).writing is Ending || start.run(steps).writing is KeepAlive) ==> exists|i: int|
            start.agrees(steps, i),
        start.run(steps).writing is KeepAlive ==> exists|i: int| start.writes_end(steps, i),
    decreases steps.len(),
{
    if steps.len() > 0 {
        let before = steps.drop_last();
        let last = steps.len() - 1;
        state_tells_history(start, before);
        run_keeps_inv(start, before);
        assert forall|i: int| start.reads_end(before, i) implies start.reads_end(steps, i) by {
            assert(before.take(i) =~= steps.take(i));
        }
        assert forall|i: int| start.agrees(before, i) implies start.agrees(steps, i) by {
            assert(before.take(i) =~= steps.take(i));
        }
        assert forall|i: int| start.writes_end(before, i) implies start.writes_end(steps, i) by {
            assert(before.take(i) =~= steps.take(i));
        }
        match steps[last] {
            Step::Read(decoder) => {
                if start.run(before).reading is Body && decoder.eof {
                    assert(start.reads_end(steps, last));
                }
            },
            Step::Head(agrees, _, _) => {
                if start.run(before).before_head() && agrees {
                    assert(start.agrees(steps, last));
                }
            },
            Step::Write(encoder) => {
                if start.run(before).writing is Body && encoder.complete() {
                    assert(start.writes_end(steps, last));
                }
            },
            Step::EndWriting(Some((_, Ok(Async::Ready(_))))) => {
                if start.run(before).writing is Body {
                    assert(start.writes_end(steps, last));
                }
            },
            _ => {},
        }
    }
}

/// A connection outlives a transaction only if the client lets it, the server agrees, the whole
/// request was read and the whole response was written.
pub proof fn kept_alive_by_agreement<D, E, I>(
    incoming: Result<(MessageHead<I>, Decoder<D>), Error>,
    steps: Seq<Step<D, E>>,
)
    requires
        State::<D, E>::started(incoming).run(steps).outcome() == Async::Ready(TxnResult::KeepAlive),
    ensures
        incoming matches Ok((head, body)) && head.lets_live() && (body.eof || exists|i: int|
            State::<D, E>::started(incoming).reads_end(steps, i)),
        exists|i: int| State::<D, E>::started(incoming).agrees(steps, i),
        exists|i: int| State::<D, E>::started(incoming).writes_end(steps, i),
{
    let start = State::<D, E>::started(incoming);
    state_tells_history(start, steps);
    run_keeps_inv(start, steps);
    keep_alive_is_only_lost(start, steps);
}

impl<D, E> State<D, E> {
    /// The `i`th of the steps was the one by which the response's head was written, and it does
    /// not let the connection live.
    pub open spec fn disagrees(self, steps: Seq<Step<D, E>>, i: int) -> bool {
        &&& 0 <= i < steps.len()
        &&& self.run(steps.take(i)).before_head()
        &&& steps[i] matches Step::Head(agrees, _, _) && !agrees
    }

    /// The `i`th of the steps cut the transaction short: it was given up, its request was ended
    /// with a part left unread, or its response could not be completed.
    pub open spec fn cut_short(self, steps: Seq<Step<D, E>>, i: int) -> bool {
        &&& 0 <= i < steps.len()
        &&& match steps[i] {
            Step::Abort => true,
            Step::EndReading => self.run(steps.take(i)).reading is Body,
            Step::EndWriting(None) => self.run(steps.take(i)).writing is Body,
            Step::EndWriting(Some((_, Err(_)))) => self.run(steps.take(i)).writing is Body,
            _ => false,
        }
    }
}

/// What a transaction's state tells of how its connection fared.
proof fn state_tells_fate<D, E>(start: State<D, E>, steps: Seq<Step<D, E>>)
    requires
        start.inv(),
        start.before_head(),
        start.reading is Closed ==> !start.keep_alive,
    ensures
        start.run(steps).keep_alive <==> start.keep_alive && forall|i: int|
            !start.disagrees(steps, i),
        start.run(steps).keep_alive && (start.run(steps).reading is Closed || start.run(
            steps,
        ).writing is Closed) ==> exists|i: int| start.cut_short(steps, i),
        (exists|i: int| start.cut_short(steps, i)) ==> start.run(steps).reading is Closed
            || start.run(steps).writing is Closed,
    decreases steps.len(),
{
    if steps.len() > 0 {
        let before = steps.drop_last();
        let last = steps.len() - 1;
        state_tells_fate(start, before);
        run_keeps_inv(start, before);
        assert forall|i: int| i != last implies start.disagrees(before, i) == start.disagrees(
            steps,
            i,
        ) by {
            if 0 <= i < last {
                assert(before.take(i) =~= steps.take(i));
            }
        }
        assert forall|i: int| i != last implies start.cut_short(before, i) == start.cut_short(
            steps,
            i,
        ) by {
            if 0 <= i < last {
                assert(before.take(i) =~= steps.take(i));
            }
        }
        assert(start.cut_short(steps, last) ==> start.run(steps).reading is Closed || start.run(
            steps,
        ).writing is Closed);
        if start.run(before).keep_alive && !start.run(steps).keep_alive {
            assert(start.disagrees(steps, last));
        }
    }
}

/// A connection outlives a transaction that is over exactly if the client lets it, the server does
/// not refuse, and the transaction was not cut short.
pub proof fn kept_alive_unless_cut_short<D, E, I>(
    incoming: Result<(MessageHead<I>, Decoder<D>), Error>,
    steps: Seq<Step<D, E>>,
)
    requires
        State::<D, E>::started(incoming).run(steps).outcome() is Ready,
    ensures
        State::<D, E>::started(incoming).run(steps).outcome() == Async::Ready(TxnResult::KeepAlive)
            <==> {
            &&& incoming matches Ok((head, _)) && head.lets_live()
            &&& forall|i: int| !State::<D, E>::started(incoming).disagrees(steps, i)
            &&& forall|i: int| !State::<D, E>::started(incoming).cut_short(steps, i)
        },
{
    let start = State::<D, E>::started(incoming);
    state_tells_fate(start, steps);
    run_keeps_inv(start, steps);
}

/// A client that wants to close is not stopped: a connection never outlives a transaction whose
/// request does not let it live, or that has an error in its request's place.
pub proof fn refused_is_not_kept_alive<D, E, I>(
    incoming: Result<(MessageHead<I>, Decoder<D>), Error>,
    steps: Seq<Step<D, E>>,
)
    requires
        incoming matches Ok((head, _)) ==> !head.lets_live(),
    ensures
        State::<D, E>::started(incoming).run(steps).outcome() != Async::Ready(TxnResult::KeepAlive),
{
    if State::<D, E>::started(incoming).run(steps).outcome() == Async::Ready(
        TxnResult::KeepAlive,
    ) {
        kept_alive_by_agreement(incoming, steps);
    }
}

/// Ending a request of which a part is left unread costs the connection its life, for good.
pub proof fn unread_request_closes<D, E>(state: State<D, E>, steps: Seq<Step<D, E>>)
    requires
        state.inv(),
        state.reading is Body,
    ensures
        state.after_end_reading().run(steps).outcome() != Async::Ready(TxnResult::KeepAlive),
{
    closed_request_stays_closed(state.after_end_reading(), steps);
}

/// A request that was closed stays closed.
proof fn closed_request_stays_closed<D, E>(state: State<D, E>, steps: Seq<Step<D, E>>)
    requires
        state.reading is Closed,
    ensures
        state.run(steps).reading is Closed,
    decreases steps.len(),
{
    if steps.len() > 0 {
        closed_request_stays_closed(state, steps.drop_last());
    }
}

/// Once both its messages have been ended, a transaction is over, unless the transport would not
/// take the last of the response yet.
pub proof fn ended_is_over<D, E>(state: State<D, E>, last: Option<(Ending, Poll<(), IoError>)>)
    requires
        !state.before_head(),
    ensures
        ({
            let ended = state.after_end_reading().after_end_writing(last);
            ended.outcome() is Ready || ended.writing is Ending
        }),
{
}

/// Ending a transaction twice is ending it once, whatever the second time is done by: nothing more
/// changes, and nothing more is sent.
pub proof fn end_is_idempotent<
    X: Http1Transaction,
    T,
    F: FnOnce(Encoder<X::Encode>) -> Option<Ending>,
    W: Fn(T, &[u8]) -> (T, Result<usize, IoError>),
    G: FnOnce(Encoder<X::Encode>) -> Option<Ending>,
    V: Fn(T, &[u8]) -> (T, Result<usize, IoError>),
>(
    before: TxnIo<X>,
    dst: T,
    finish: F,
    write: W,
    ended: TxnIo<X>,
    out: T,
    finish_again: G,
    write_again: V,
    after: TxnIo<X>,
    again: T,
)
    requires
        before.ends(dst, finish, write, ended, out),
        ended.ends(out, finish_again, write_again, after, again),
    ensures
        after == ended,
        again == out,
{
}

/// Writing the head is a step, or none.
proof fn head_written_reaches<X: Http1Transaction>(before: TxnIo<X>, after: TxnIo<X>)
    requires
        before.head_written(after),
    ensures
        before.state.reaches(after.state),
        !after.state.before_head(),
{
    if before.state.before_head() {
        let encoded = choose|encoded: EncodedHead<X::Outgoing, X::Encode>|
            {
                &&& #[trigger] call_ensures(X::encode, (&before.heads.outgoing,), encoded)
                &&& after.state == before.state.after_head(
                    before.heads.outgoing.lets_live(),
                    encoded.encoder.prefixed(WriteBuf { bytes: encoded.bytes, pos: 0 }),
                )
            };
        reaches_by_step(
            before.state,
            Step::Head(before.heads.outgoing.lets_live(), encoded.encoder, encoded.bytes),
        );
    } else {
        reaches_itself(before.state);
    }
}

/// A state reaches itself.
pub proof fn reaches_itself<D, E>(state: State<D, E>)
    ensures
        state.reaches(state),
{
    assert(state.run(Seq::empty()) == state);
}

/// Reading takes a transaction through steps.
pub proof fn reads_reaches<
    X: Http1Transaction,
    T,
    B,
    F: FnOnce(Decoder<X::Decode>, Io, T, B) -> (
        Decoder<X::Decode>,
        Io,
        T,
        B,
        Result<usize, IoError>,
    ),
>(
    before: TxnIo<X>,
    src: T,
    buf: B,
    decode: F,
    after: TxnIo<X>,
    out: (T, B, Result<usize, IoError>),
)
    requires
        before.reads(src, buf, decode, after, out),
    ensures
        before.state.reaches(after.state),
{
    match before.state.reading {
        Reading::Body(body) => {
            let (decoder, io) = choose|decoder: Decoder<X::Decode>, io: Io|
                {
                    &&& #[trigger] call_ensures(
                        decode,
                        (body, before.io, src, buf),
                        (decoder, io, out.0, out.1, out.2),
                    )
                    &&& after == TxnIo { io: io, state: before.state.after_read(decoder), ..before }
                };
            reaches_by_step(before.state, Step::Read(decoder));
        },
        _ => reaches_itself(before.state),
    }
}

/// Writing takes a transaction through steps.
pub proof fn writes_reaches<
    X: Http1Transaction,
    T,
    F: FnOnce(Encoder<X::Encode>, T, &[u8]) -> (Encoder<X::Encode>, T, Result<usize, IoError>),
>(
    before: TxnIo<X>,
    dst: T,
    data: &[u8],
    encode: F,
    after: TxnIo<X>,
    out: (T, Result<usize, IoError>),
)
    requires
        !(before.state.writing is Ending),
        before.writes(dst, data, encode, after, out),
    ensures
        before.state.reaches(after.state),
{
    if before.state.wrote_all() {
        reaches_itself(before.state);
    } else {
        let (mid, encoder) = choose|mid: TxnIo<X>, encoder: Encoder<X::Encode>|
            {
                &&& #[trigger] before.head_written(mid)
                &&& #[trigger] call_ensures(
                    encode,
                    (mid.state.writing->Body_0, dst, data),
                    (encoder, out.0, out.1),
                )
                &&& after == TxnIo { state: mid.state.after_write(encoder), ..mid }
            };
        head_written_reaches(before, mid);
        reaches_by_step(mid.state, Step::Write(encoder));
        reaches_transitive(before.state, mid.state, after.state);
    }
}

/// A response that is over takes nothing more: writing to it sends nothing and changes nothing.
pub proof fn finished_response_sends_nothing<
    X: Http1Transaction,
    T,
    F: FnOnce(Encoder<X::Encode>, T, &[u8]) -> (Encoder<X::Encode>, T, Result<usize, IoError>),
>(
    before: TxnIo<X>,
    dst: T,
    data: &[u8],
    encode: F,
    after: TxnIo<X>,
    out: (T, Result<usize, IoError>),
)
    requires
        before.state.wrote_all(),
        before.writes(dst, data, encode, after, out),
    ensures
        out == (dst, Ok::<usize, IoError>(0)),
        after == before,
{
}

/// A request that is over gives nothing more: reading it takes nothing off the transport, so that
/// what comes after it is there for the next message.
pub proof fn finished_request_takes_nothing<
    X: Http1Transaction,
    T,
    B,
    F: FnOnce(Decoder<X::Decode>, Io, T, B) -> (
        Decoder<X::Decode>,
        Io,
        T,
        B,
        Result<usize, IoError>,
    ),
>(
    before: TxnIo<X>,
    src: T,
    buf: B,
    decode: F,
    after: TxnIo<X>,
    out: (T, B, Result<usize, IoError>),
)
    requires
        before.state.read_all(),
        before.reads(src, buf, decode, after, out),
    ensures
        out == (src, buf, Ok::<usize, IoError>(0)),
        after == before,
{
}

/// Ending takes a transaction through steps, after which it is over, unless the transport would not
/// take the last of the response yet.
pub proof fn ends_reaches<
    X: Http1Transaction,
    T,
    F: FnOnce(Encoder<X::Encode>) -> Option<Ending>,
    W: Fn(T, &[u8]) -> (T, Result<usize, IoError>),
>(before: TxnIo<X>, dst: T, finish: F, write: W, after: TxnIo<X>, out: T)
    requires
        before.ends(dst, finish, write, after, out),
    ensures
        before.state.reaches(after.state),
        after.state.outcome() is Ready || after.state.writing is Ending,
{
    let ended = TxnIo { state: before.state.after_end_reading(), ..before };
    reaches_by_step(before.state, Step::EndReading);
    let (mid, last) = choose|mid: TxnIo<X>, last: Option<(Ending, Poll<(), IoError>)>|
        {
            &&& #[trigger] ended.head_written(mid)
            &&& after == TxnIo { state: #[trigger] mid.state.after_end_writing(last), ..mid }
        };
    head_written_reaches(ended, mid);
    reaches_by_step(mid.state, Step::EndWriting(last));
    reaches_transitive(before.state, ended.state, mid.state);
    reaches_transitive(before.state, mid.state, after.state);
}

impl<D, E> State<D, E> {
    /// The `i`th of the steps was the one by which the response's head was written.
    pub open spec fn writes_head(self, steps: Seq<Step<D, E>>, i: int) -> bool {
        &&& 0 <= i < steps.len()
        &&& self.run(steps.take(i)).before_head()
        &&& steps[i] is Head
    }
}

/// Among all the steps of a transaction, one at most writes a head, and its bytes go out in front
/// of the body.
pub proof fn one_head_goes_out<D, E>(start: State<D, E>, steps: Seq<Step<D, E>>, i: int, j: int)
    requires
        start.writes_head(steps, i),
        start.writes_head(steps, j),
    ensures
        i == j,
        start.run(steps.take(i + 1)).writing matches Writing::Body(encoder) && encoder.prefix
            == Some(WriteBuf { bytes: steps[i]->Head_2, pos: 0 }),
{
    assert(steps.take(j + 1).drop_last() =~= steps.take(j));
    if i < j {
        run_concat(start, steps.take(i + 1), steps.subrange(i + 1, j));
        assert(steps.take(i + 1) + steps.subrange(i + 1, j) =~= steps.take(j));
        head_is_written_once(start.run(steps.take(i + 1)), steps.subrange(i + 1, j));
    } else if j < i {
        run_concat(start, steps.take(j + 1), steps.subrange(j + 1, i));
        assert(steps.take(j + 1) + steps.subrange(j + 1, i) =~= steps.take(i));
        head_is_written_once(start.run(steps.take(j + 1)), steps.subrange(j + 1, i));
    }
}

/// The first write sends the head as it is set by then: it is that head that is encoded, and the
/// encoder that is handed the data has its bytes to send in front.
pub proof fn first_write_sends_the_head<
    X: Http1Transaction,
    T,
    F: FnOnce(Encoder<X::Encode>, T, &[u8]) -> (Encoder<X::Encode>, T, Result<usize, IoError>),
>(
    before: TxnIo<X>,
    dst: T,
    data: &[u8],
    encode: F,
    after: TxnIo<X>,
    out: (T, Result<usize, IoError>),
)
    requires
        before.state.before_head(),
        before.writes(dst, data, encode, after, out),
    ensures
        exists|encoded: EncodedHead<X::Outgoing, X::Encode>, encoder: Encoder<X::Encode>|
            {
                &&& #[trigger] call_ensures(X::encode, (&before.heads.outgoing,), encoded)
                &&& #[trigger] call_ensures(
                    encode,
                    (
                        encoded.encoder.prefixed(WriteBuf { bytes: encoded.bytes, pos: 0 }),
                        dst,
                        data,
                    ),
                    (encoder, out.0, out.1),
                )
                &&& after.heads.outgoing == encoded.head
            },
{
}

/// What is set in the head after it was written is not sent: a transaction with another head from
/// there on writes and ends in the same way.
pub proof fn later_heads_are_not_sent<
    X: Http1Transaction,
    T,
    F: FnOnce(Encoder<X::Encode>, T, &[u8]) -> (Encoder<X::Encode>, T, Result<usize, IoError>),
    G: FnOnce(Encoder<X::Encode>) -> Option<Ending>,
    W: Fn(T, &[u8]) -> (T, Result<usize, IoError>),
>(
    before: TxnIo<X>,
    head: MessageHead<X::Outgoing>,
    dst: T,
    data: &[u8],
    encode: F,
    finish: G,
    write: W,
    after: TxnIo<X>,
    out: T,
    res: Result<usize, IoError>,
)
    requires
        !before.state.before_head(),
    ensures
        before.writes(dst, data, encode, after, (out, res)) ==> with_head(before, head).writes(
            dst,
            data,
            encode,
            with_head(after, head),
            (out, res),
        ),
        before.ends(dst, finish, write, after, out) ==> with_head(before, head).ends(
            dst,
            finish,
            write,
            with_head(after, head),
            out,
        ),
{
    let other = with_head(before, head);
    assert(other.head_written(other));
    if before.ends(dst, finish, write, after, out) {
        let other_ended = TxnIo { state: other.state.after_end_reading(), ..other };
        assert(other_ended.head_written(other_ended));
    }
}

/// A transaction with another head set for its response.
pub open spec fn with_head<X: Http1Transaction>(
    txn: TxnIo<X>,
    head: MessageHead<X::Outgoing>,
) -> TxnIo<X> {
    TxnIo { heads: Heads { outgoing: head, ..txn.heads }, ..txn }
}

/// What a destination has received, as `received` tells it, grows by exactly the bytes that `write`
/// says were taken.
pub open spec fn appends<T, W: Fn(T, &[u8]) -> (T, Result<usize, IoError>)>(
    write: W,
    received: spec_fn(T) -> Seq<u8>,
) -> bool {
    forall|dst: T, x: &[u8], out: T, result: Result<usize, IoError>| #[trigger]
        call_ensures(write, (dst, x), (out, result)) ==> received(out) == received(dst)
            + match result {
            Ok(n) => x@.take(n as int),
            Err(_) => Seq::empty(),
        }
}

/// A write-out never comes past the end of what there is to write.
proof fn flush_keeps_wf<T, W: Fn(T, &[u8]) -> (T, Result<usize, IoError>)>(
    write: W,
    before: Ending,
    log: Seq<Result<usize, IoError>>,
    ports: Seq<T>,
    after: Ending,
    res: Poll<(), IoError>,
)
    requires
        before.wf(),
        takes_bytes(write),
        flush_log(write, before, log, ports, after, res),
    ensures
        after.wf(),
        before.pos <= after.pos,
        res == Ok::<Async<()>, IoError>(Async::Ready(())) ==> after.pos == after.bytes@.len(),
        before.pos < before.bytes@.len() && after.pos == after.bytes@.len() ==> res == Ok::<
            Async<()>,
            IoError,
        >(Async::Ready(())),
{
}

/// What a destination has received after some of the writes of a write-out.
proof fn received_so_far<T, W: Fn(T, &[u8]) -> (T, Result<usize, IoError>)>(
    write: W,
    received: spec_fn(T) -> Seq<u8>,
    before: Ending,
    log: Seq<Result<usize, IoError>>,
    ports: Seq<T>,
    after: Ending,
    res: Poll<(), IoError>,
    n: int,
)
    requires
        before.wf(),
        after.wf(),
        appends(write, received),
        flush_log(write, before, log, ports, after, res),
        0 <= n <= log.len(),
    ensures
        before.pos + taken(log.take(n)) <= before.bytes@.len(),
        received(ports[n]) == received(ports[0]) + before.bytes@.subrange(
            before.pos as int,
            before.pos + taken(log.take(n)),
        ),
    decreases n,
{
    if n > 0 {
        received_so_far(write, received, before, log, ports, after, res, n - 1);
        let at = before.pos + taken(log.take(n - 1));
        assert(log.take(n).drop_last() =~= log.take(n - 1));
        assert(offered(write, ports[n - 1], before.bytes@.skip(at), ports[n], log[n - 1]));
        if n == log.len() {
            assert(log.take(n) =~= log);
        }
    }
}

/// Writing out an ending sends its bytes in order, each of them once, and nothing else: the
/// destination receives exactly what lies between the old and the new position. Exactly if that is
/// all there was, the ending is said to be gone.
pub proof fn ending_is_sent_once<T, W: Fn(T, &[u8]) -> (T, Result<usize, IoError>)>(
    write: W,
    received: spec_fn(T) -> Seq<u8>,
    before: Ending,
    dst: T,
    after: Ending,
    out: T,
    res: Poll<(), IoError>,
)
    requires
        before.wf(),
        takes_bytes(write),
        appends(write, received),
        flushes(write, before, dst, after, out, res),
    ensures
        after.bytes == before.bytes,
        before.pos <= after.pos <= after.bytes@.len(),
        received(out) == received(dst) + before.bytes@.subrange(
            before.pos as int,
            after.pos as int,
        ),
        before.rest() == before.bytes@.subrange(before.pos as int, after.pos as int)
            + after.rest(),
        res == Ok::<Async<()>, IoError>(Async::Ready(())) ==> after.pos == after.bytes@.len(),
        before.pos < before.bytes@.len() && after.pos == after.bytes@.len() ==> res == Ok::<
            Async<()>,
            IoError,
        >(Async::Ready(())),
{
    let (log, ports) = choose|log: Seq<Result<usize, IoError>>, ports: Seq<T>|
        {
            &&& #[trigger] flush_log(write, before, log, ports, after, res)
            &&& ports.first() == dst
            &&& ports.last() == out
        };
    flush_keeps_wf(write, before, log, ports, after, res);
    received_so_far(write, received, before, log, ports, after, res, log.len() as int);
    assert(log.take(log.len() as int) =~= log);
}

/// An ending goes out whole to a destination that never fails to take some of it.
pub proof fn ending_goes_out_whole<T, W: Fn(T, &[u8]) -> (T, Result<usize, IoError>)>(
    write: W,
    before: Ending,
    dst: T,
    after: Ending,
    out: T,
    res: Poll<(), IoError>,
)
    requires
        before.wf(),
        takes_bytes(write),
        forall|t: T, x: &[u8], next: T, result: Result<usize, IoError>| #[trigger]
            call_ensures(write, (t, x), (next, result)) ==> result is Ok,
        flushes(write, before, dst, after, out, res),
    ensures
        res == Ok::<Async<()>, IoError>(Async::Ready(())),
        after.pos == after.bytes@.len(),
{
    let (log, ports) = choose|log: Seq<Result<usize, IoError>>, ports: Seq<T>|
        {
            &&& #[trigger] flush_log(write, before, log, ports, after, res)
            &&& ports.first() == dst
            &&& ports.last() == out
        };
    flush_keeps_wf(write, before, log, ports, after, res);
}

/// Ending a transaction sends nothing, unless its response is incomplete and can be completed: then
/// it sends the front of what completes it, all of it where it is said to be gone, and keeps what
/// the transport would not take yet.
pub proof fn end_sends_only_the_ending<
    X: Http1Transaction,
    T,
    F: FnOnce(Encoder<X::Encode>) -> Option<Ending>,
    W: Fn(T, &[u8]) -> (T, Result<usize, IoError>),
>(
    received: spec_fn(T) -> Seq<u8>,
    before: TxnIo<X>,
    dst: T,
    finish: F,
    write: W,
    after: TxnIo<X>,
    out: T,
)
    requires
        finishes(finish),
        takes_bytes(write),
        appends(write, received),
        before.ends(dst, finish, write, after, out),
    ensures
        out == dst || exists|
            encoder: Encoder<X::Encode>,
            ending: Ending,
            left: Ending,
            res: Poll<(), IoError>,
        |
            {
                &&& !encoder.complete()
                &&& before.state.before_head() || before.state.writing == Writing::<
                    X::Encode,
                >::Body(encoder)
                &&& #[trigger] call_ensures(finish, (encoder,), Some(ending))
                &&& #[trigger] flushes(write, ending, dst, left, out, res)
                &&& received(out) == received(dst) + ending.bytes@.subrange(
                    ending.pos as int,
                    left.pos as int,
                )
                &&& match res {
                    Ok(Async::Ready(_)) => left.pos == ending.bytes@.len()
                        && after.state.wrote_all(),
                    Ok(Async::NotReady) => after.state.writing == Writing::<X::Encode>::Ending(
                        left,
                    ),
                    Err(_) => after.state.writing is Closed,
                }
            },
        !before.state.before_head() && !(before.state.writing is Body) ==> out == dst,
        before.state.writing matches Writing::Body(encoder) && encoder.complete() ==> out == dst,
{
    let ended = TxnIo { state: before.state.after_end_reading(), ..before };
    let (mid, last) = choose|mid: TxnIo<X>, last: Option<(Ending, Poll<(), IoError>)>|
        {
            &&& #[trigger] ended.head_written(mid)
            &&& after == TxnIo { state: #[trigger] mid.state.after_end_writing(last), ..mid }
            &&& match mid.state.writing {
                Writing::Body(encoder) if !encoder.complete() => match last {
                    None => out == dst && call_ensures(finish, (encoder,), None::<Ending>),
                    Some((ending, res)) => exists|before: Ending|
                        {
                            &&& #[trigger] call_ensures(finish, (encoder,), Some(before))
                            &&& flushes(write, before, dst, ending, out, res)
                        },
                },
                _ => out == dst,
            }
        };
    match mid.state.writing {
        Writing::Body(encoder) if !encoder.complete() => match last {
            None => {},
            Some((left, res)) => {
                let ending = choose|before: Ending|
                    {
                        &&& #[trigger] call_ensures(finish, (encoder,), Some(before))
                        &&& flushes(write, before, dst, left, out, res)
                    };
                ending_is_sent_once(write, received, ending, dst, left, out, res);
            },
        },
        _ => {},
    }
}

} // verus!
