use vstd::prelude::*;

verus! {

#[verifier::external_type_specification]
#[verifier::external_body]
pub struct ExAnyhowError(anyhow::Error);

/// Where a session stands in its life.
pub enum WebSocketSessionState {
    Initialized,
    Connected,
    Closed,
    Errored(anyhow::Error),
}

/// What a read of the session gives back.
#[derive(Debug, PartialEq, Eq, Structural)]
pub enum ReadPoll {
    /// Nothing to read yet: the reader is to be woken when data comes or the
    /// session is shut down.
    Pending,
    /// This many bytes were read; 0 from a shut-down session is the end of
    /// the stream.
    Ready(usize),
}

/// What a write of the session asks for.
pub enum WritePoll {
    /// Send these bytes as one binary frame; all of them count as written.
    Send(Vec<u8>),
    /// The session was shut down before it held a connection: nothing is written.
    Closed,
    /// The session is neither connected nor shut down: try again later.
    Pending,
}

/// The abstract state of a session: the bytes received and not read yet,
/// whether it holds a connection, whether it was shut down, whether a reader
/// waits to be woken, and its state tag.
pub struct SessionView {
    pub buffered: Seq<u8>,
    pub connected: bool,
    pub closed: bool,
    pub reader_waiting: bool,
    pub state: WebSocketSessionState,
}

/// The bytes that a frame delivered by the socket adds: its payload where it
/// came through, nothing where the socket reported an error.
pub open spec fn frame_payload(frame: Result<Vec<u8>, anyhow::Error>) -> Seq<u8> {
    match frame {
        Ok(bytes) => bytes@,
        Err(_) => Seq::empty(),
    }
}

/// Whether receiving `payload` must wake the reader: one waits and bytes came.
pub open spec fn receive_wakes(s: SessionView, payload: Seq<u8>) -> bool {
    s.reader_waiting && payload.len() > 0
}

/// The session after receiving `payload`: the bytes join the buffer, and a
/// waiting reader that is woken no longer waits.
pub open spec fn receive_spec(s: SessionView, payload: Seq<u8>) -> SessionView {
    SessionView {
        buffered: s.buffered + payload,
        reader_waiting: s.reader_waiting && payload.len() == 0,
        ..s
    }
}

/// How many bytes a read into a buffer of `cap` bytes takes from an open
/// session: as many as are buffered, at most `cap`.
pub open spec fn read_count(s: SessionView, cap: nat) -> nat {
    if s.buffered.len() <= cap {
        s.buffered.len()
    } else {
        cap
    }
}

/// What a read into a buffer of `cap` bytes answers in session `s`: the end
/// of the stream once shut down, pending while nothing is buffered, else the
/// number of bytes taken.
pub open spec fn read_result(s: SessionView, cap: nat) -> ReadPoll {
    if s.closed {
        ReadPoll::Ready(0)
    } else if s.buffered.len() == 0 {
        ReadPoll::Pending
    } else {
        ReadPoll::Ready(read_count(s, cap) as usize)
    }
}

/// The bytes that a read into a buffer of `cap` bytes hands out: the first
/// ones buffered, none from a shut-down session.
pub open spec fn read_delivered(s: SessionView, cap: nat) -> Seq<u8> {
    if s.closed {
        Seq::empty()
    } else {
        s.buffered.take(read_count(s, cap) as int)
    }
}

/// The session after a read into a buffer of `cap` bytes: the bytes handed
/// out leave the buffer, and the reader waits exactly where the read was
/// pending.
pub open spec fn read_spec(s: SessionView, cap: nat) -> SessionView {
    if s.closed {
        SessionView { reader_waiting: false, ..s }
    } else if s.buffered.len() == 0 {
        SessionView { reader_waiting: true, ..s }
    } else {
        SessionView {
            buffered: s.buffered.skip(read_count(s, cap) as int),
            reader_waiting: false,
            ..s
        }
    }
}

/// The session after a shutdown: shut down, with no reader left waiting.
pub open spec fn shutdown_spec(s: SessionView) -> SessionView {
    SessionView { closed: true, reader_waiting: false, ..s }
}

/// The session after it was given its connection.
pub open spec fn attach_spec(s: SessionView) -> SessionView {
    SessionView { connected: true, closed: false, ..s }
}

/// The state of a session that was just made.
pub open spec fn initial_spec() -> SessionView {
    SessionView {
        buffered: Seq::empty(),
        connected: false,
        closed: true,
        reader_waiting: false,
        state: WebSocketSessionState::Initialized,
    }
}

/// What a write of `data` asks for in session `s`: a frame with exactly
/// `data` where it holds a connection, otherwise nothing, finished where it
/// was shut down.
pub open spec fn write_matches(s: SessionView, data: Seq<u8>, w: WritePoll) -> bool {
    if s.connected {
        w matches WritePoll::Send(frame) && frame@ == data
    } else if s.closed {
        w is Closed
    } else {
        w is Pending
    }
}

/// The decision logic of a websocket byte stream: received frames are
/// buffered, reads drain the buffer, writes become frames.
pub struct WebSocketSession {
    buf: Vec<u8>,
    connected: bool,
    closed: bool,
    reader_waiting: bool,
    state: WebSocketSessionState,
}

impl View for WebSocketSession {
    type V = SessionView;

    closed spec fn view(&self) -> SessionView {
        SessionView {
            buffered: self.buf@,
            connected: self.connected,
            closed: self.closed,
            reader_waiting: self.reader_waiting,
            state: self.state,
        }
    }
}

impl WebSocketSession {
    /// A session with no connection and nothing buffered; it counts as shut
    /// down until it is given a connection.
    pub fn new() -> (s: Self)
        ensures
            s@ == initial_spec(),
    {
        WebSocketSession {
            buf: Vec::new(),
            connected: false,
            closed: true,
            reader_waiting: false,
            state: WebSocketSessionState::Initialized,
        }
    }

    /// Records that the session now holds an open connection.
    pub fn attach(&mut self)
        ensures
            final(self)@ == attach_spec(old(self)@),
    {
        self.connected = true;
        self.closed = false;
    }

    /// A session that holds an open connection and has nothing buffered.
    pub fn connect() -> (s: Self)
        ensures
            s@ == attach_spec(initial_spec()),
    {
        let mut s = WebSocketSession::new();
        s.attach();
        s
    }

    /// Whether the session was shut down (or never given a connection).
    pub fn closed(&self) -> (r: bool)
        ensures
            r == self@.closed,
    {
        self.closed
    }

    /// Whether the session holds a connection.
    pub fn is_connected(&self) -> (r: bool)
        ensures
            r == self@.connected,
    {
        self.connected
    }

    /// Whether a reader was told to wait and has not been woken yet.
    pub fn reader_waiting(&self) -> (r: bool)
        ensures
            r == self@.reader_waiting,
    {
        self.reader_waiting
    }

    /// The number of bytes received and not read yet.
    pub fn buffered_len(&self) -> (n: usize)
        ensures
            n == self@.buffered.len(),
    {
        self.buf.len()
    }

    /// Takes in a frame delivered by the socket: its payload is appended to
    /// what waits to be read; an error from the socket is dropped. Returns
    /// whether the waiting reader must be woken now.
    pub fn receive(&mut self, frame: Result<Vec<u8>, anyhow::Error>) -> (wake: bool)
        ensures
            final(self)@ == receive_spec(old(self)@, frame_payload(frame)),
            wake == receive_wakes(old(self)@, frame_payload(frame)),
    {
        match frame {
            Ok(bytes) => {
                let mut bytes = bytes;
                let wake = self.reader_waiting && bytes.len() > 0;
                self.buf.append(&mut bytes);
                if wake {
                    self.reader_waiting = false;
                }
                wake
            },
            Err(_) => {
                proof {
                    assert(self.buf@ + Seq::<u8>::empty() =~= self.buf@);
                }
                false
            },
        }
    }

    /// Reads into `out`. A shut-down session answers `Ready(0)`, the end of
    /// the stream. With nothing buffered the read is pending and the reader
    /// waits to be woken. Otherwise as many bytes as are buffered, at most
    /// `out.len()`, are copied to the front of `out` and leave the buffer;
    /// the rest stays buffered in order.
    pub fn poll_read(&mut self, out: &mut [u8]) -> (r: ReadPoll)
        ensures
            r == read_result(old(self)@, old(out)@.len()),
            final(self)@ == read_spec(old(self)@, old(out)@.len()),
            final(out)@ == read_delivered(old(self)@, old(out)@.len()) + old(out)@.skip(
                read_delivered(old(self)@, old(out)@.len()).len() as int,
            ),
    {
        if self.closed() {
            self.reader_waiting = false;
            proof {
                assert(out@ =~= Seq::<u8>::empty() + out@.skip(0));
            }
            return ReadPoll::Ready(0);
        }
        let len = self.buf.len();
        if len == 0 {
            self.reader_waiting = true;
            proof {
                assert(out@ =~= self.buf@.take(0) + out@.skip(0));
            }
            return ReadPoll::Pending;
        }
        let k: usize = if len <= out.len() {
            len
        } else {
            out.len()
        };
        let ghost old_out = out@;
        let mut i: usize = 0;
        while i < k
            invariant
                len == self.buf@.len(),
                k <= len,
                k <= out@.len(),
                out@.len() == old_out.len(),
                i <= k,
                forall|j: int| 0 <= j < i ==> out@[j] == self.buf@[j],
                forall|j: int| k <= j < out@.len() ==> out@[j] == old_out[j],
            decreases k - i,
        {
            out[i] = self.buf[i];
            i = i + 1;
        }
        assert(out@ =~= self.buf@.take(k as int) + old_out.skip(k as int));
        let rest = self.buf.split_off(k);
        self.buf = rest;
        self.reader_waiting = false;
        ReadPoll::Ready(k)
    }

    /// Decides a write of `data`: with a connection it becomes one frame
    /// holding exactly `data`; a shut-down session without a connection
    /// writes nothing; otherwise the write is pending. The session does not
    /// change.
    pub fn poll_write(&self, data: &[u8]) -> (w: WritePoll)
        ensures
            write_matches(self@, data@, w),
    {
        if self.connected {
            WritePoll::Send(vstd::slice::slice_to_vec(data))
        } else if self.closed() {
            WritePoll::Closed
        } else {
            WritePoll::Pending
        }
    }

    /// Shuts the session down: every read answers `Ready(0)` from now on.
    /// Returns whether a waiting reader must be woken to see the end.
    pub fn poll_shutdown(&mut self) -> (wake: bool)
        ensures
            final(self)@ == shutdown_spec(old(self)@),
            wake == old(self)@.reader_waiting,
    {
        let wake = self.reader_waiting;
        self.closed = true;
        self.reader_waiting = false;
        wake
    }
}

/// One thing that happens to a session: a frame's payload comes in, a read
/// into a buffer of some length, a write, a shutdown, or the connection is
/// given.
pub enum SessionEvent {
    Receive(Seq<u8>),
    Read(nat),
    Write(Seq<u8>),
    Shutdown,
    Attach,
}

/// The session after one event.
pub open spec fn step(s: SessionView, e: SessionEvent) -> SessionView {
    match e {
        SessionEvent::Receive(p) => receive_spec(s, p),
        SessionEvent::Read(cap) => read_spec(s, cap),
        SessionEvent::Write(_) => s,
        SessionEvent::Shutdown => shutdown_spec(s),
        SessionEvent::Attach => attach_spec(s),
    }
}

/// The bytes that one event hands to the reader.
pub open spec fn step_delivered(s: SessionView, e: SessionEvent) -> Seq<u8> {
    match e {
        SessionEvent::Read(cap) => read_delivered(s, cap),
        _ => Seq::empty(),
    }
}

/// The bytes that one event brings in from the socket.
pub open spec fn step_received(e: SessionEvent) -> Seq<u8> {
    match e {
        SessionEvent::Receive(p) => p,
        _ => Seq::empty(),
    }
}

/// The session after a run of events.
pub open spec fn run(s: SessionView, events: Seq<SessionEvent>) -> SessionView
    decreases events.len(),
{
    if events.len() == 0 {
        s
    } else {
        step(run(s, events.drop_last()), events.last())
    }
}

/// All the bytes that the reads of a run hand out, in order.
pub open spec fn run_delivered(s: SessionView, events: Seq<SessionEvent>) -> Seq<u8>
    decreases events.len(),
{
    if events.len() == 0 {
        Seq::empty()
    } else {
        run_delivered(s, events.drop_last()) + step_delivered(
            run(s, events.drop_last()),
            events.last(),
        )
    }
}

/// All the bytes that come in from the socket during a run, in order.
pub open spec fn run_received(events: Seq<SessionEvent>) -> Seq<u8>
    decreases events.len(),
{
    if events.len() == 0 {
        Seq::empty()
    } else {
        run_received(events.drop_last()) + step_received(events.last())
    }
}

/// No byte is lost, duplicated or reordered: over any run of receives,
/// reads, writes, shutdowns and connections, the bytes handed to the reader
/// followed by those still buffered are the bytes buffered at the start
/// followed by every byte received, in order.
pub proof fn law_no_byte_lost(s: SessionView, events: Seq<SessionEvent>)
    ensures
        run_delivered(s, events) + run(s, events).buffered == s.buffered + run_received(events),
    decreases events.len(),
{
    if events.len() != 0 {
        let p = events.drop_last();
        let e = events.last();
        let t = run(s, p);
        law_no_byte_lost(s, p);
        let dp = run_delivered(s, p);
        let rp = run_received(p);
        match e {
            SessionEvent::Receive(x) => {
                assert(dp + Seq::<u8>::empty() + (t.buffered + x) =~= (dp + t.buffered) + x);
                assert(s.buffered + (rp + x) =~= (s.buffered + rp) + x);
            },
            SessionEvent::Read(cap) => {
                if t.closed {
                    assert(dp + Seq::<u8>::empty() =~= dp);
                } else if t.buffered.len() == 0 {
                    assert(dp + t.buffered.take(0) =~= dp);
                } else {
                    let k = read_count(t, cap) as int;
                    assert(t.buffered.take(k) + t.buffered.skip(k) =~= t.buffered);
                    assert(dp + t.buffered.take(k) + t.buffered.skip(k) =~= dp + t.buffered);
                }
                assert(rp + Seq::<u8>::empty() =~= rp);
            },
            _ => {
                assert(dp + Seq::<u8>::empty() =~= dp);
                assert(rp + Seq::<u8>::empty() =~= rp);
            },
        }
    }
}

/// Received bytes are kept in the order they came: a run of frames appends
/// each payload in turn to the buffer.
pub proof fn law_receive_keeps_order(s: SessionView, payloads: Seq<Seq<u8>>)
    ensures
        run(s, payloads.map_values(|p: Seq<u8>| SessionEvent::Receive(p))).buffered == s.buffered
            + payloads.flatten(),
    decreases payloads.len(),
{
    let ev = payloads.map_values(|p: Seq<u8>| SessionEvent::Receive(p));
    if payloads.len() != 0 {
        let q = payloads.drop_last();
        law_receive_keeps_order(s, q);
        assert(ev.drop_last() =~= q.map_values(|p: Seq<u8>| SessionEvent::Receive(p)));
        q.lemma_flatten_push(payloads.last());
        assert(q.push(payloads.last()) =~= payloads);
        assert(s.buffered + q.flatten() + payloads.last() =~= s.buffered + (q.flatten()
            + payloads.last()));
    }
}

/// A read gives back what was received: on a session that is not shut down
/// and has nothing left over, after a run of frames a read into a buffer
/// large enough answers with the number of all their bytes, hands out
/// exactly those bytes in order and leaves nothing behind, so that the next
/// read is pending. With no bytes received the read is pending.
pub proof fn law_read_returns_received(s: SessionView, payloads: Seq<Seq<u8>>, cap: nat)
    requires
        !s.closed,
        s.buffered.len() == 0,
        cap >= payloads.flatten().len(),
    ensures
        ({
            let t = run(s, payloads.map_values(|p: Seq<u8>| SessionEvent::Receive(p)));
            &&& payloads.flatten().len() != 0 ==> read_result(t, cap) == ReadPoll::Ready(
                payloads.flatten().len() as usize,
            )
            &&& read_delivered(t, cap) == payloads.flatten()
            &&& read_spec(t, cap).buffered.len() == 0
            &&& payloads.flatten().len() == 0 ==> read_result(t, cap) == ReadPoll::Pending
        }),
{
    law_receive_keeps_order(s, payloads);
    law_stays_open_under_receives(s, payloads);
    let t = run(s, payloads.map_values(|p: Seq<u8>| SessionEvent::Receive(p)));
    assert(t.buffered =~= payloads.flatten());
    assert(t.buffered.take(t.buffered.len() as int) =~= t.buffered);
    assert(t.buffered.skip(t.buffered.len() as int) =~= Seq::<u8>::empty());
}

/// Receiving frames never shuts a session down.
pub proof fn law_stays_open_under_receives(s: SessionView, payloads: Seq<Seq<u8>>)
    ensures
        run(s, payloads.map_values(|p: Seq<u8>| SessionEvent::Receive(p))).closed == s.closed,
    decreases payloads.len(),
{
    if payloads.len() != 0 {
        let q = payloads.drop_last();
        law_stays_open_under_receives(s, q);
        assert(payloads.map_values(|p: Seq<u8>| SessionEvent::Receive(p)).drop_last()
            =~= q.map_values(|p: Seq<u8>| SessionEvent::Receive(p)));
    }
}

/// A reader told to wait is woken: after a pending read the session records
/// a waiting reader; the next frame with bytes, or a shutdown, reports that
/// it must be woken, and from then on no reader waits.
pub proof fn law_waiting_reader_is_woken(s: SessionView, cap: nat, payload: Seq<u8>)
    requires
        read_result(s, cap) == ReadPoll::Pending,
    ensures
        read_spec(s, cap).reader_waiting,
        payload.len() > 0 ==> receive_wakes(read_spec(s, cap), payload),
        payload.len() > 0 ==> !receive_spec(read_spec(s, cap), payload).reader_waiting,
        payload.len() > 0 ==> read_result(receive_spec(read_spec(s, cap), payload), cap)
            != ReadPoll::Pending,
        shutdown_spec(read_spec(s, cap)).closed,
        !shutdown_spec(read_spec(s, cap)).reader_waiting,
        read_result(shutdown_spec(read_spec(s, cap)), cap) == ReadPoll::Ready(0),
{
}

/// An error reported by the socket changes nothing.
pub proof fn law_socket_error_dropped(s: SessionView, e: anyhow::Error)
    ensures
        receive_spec(s, frame_payload(Err(e))) == s,
{
    assert(s.buffered + Seq::<u8>::empty() =~= s.buffered);
}

/// Shutting down is for good: once shut down, receiving, reading, writing
/// and shutting down again leave the session shut down, every read answers
/// `Ready(0)`, the end of the stream, and buffered bytes stay where they are.
pub proof fn law_shutdown_is_final(s: SessionView, e: SessionEvent, cap: nat)
    requires
        s.closed,
        !(e is Attach),
    ensures
        step(s, e).closed,
        step(s, e).buffered == s.buffered + step_received(e),
        read_result(s, cap) == ReadPoll::Ready(0),
        read_delivered(s, cap).len() == 0,
{
    assert(s.buffered + Seq::<u8>::empty() =~= s.buffered);
}

/// A session without a connection is shut down.
pub open spec fn connection_or_closed(s: SessionView) -> bool {
    !s.connected ==> s.closed
}

/// A session without a connection is always shut down, so a write is never
/// pending: this holds of a new session and of every session reached from it
/// by any run of events.
pub proof fn law_write_never_pending(events: Seq<SessionEvent>, data: Seq<u8>, w: WritePoll)
    ensures
        connection_or_closed(run(initial_spec(), events)),
        write_matches(run(initial_spec(), events), data, w) ==> !(w is Pending),
    decreases events.len(),
{
    if events.len() != 0 {
        law_write_never_pending(events.drop_last(), data, w);
    }
}

/// A new session answers the end of the stream and, having no connection,
/// writes nothing; once given its connection every write becomes a frame
/// with exactly the bytes written, and with nothing buffered a read waits.
pub proof fn law_session_life(data: Seq<u8>, w: WritePoll, cap: nat)
    ensures
        read_result(initial_spec(), cap) == ReadPoll::Ready(0),
        write_matches(initial_spec(), data, w) <==> w is Closed,
        write_matches(attach_spec(initial_spec()), data, w) <==> (w matches WritePoll::Send(frame)
            && frame@ == data),
        read_result(attach_spec(initial_spec()), cap) == ReadPoll::Pending,
{
}


/// A write on a connection always goes out: in every session that holds a
/// connection, whatever is buffered, whether a reader waits and whether it
/// was shut down, a write asks for exactly one frame holding exactly the
/// bytes written, and for nothing else.
pub proof fn law_write_sends_on_connection(s: SessionView, data: Seq<u8>, w: WritePoll)
    requires
        s.connected,
    ensures
        write_matches(s, data, w) <==> (w matches WritePoll::Send(frame) && frame@ == data),
{
}

/// A frame is taken in whole: whatever its length, the bytes of a delivered
/// frame are appended to the buffer, all of them and in order; on an open
/// session with nothing left over, a read into a buffer at least as long as
/// the frame then hands out exactly the frame's bytes and answers with its
/// length.
pub proof fn law_frame_taken_whole(s: SessionView, bytes: Vec<u8>, cap: nat)
    ensures
        frame_payload(Ok(bytes)) == bytes@,
        receive_spec(s, frame_payload(Ok(bytes))).buffered == s.buffered + bytes@,
        receive_spec(s, frame_payload(Ok(bytes))).buffered.len() == s.buffered.len()
            + bytes@.len(),
        !s.closed && s.buffered.len() == 0 && cap >= bytes@.len() && bytes@.len() > 0 ==> {
            let t = receive_spec(s, frame_payload(Ok(bytes)));
            &&& read_result(t, cap) == ReadPoll::Ready(bytes@.len() as usize)
            &&& read_delivered(t, cap) == bytes@
            &&& read_spec(t, cap).buffered.len() == 0
        },
{
    if !s.closed && s.buffered.len() == 0 && cap >= bytes@.len() && bytes@.len() > 0 {
        let t = receive_spec(s, frame_payload(Ok(bytes)));
        assert(t.buffered =~= bytes@);
        assert(t.buffered.take(bytes@.len() as int) =~= bytes@);
        assert(t.buffered.skip(bytes@.len() as int) =~= Seq::<u8>::empty());
    }
}

/// A read on an open session with bytes buffered makes progress and takes
/// no more than it may: it hands out the first bytes buffered, as many as
/// fit, at least one where the caller's buffer has room, all of them where
/// they fit, and what it hands out plus what stays is what was buffered.
pub proof fn law_read_takes_prefix(s: SessionView, cap: nat)
    requires
        !s.closed,
        s.buffered.len() > 0,
    ensures
        read_delivered(s, cap).len() <= cap,
        read_delivered(s, cap).len() <= s.buffered.len(),
        cap > 0 ==> read_delivered(s, cap).len() > 0,
        cap >= s.buffered.len() ==> read_delivered(s, cap) == s.buffered,
        read_delivered(s, cap).len() < cap ==> read_delivered(s, cap) == s.buffered,
        read_delivered(s, cap).len() == cap || read_delivered(s, cap).len() == s.buffered.len(),
        read_delivered(s, cap) + read_spec(s, cap).buffered == s.buffered,
        read_result(s, cap) == ReadPoll::Ready(read_delivered(s, cap).len() as usize),
{
    let k = read_count(s, cap) as int;
    assert(s.buffered.take(k) + s.buffered.skip(k) =~= s.buffered);
    if cap >= s.buffered.len() {
        assert(s.buffered.take(k) =~= s.buffered);
    }
}

} // verus!
