//! The state and the decisions of WebTransport sessions, send groups and
//! datagram writers (https://w3c.github.io/webtransport/). Script objects are
//! identified by numbers: a session by its id, a promise by a handle that
//! the embedder hands in.

#![allow(non_snake_case)]

use vstd::prelude::*;
use std::collections::VecDeque;

verus! {

/// The errors these algorithms throw, with their messages.
#[derive(Debug)]
pub enum WebTransportError {
    /// A `SyntaxError` exception.
    Syntax(String),
    /// A `NotSupportedError` exception.
    NotSupported(String),
    /// An `InvalidStateError` exception.
    InvalidState(String),
    /// A `TypeError`.
    Type(String),
}

/// The congestion control a session asks for.
#[derive(Clone, Copy, Debug, PartialEq, Eq, Structural)]
pub enum WebTransportCongestionControl {
    Default,
    Throughput,
    LowLatency,
}

/// Whether a session may share its connection.
#[derive(Clone, Copy, Debug, PartialEq, Eq, Structural)]
pub enum NewConnection {
    /// `"no"`: the connection may be pooled.
    No,
    /// `"yes-and-dedicated"`.
    YesAndDedicated,
}

/// The members of a `WebTransportOptions` dictionary that the constructor
/// reads.
pub struct WebTransportOptions {
    pub allow_pooling: bool,
    pub require_unreliable: bool,
    /// The values of the `serverCertificateHashes` entries.
    pub server_certificate_hashes: Vec<Vec<u8>>,
    pub congestion_control: WebTransportCongestionControl,
    /// The isomorphic encodings of the `protocols` entries.
    pub protocols: Vec<Vec<u8>>,
    pub anticipated_concurrent_incoming_unidirectional_streams: Option<u16>,
    pub anticipated_concurrent_incoming_bidirectional_streams: Option<u16>,
}

/// The parts of the parsed session URL that the constructor checks.
pub struct ParsedUrl {
    /// The scheme, as ASCII bytes.
    pub scheme: Vec<u8>,
    /// Whether the URL has a fragment.
    pub has_fragment: bool,
}

/// What the constructor settles for a new session.
pub struct WebTransportSettings {
    pub new_connection: NewConnection,
    pub require_unreliable: bool,
    pub congestion_control: WebTransportCongestionControl,
    pub anticipated_concurrent_incoming_unidirectional_streams: Option<u16>,
    pub anticipated_concurrent_incoming_bidirectional_streams: Option<u16>,
}

/// The ASCII bytes of `https`.
pub open spec fn https_scheme() -> Seq<u8> {
    seq![0x68u8, 0x74, 0x74, 0x70, 0x73]
}

/// Whether a scheme is `https`.
pub fn is_https(scheme: &[u8]) -> (b: bool)
    ensures
        b == (scheme@ == https_scheme()),
{
    let https: [u8; 5] = [0x68, 0x74, 0x74, 0x70, 0x73];
    assert(https@ =~= https_scheme());
    if scheme.len() != 5 {
        return false;
    }
    let mut i: usize = 0;
    while i < 5
        invariant
            scheme@.len() == 5,
            https@ == https_scheme(),
            i <= 5,
            forall|j: int| 0 <= j < i ==> scheme@[j] == https@[j],
        decreases 5 - i,
    {
        if scheme[i] != https[i] {
            return false;
        }
        i = i + 1;
    }
    assert(scheme@ =~= https_scheme());
    true
}

/// Whether two byte strings are equal.
pub fn bytes_equal(a: &[u8], b: &[u8]) -> (equal: bool)
    ensures
        equal == (a@ == b@),
{
    if a.len() != b.len() {
        return false;
    }
    let mut i: usize = 0;
    while i < a.len()
        invariant
            a@.len() == b@.len(),
            i <= a@.len(),
            forall|k: int| 0 <= k < i ==> a@[k] == b@[k],
        decreases a@.len() - i,
    {
        if a[i] != b[i] {
            return false;
        }
        i = i + 1;
    }
    assert(a@ =~= b@);
    true
}

/// The protocols list meets Step 13 of the constructor: no value occurs
/// twice, and every isomorphic encoding is 1 to 512 bytes long.
pub open spec fn protocols_valid(protocols: Seq<Vec<u8>>) -> bool {
    &&& forall|i: int| 0 <= i < protocols.len() ==> 0 < (#[trigger] protocols[i])@.len() <= 512
    &&& forall|i: int, j: int|
        #![trigger protocols[i], protocols[j]]
        0 <= i < j < protocols.len() ==> protocols[i]@ != protocols[j]@
}

/// Whether a protocols list meets Step 13 of the constructor.
pub fn check_protocols(protocols: &Vec<Vec<u8>>) -> (valid: bool)
    ensures
        valid == protocols_valid(protocols@),
{
    let n = protocols.len();
    let mut i: usize = 0;
    while i < n
        invariant
            n == protocols@.len(),
            i <= n,
            forall|k: int| 0 <= k < i ==> 0 < (#[trigger] protocols@[k])@.len() <= 512,
            forall|k: int, l: int|
                #![trigger protocols@[k], protocols@[l]]
                0 <= k < i && k < l < n ==> protocols@[k]@ != protocols@[l]@,
        decreases n - i,
    {
        let len = protocols[i].len();
        if len == 0 || len > 512 {
            assert(!(0 < protocols@[i as int]@.len() <= 512));
            return false;
        }
        let mut j: usize = i + 1;
        while j < n
            invariant
                n == protocols@.len(),
                i < n,
                i < j <= n,
                forall|l: int| i < l < j ==> protocols@[i as int]@ != (#[trigger] protocols@[l])@,
            decreases n - j,
        {
            if bytes_equal(protocols[i].as_slice(), protocols[j].as_slice()) {
                assert(protocols@[i as int]@ == protocols@[j as int]@);
                return false;
            }
            j = j + 1;
        }
        i = i + 1;
    }
    true
}

/// The [[State]] of a WebTransport session.
#[derive(Clone, Copy, Debug, PartialEq, Eq, Structural)]
pub enum WebTransportState {
    Connecting,
    Connected,
    Draining,
    Closed,
    Failed,
}

/// A WebTransport session object: its identity and its [[State]].
#[derive(Debug)]
pub struct WebTransport {
    id: u64,
    state: WebTransportState,
}

impl WebTransport {
    /// The session's identity.
    pub closed spec fn spec_id(&self) -> u64 {
        self.id
    }

    /// [[State]].
    pub closed spec fn spec_state(&self) -> WebTransportState {
        self.state
    }

    /// A new session, in state "connecting".
    pub fn new(id: u64) -> (transport: WebTransport)
        ensures
            transport.spec_id() == id,
            transport.spec_state() == WebTransportState::Connecting,
    {
        WebTransport { id, state: WebTransportState::Connecting }
    }

    /// The session's identity.
    pub fn id(&self) -> (id: u64)
        ensures
            id == self.spec_id(),
    {
        self.id
    }

    /// [[State]].
    pub fn state(&self) -> (state: WebTransportState)
        ensures
            state == self.spec_state(),
    {
        self.state
    }

    /// Records a new [[State]], as the session's connection progresses.
    pub fn set_state(&mut self, state: WebTransportState)
        ensures
            final(self).spec_state() == state,
            final(self).spec_id() == old(self).spec_id(),
    {
        self.state = state;
    }

    /// Steps 3 to 16 of the `WebTransport(url, options)` constructor, given
    /// the result of parsing `url` against the API base URL (`None` when
    /// parsing failed; Steps 1 and 2, the parsing, and the creation of the
    /// session object and its streams are the caller's).
    pub fn Constructor(url: Option<&ParsedUrl>, options: &WebTransportOptions) -> (res: Result<
        WebTransportSettings,
        WebTransportError,
    >)
        ensures
            url is None ==> (res matches Err(WebTransportError::Syntax(m)) && m@
                == "Failed to paring url with baseURL"@),
            url matches Some(u) && u.scheme@ != https_scheme() ==> (res matches Err(
                WebTransportError::Syntax(m),
            ) && m@ == "URL's scheme is not https"@),
            url matches Some(u) && u.scheme@ == https_scheme() && u.has_fragment ==> (res matches Err(
                WebTransportError::Syntax(m),
            ) && m@ == "URL's fragment is not null"@),
            url matches Some(u) && u.scheme@ == https_scheme() && !u.has_fragment
                && options.allow_pooling && options.server_certificate_hashes@.len() > 0
                ==> (res matches Err(WebTransportError::NotSupported(m)) && m@
                == "newConnection is \"no\" and serverCertificateHashes is not empty"@),
            url matches Some(u) && u.scheme@ == https_scheme() && !u.has_fragment
                && !(options.allow_pooling && options.server_certificate_hashes@.len() > 0)
                && !protocols_valid(options.protocols@) ==> (res matches Err(
                WebTransportError::Syntax(m),
            ) && m@ == "Invalid protocols"@),
            res is Ok <==> (url matches Some(u) && u.scheme@ == https_scheme() && !u.has_fragment
                && !(options.allow_pooling && options.server_certificate_hashes@.len() > 0)
                && protocols_valid(options.protocols@)),
            res matches Ok(settings) ==> {
                &&& settings.new_connection == (if options.allow_pooling {
                    NewConnection::No
                } else {
                    NewConnection::YesAndDedicated
                })
                &&& settings.require_unreliable == options.require_unreliable
                &&& settings.congestion_control == WebTransportCongestionControl::Default
                &&& settings.anticipated_concurrent_incoming_unidirectional_streams
                    == options.anticipated_concurrent_incoming_unidirectional_streams
                &&& settings.anticipated_concurrent_incoming_bidirectional_streams
                    == options.anticipated_concurrent_incoming_bidirectional_streams
            },
    {
        // Step 3. If url is failure, throw a SyntaxError exception.
        let url = match url {
            Some(url) => url,
            None => {
                return Err(WebTransportError::Syntax(String::from_str("Failed to paring url with baseURL")));
            },
        };
        // Step 4. If url's scheme is not https, throw a SyntaxError exception.
        if !is_https(url.scheme.as_slice()) {
            return Err(WebTransportError::Syntax(String::from_str("URL's scheme is not https")));
        }
        // Step 5. If url's fragment is not null, throw a SyntaxError exception.
        if url.has_fragment {
            return Err(WebTransportError::Syntax(String::from_str("URL's fragment is not null")));
        }
        // Step 6. Let newConnection be "no" if options's allowPooling is true;
        // otherwise "yes-and-dedicated".
        let new_connection = if options.allow_pooling {
            NewConnection::No
        } else {
            NewConnection::YesAndDedicated
        };
        // Step 8. If newConnection is "no" and serverCertificateHashes is not
        // empty, then throw a NotSupportedError exception.
        if new_connection == NewConnection::No && options.server_certificate_hashes.len() > 0 {
            return Err(
                WebTransportError::NotSupported(
                    String::from_str("newConnection is \"no\" and serverCertificateHashes is not empty"),
                ),
            );
        }
        // Step 11. Only "default" congestion control is supported.
        // Step 13. If any of the values in protocols occur more than once, or
        // have an isomorphic encoded length of 0 or exceeding 512, throw a
        // SyntaxError exception.
        if !check_protocols(&options.protocols) {
            return Err(WebTransportError::Syntax(String::from_str("Invalid protocols")));
        }
        Ok(WebTransportSettings {
            new_connection,
            require_unreliable: options.require_unreliable,
            congestion_control: WebTransportCongestionControl::Default,
            anticipated_concurrent_incoming_unidirectional_streams: options.anticipated_concurrent_incoming_unidirectional_streams,
            anticipated_concurrent_incoming_bidirectional_streams: options.anticipated_concurrent_incoming_bidirectional_streams,
        })
    }

    /// `createSendGroup()`: throws an InvalidStateError when the session is
    /// closed or failed, otherwise a new send group of this session.
    pub fn CreateSendGroup(&self) -> (res: Result<WebTransportSendGroup, WebTransportError>)
        ensures
            res is Err <==> (self.spec_state() == WebTransportState::Closed || self.spec_state()
                == WebTransportState::Failed),
            res matches Err(e) ==> (e matches WebTransportError::InvalidState(m) && m@
                == "WebTransport is closed or failed"@),
            res matches Ok(group) ==> group.spec_transport() == self.spec_id(),
    {
        // Step 1. If this.[[State]] is "closed" or "failed", throw an
        // InvalidStateError.
        if self.state == WebTransportState::Closed || self.state == WebTransportState::Failed {
            return Err(WebTransportError::InvalidState(String::from_str("WebTransport is closed or failed")));
        }
        // Step 2. Return the result of creating a WebTransportSendGroup with this.
        Ok(WebTransportSendGroup::create(self))
    }
}

/// A WebTransport send group, tied for its whole life to its session,
/// which it refers to by the session's identity.
#[derive(Clone, Copy, Debug, PartialEq, Eq, Structural)]
pub struct WebTransportSendGroup {
    transport: u64,
}

impl WebTransportSendGroup {
    /// [[Transport]], as the session's identity.
    pub closed spec fn spec_transport(&self) -> u64 {
        self.transport
    }

    pub fn new(transport: &WebTransport) -> (group: WebTransportSendGroup)
        ensures
            group.spec_transport() == transport.spec_id(),
    {
        WebTransportSendGroup { transport: transport.id }
    }

    /// [[Transport]], as the session's identity.
    pub fn transport(&self) -> (transport: u64)
        ensures
            transport == self.spec_transport(),
    {
        self.transport
    }

    /// Create a WebTransportSendGroup with `transport`.
    pub fn create(transport: &WebTransport) -> (group: WebTransportSendGroup)
        ensures
            group.spec_transport() == transport.spec_id(),
    {
        WebTransportSendGroup::new(transport)
    }
}

/// The slots of a session's [[Datagrams]] that writing reads.
pub struct WebTransportDatagramDuplexStream {
    /// [[OutgoingMaxDatagramSize]], in bytes.
    pub outgoing_max_datagram_size: u64,
    /// [[OutgoingMaxBufferedDatagrams]].
    pub outgoing_max_buffered_datagrams: u64,
}

/// What to do with the promise that writeDatagrams returns.
#[derive(Clone, Copy, Debug, PartialEq, Eq, Structural)]
pub enum DatagramPromise {
    /// Resolve it with undefined now.
    Resolve,
    /// Leave it pending: it settles when its datagram is sent.
    Pending,
}

/// A datagram waiting to be sent: its bytes, when it was written, and the
/// handle of the promise to settle once it is sent.
pub struct OutgoingDatagram {
    pub bytes: Vec<u8>,
    pub timestamp: u128,
    pub promise: u64,
}

impl View for OutgoingDatagram {
    type V = (Seq<u8>, u128, u64);

    open spec fn view(&self) -> (Seq<u8>, u128, u64) {
        (self.bytes@, self.timestamp, self.promise)
    }
}

/// The writable side of a session's datagrams.
pub struct WebTransportDatagramsWritable {
    outgoing_datagrams_queue: VecDeque<OutgoingDatagram>,
    transport: u64,
    send_group: Option<WebTransportSendGroup>,
    send_order: i64,
}

impl WebTransportDatagramsWritable {
    /// The send group, when set, belongs to this writer's session.
    #[verifier::type_invariant]
    spec fn send_group_matches_transport(self) -> bool {
        self.send_group matches Some(group) ==> group.spec_transport() == self.transport
    }

    /// [[OutgoingDatagramsQueue]], front first.
    pub closed spec fn queue(&self) -> Seq<(Seq<u8>, u128, u64)> {
        self.outgoing_datagrams_queue@.map_values(|d: OutgoingDatagram| d@)
    }

    /// [[Transport]], as the session's identity.
    pub closed spec fn spec_transport(&self) -> u64 {
        self.transport
    }

    /// [[SendGroup]].
    pub closed spec fn spec_send_group(&self) -> Option<WebTransportSendGroup> {
        self.send_group
    }

    /// [[SendOrder]].
    pub closed spec fn spec_send_order(&self) -> i64 {
        self.send_order
    }

    /// Create a WebTransportDatagramsWritable with `transport`: an empty
    /// queue, no send group, send order 0.
    pub fn create(transport: &WebTransport) -> (writable: WebTransportDatagramsWritable)
        ensures
            writable.queue() == Seq::<(Seq<u8>, u128, u64)>::empty(),
            writable.spec_transport() == transport.spec_id(),
            writable.spec_send_group() is None,
            writable.spec_send_order() == 0,
    {
        let writable = WebTransportDatagramsWritable {
            outgoing_datagrams_queue: VecDeque::new(),
            transport: transport.id,
            send_group: None,
            send_order: 0,
        };
        assert(writable.queue() =~= Seq::<(Seq<u8>, u128, u64)>::empty());
        writable
    }

    /// [[OutgoingDatagramsQueue]].
    pub fn outgoing_datagrams_queue(&self) -> (queue: &VecDeque<OutgoingDatagram>)
        ensures
            queue@.map_values(|d: OutgoingDatagram| d@) == self.queue(),
    {
        &self.outgoing_datagrams_queue
    }

    /// writeDatagrams, given the session's [[Datagrams]] slots. `data` is the
    /// copy of the bytes of the written BufferSource, `None` when the written
    /// value is not one; `timestamp` is now; `promise` is the new promise.
    ///
    /// Not a BufferSource: the promise is to be rejected with the returned
    /// TypeError. Longer than [[OutgoingMaxDatagramSize]]: dropped, and the
    /// promise resolved. Otherwise the datagram is queued at the back, and the
    /// promise resolved when the queue is then shorter than
    /// [[OutgoingMaxBufferedDatagrams]], left pending otherwise.
    pub fn write_datagrams(
        &mut self,
        datagrams: &WebTransportDatagramDuplexStream,
        data: Option<Vec<u8>>,
        timestamp: u128,
        promise: u64,
    ) -> (res: Result<DatagramPromise, WebTransportError>)
        ensures
            res is Err <==> data is None,
            res matches Err(e) ==> (e matches WebTransportError::Type(m) && m@
                == "The data is not a BufferSource"@),
            data is None ==> final(self).queue() == old(self).queue(),
            data matches Some(bytes) ==> (bytes@.len() > datagrams.outgoing_max_datagram_size ==> res
                == Ok::<DatagramPromise, WebTransportError>(DatagramPromise::Resolve)),
            data matches Some(bytes) ==> (bytes@.len() > datagrams.outgoing_max_datagram_size
                ==> final(self).queue() == old(self).queue()),
            data matches Some(bytes) ==> (bytes@.len() <= datagrams.outgoing_max_datagram_size
                ==> final(self).queue() == old(self).queue().push((bytes@, timestamp, promise))),
            data matches Some(bytes) ==> (bytes@.len() <= datagrams.outgoing_max_datagram_size ==> (res
                matches Ok(p) && (p == DatagramPromise::Resolve <==> final(self).queue().len()
                < datagrams.outgoing_max_buffered_datagrams))),
            final(self).spec_transport() == old(self).spec_transport(),
            final(self).spec_send_group() == old(self).spec_send_group(),
            final(self).spec_send_order() == old(self).spec_send_order(),
    {
        proof {
            use_type_invariant(&*self);
        }
        // Step 2. If data is not a BufferSource object, then return a promise
        // rejected with a TypeError.
        let bytes = match data {
            Some(bytes) => bytes,
            None => {
                return Err(WebTransportError::Type(String::from_str("The data is not a BufferSource")));
            },
        };
        // Step 4. If datagrams.[[OutgoingMaxDatagramSize]] is less than data's
        // [[ByteLength]], return a promise resolved with undefined.
        if datagrams.outgoing_max_datagram_size < bytes.len() as u64 {
            return Ok(DatagramPromise::Resolve);
        }
        // Steps 7 and 8. Enqueue (bytes, timestamp, promise).
        let ghost before = self.queue();
        let datagram = OutgoingDatagram { bytes, timestamp, promise };
        let mut queue = VecDeque::new();
        std::mem::swap(&mut queue, &mut self.outgoing_datagrams_queue);
        queue.push_back(datagram);
        self.outgoing_datagrams_queue = queue;
        assert(self.queue() =~= before.push((datagram@)));
        // Step 9. If the length of the queue is less than
        // datagrams.[[OutgoingMaxBufferedDatagrams]], resolve promise.
        if (self.outgoing_datagrams_queue.len() as u64) < datagrams.outgoing_max_buffered_datagrams {
            Ok(DatagramPromise::Resolve)
        } else {
            Ok(DatagramPromise::Pending)
        }
    }

    /// `sendGroup` getter.
    pub fn GetSendGroup(&self) -> (group: Option<WebTransportSendGroup>)
        ensures
            group == self.spec_send_group(),
            group matches Some(g) ==> g.spec_transport() == self.spec_transport(),
    {
        proof {
            use_type_invariant(self);
        }
        self.send_group
    }

    /// `sendGroup` setter: refuses a group of another session.
    pub fn SetSendGroup(&mut self, value: Option<WebTransportSendGroup>) -> (res: Result<(), WebTransportError>)
        ensures
            res is Err <==> (value matches Some(g) && g.spec_transport() != old(self).spec_transport()),
            res matches Err(e) ==> (e matches WebTransportError::InvalidState(m) && m@
                == "WebTransport mismatch"@),
            res is Ok ==> final(self).spec_send_group() == value,
            res is Err ==> final(self).spec_send_group() == old(self).spec_send_group(),
            final(self).queue() == old(self).queue(),
            final(self).spec_transport() == old(self).spec_transport(),
            final(self).spec_send_order() == old(self).spec_send_order(),
    {
        // Step 1. If value is non-null, and value.[[Transport]] is not
        // this.[[Transport]], throw an InvalidStateError.
        if let Some(group) = value {
            if group.transport() != self.transport {
                return Err(WebTransportError::InvalidState(String::from_str("WebTransport mismatch")));
            }
        }
        // Step 2. Set this.[[SendGroup]] to value.
        self.send_group = value;
        Ok(())
    }

    /// `sendOrder` getter.
    pub fn SendOrder(&self) -> (order: i64)
        ensures
            order == self.spec_send_order(),
    {
        self.send_order
    }

    /// `sendOrder` setter.
    pub fn SetSendOrder(&mut self, value: i64)
        ensures
            final(self).spec_send_order() == value,
            final(self).queue() == old(self).queue(),
            final(self).spec_transport() == old(self).spec_transport(),
            final(self).spec_send_group() == old(self).spec_send_group(),
    {
        proof {
            use_type_invariant(&*self);
        }
        self.send_order = value;
    }
}

} // verus!
