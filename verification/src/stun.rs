//! The STUN responder: which answer a message gets, and how the server goes about its sockets.
use vstd::prelude::*;

use bytecodec::Error as CodecError;
use std::io::Error as IoError;

use crate::addr::{unmap_legacy_addr, Endpoint, SocketAddr};
use crate::codec::{decode_request, Attribute, Message, MessageClass, Request, DESCRIPTION};
use crate::wire::{BINDING, ERROR_CODE, RESPONSE_ORIGIN, SOFTWARE, XOR_MAPPED_ADDRESS};

verus! {

/// The number of bytes that one datagram is read into.
pub const UDP_BUFFER_LEN: usize = 4096;

/// The error of an operation on a socket, carried through unopened.
#[verifier::external_type_specification]
#[verifier::external_body]
pub struct ExIoError(IoError);

/// Why a request got no answer, or why the server stopped.
#[derive(Debug)]
pub enum Error {
    /// A socket failed.
    Io(IoError),
    /// The bytes are no frame of a message.
    MessageDecode(CodecError),
    /// The frame holds a broken message.
    MessageDecodeBroken,
}

/// An XOR-MAPPED-ADDRESS attribute for an endpoint.
pub open spec fn mapped_address(e: Endpoint, transaction_id: Seq<u8>) -> (u16, Seq<u8>) {
    (
        XOR_MAPPED_ADDRESS,
        crate::wire::address_value(
            crate::wire::xor_octets(e.octets, transaction_id),
            crate::wire::xor_port(e.port),
        ),
    )
}

/// A RESPONSE-ORIGIN attribute for an endpoint.
pub open spec fn response_origin(e: Endpoint) -> (u16, Seq<u8>) {
    (RESPONSE_ORIGIN, crate::wire::address_value(e.octets, e.port))
}

/// The SOFTWARE attribute of each answer.
pub open spec fn software() -> (u16, Seq<u8>) {
    (SOFTWARE, vstd::utf8::encode_utf8(DESCRIPTION@))
}

/// The attributes of the answer to a Binding request: where the client is seen, where the answer
/// comes from if that is known, and who answers.
pub open spec fn binding_attributes(
    transaction_id: Seq<u8>,
    client: Endpoint,
    local: Option<Endpoint>,
) -> Seq<(u16, Seq<u8>)> {
    match local {
        Some(origin) => seq![
            mapped_address(client, transaction_id),
            response_origin(origin),
            software(),
        ],
        None => seq![mapped_address(client, transaction_id), software()],
    }
}

/// The attributes of the answer to any other request: error 400, and who answers.
pub open spec fn refusal_attributes() -> Seq<(u16, Seq<u8>)> {
    seq![(ERROR_CODE, crate::codec::bad_request_value()), software()]
}

/// The answer to a message that came from `peer`.
pub open spec fn answer_to(message: Seq<u8>, peer: Endpoint, local: Option<Endpoint>) -> Seq<u8> {
    let id = crate::wire::transaction_of(message);
    let method = crate::wire::method_of(message);
    if method == BINDING {
        crate::wire::message_bytes(
            MessageClass::SuccessResponse.number(),
            method,
            id,
            binding_attributes(id, peer.unmapped(), local),
        )
    } else {
        crate::wire::message_bytes(
            MessageClass::ErrorResponse.number(),
            method,
            id,
            refusal_attributes(),
        )
    }
}

/// What an optional address stands for.
pub open spec fn endpoint_of(addr: Option<SocketAddr>) -> Option<Endpoint> {
    match addr {
        Some(addr) => Some(addr@),
        None => None,
    }
}

/// How a client reached the server.
#[derive(Clone, Copy, Debug, PartialEq, Eq, Structural)]
pub enum Transport {
    Tcp,
    Udp,
}

/// An answer and where to write it: to an address, or back into the stream it was asked on.
#[derive(Debug, PartialEq, Eq)]
pub struct Reply {
    pub to: Option<SocketAddr>,
    pub bytes: Vec<u8>,
}

/// How far a server is.
#[derive(Clone, Copy, Debug, PartialEq, Eq)]
pub enum ServerState {
    /// The listening socket is being bound, and the datagram socket is to get the same address.
    BindingTcp(SocketAddr),
    /// The datagram socket is being bound.
    BindingUdp,
    /// Clients are served.
    Serving,
    /// The server gave up.
    Stopped,
}

/// What happened on the sockets of a server.
#[derive(Debug)]
pub enum ServerEvent {
    /// The socket that was to be bound is bound, or is not.
    Bound(Result<(), IoError>),
    /// A client opened a stream.
    Accepted(Result<SocketAddr, IoError>),
    /// A datagram came in: its length and its sender.
    Received(Result<(usize, SocketAddr), IoError>),
}

/// What a server is to do next.
#[derive(Debug)]
pub enum ServerAction {
    /// Bind the listening socket to this address.
    BindTcp(SocketAddr),
    /// Bind the datagram socket to this address.
    BindUdp(SocketAddr),
    /// Wait for a stream or a datagram.
    Wait,
    /// Serve the stream from this client, aside, and wait on.
    ServeStream(SocketAddr),
    /// Serve the first bytes of the buffer, from this client, aside, and wait on.
    ServeDatagram(usize, SocketAddr),
    /// Give up.
    Stop(Error),
}

/// Whether an event can happen in a state: a bind ends while one is under way, and clients come
/// while the server serves, with datagrams that fit the buffer.
pub open spec fn can_happen(state: ServerState, event: ServerEvent) -> bool {
    match event {
        ServerEvent::Bound(_) => state is BindingTcp || state is BindingUdp,
        ServerEvent::Accepted(_) => state is Serving,
        ServerEvent::Received(Ok((len, _))) => state is Serving && len <= UDP_BUFFER_LEN,
        ServerEvent::Received(Err(_)) => state is Serving,
    }
}

/// The state and the action that follow an event: the listening socket is bound before the
/// datagram socket, to the same address, each client is served, and any failure of a socket stops
/// the server.
pub open spec fn after(state: ServerState, event: ServerEvent) -> (ServerState, ServerAction) {
    match event {
        ServerEvent::Bound(Ok(_)) => match state {
            ServerState::BindingTcp(addr) => (
                ServerState::BindingUdp,
                ServerAction::BindUdp(addr),
            ),
            _ => (ServerState::Serving, ServerAction::Wait),
        },
        ServerEvent::Bound(Err(error)) => (
            ServerState::Stopped,
            ServerAction::Stop(Error::Io(error)),
        ),
        ServerEvent::Accepted(Ok(peer)) => (
            ServerState::Serving,
            ServerAction::ServeStream(peer),
        ),
        ServerEvent::Accepted(Err(error)) => (
            ServerState::Stopped,
            ServerAction::Stop(Error::Io(error)),
        ),
        ServerEvent::Received(Ok((len, peer))) => (
            ServerState::Serving,
            ServerAction::ServeDatagram(len, peer),
        ),
        ServerEvent::Received(Err(error)) => (
            ServerState::Stopped,
            ServerAction::Stop(Error::Io(error)),
        ),
    }
}

/// A STUN server.
#[derive(Clone, Copy, Debug, PartialEq, Eq)]
pub struct Server {}

impl Server {
    /// A server that has not been started.
    pub fn new() -> (r: Self)
        ensures
            r == (Server {  }),
    {
        Server {  }
    }

    /// Starts the server on an address: the listening socket is the first to be bound.
    pub fn start(self, addr: SocketAddr) -> (r: (ServerState, ServerAction))
        ensures
            r == (ServerState::BindingTcp(addr), ServerAction::BindTcp(addr)),
    {
        (ServerState::BindingTcp(addr), ServerAction::BindTcp(addr))
    }

    /// Takes up an event of a started server.
    pub fn step(state: ServerState, event: ServerEvent) -> (r: (ServerState, ServerAction))
        requires
            can_happen(state, event),
        ensures
            r == after(state, event),
    {
        match event {
            ServerEvent::Bound(Ok(_)) => match state {
                ServerState::BindingTcp(addr) => (
                    ServerState::BindingUdp,
                    ServerAction::BindUdp(addr),
                ),
                _ => (ServerState::Serving, ServerAction::Wait),
            },
            ServerEvent::Accepted(Ok(peer)) => (
                ServerState::Serving,
                ServerAction::ServeStream(peer),
            ),
            ServerEvent::Received(Ok((len, peer))) => (
                ServerState::Serving,
                ServerAction::ServeDatagram(len, peer),
            ),
            ServerEvent::Bound(Err(error)) => (
                ServerState::Stopped,
                ServerAction::Stop(Error::Io(error)),
            ),
            ServerEvent::Accepted(Err(error)) => (
                ServerState::Stopped,
                ServerAction::Stop(Error::Io(error)),
            ),
            ServerEvent::Received(Err(error)) => (
                ServerState::Stopped,
                ServerAction::Stop(Error::Io(error)),
            ),
        }
    }

    /// Serves what a client sent: a stream is answered on the stream, with the address that the
    /// server has there, and a datagram is answered to its sender.
    pub fn serve(
        transport: Transport,
        buf: &[u8],
        peer_addr: SocketAddr,
        local_addr: Option<SocketAddr>,
    ) -> (r: Result<Reply, Error>)
        ensures
            r is Ok <==> crate::codec::is_sound(buf@),
            r matches Err(Error::MessageDecode(_)) <==> !crate::wire::is_framed(buf@),
            r matches Err(Error::MessageDecodeBroken) <==> crate::wire::is_framed(buf@)
                && !crate::codec::is_sound(buf@),
            r matches Ok(reply) ==> match transport {
                Transport::Tcp => reply.to is None && reply.bytes@ == answer_to(
                    buf@,
                    peer_addr@,
                    endpoint_of(local_addr),
                ),
                Transport::Udp => reply.to == Some(peer_addr) && reply.bytes@ == answer_to(
                    buf@,
                    peer_addr@,
                    None,
                ),
            },
    {
        match transport {
            Transport::Tcp => match Server::handle_message(buf, peer_addr, local_addr) {
                Ok(bytes) => Ok(Reply { to: None, bytes }),
                Err(error) => Err(error),
            },
            Transport::Udp => match Server::handle_message(buf, peer_addr, None) {
                Ok(bytes) => Ok(Reply { to: Some(peer_addr), bytes }),
                Err(error) => Err(error),
            },
        }
    }

    /// The answer to a message. A Binding request is answered with the address of the client, any
    /// other message that can be read with error 400.
    pub fn handle_message(
        buf: &[u8],
        peer_addr: SocketAddr,
        local_addr: Option<SocketAddr>,
    ) -> (r: Result<Vec<u8>, Error>)
        ensures
            r is Ok <==> crate::codec::is_sound(buf@),
            r matches Err(Error::MessageDecode(_)) <==> !crate::wire::is_framed(buf@),
            r matches Err(Error::MessageDecodeBroken) <==> crate::wire::is_framed(buf@)
                && !crate::codec::is_sound(buf@),
            r matches Ok(bytes) ==> bytes@ == answer_to(
                buf@,
                peer_addr@,
                endpoint_of(local_addr),
            ),
    {
        let peer_addr: SocketAddr = unmap_legacy_addr(peer_addr);
        let request: Request = match decode_request(buf) {
            Err(error) => {
                return Err(Error::MessageDecode(error));
            },
            Ok(None) => {
                return Err(Error::MessageDecodeBroken);
            },
            Ok(Some(request)) => request,
        };
        let response: Message = if request.method != BINDING {
            Server::bad_request(&request)
        } else {
            Server::binding_response(&request, peer_addr, local_addr)
        };
        proof {
            crate::addr::address_is_well_formed(peer_addr);
            answers_fit(
                request.transaction_id@,
                peer_addr@,
                endpoint_of(local_addr),
            );
        }
        match response.encode() {
            Ok(bytes) => Ok(bytes),
            Err(error) => Err(Error::MessageDecode(error)),
        }
    }

    /// The answer to a Binding request from a client at `peer_addr`.
    pub fn binding_response(
        req: &Request,
        peer_addr: SocketAddr,
        local_addr: Option<SocketAddr>,
    ) -> (r: Message)
        ensures
            r.class == MessageClass::SuccessResponse,
            r.method == req.method,
            r.transaction_id@ == req.transaction_id@,
            r.wire_attributes() == binding_attributes(
                req.transaction_id@,
                peer_addr@,
                endpoint_of(local_addr),
            ),
    {
        let mut attributes: Vec<Attribute> = Vec::new();
        attributes.push(Attribute::XorMappedAddress(peer_addr));
        if let Some(local_addr) = local_addr {
            attributes.push(Attribute::ResponseOrigin(local_addr));
        }
        attributes.push(Attribute::Software);
        let message: Message = Message {
            class: MessageClass::SuccessResponse,
            method: req.method,
            transaction_id: req.transaction_id,
            attributes,
        };
        assert(message.wire_attributes() =~= binding_attributes(
            req.transaction_id@,
            peer_addr@,
            endpoint_of(local_addr),
        ));
        message
    }

    /// The answer to a request that the server does not serve.
    pub fn bad_request(req: &Request) -> (r: Message)
        ensures
            r.class == MessageClass::ErrorResponse,
            r.method == req.method,
            r.transaction_id@ == req.transaction_id@,
            r.wire_attributes() == refusal_attributes(),
    {
        let mut attributes: Vec<Attribute> = Vec::new();
        attributes.push(Attribute::BadRequest);
        attributes.push(Attribute::Software);
        let message: Message = Message {
            class: MessageClass::ErrorResponse,
            method: req.method,
            transaction_id: req.transaction_id,
            attributes,
        };
        assert(message.wire_attributes() =~= refusal_attributes());
        message
    }
}

/// The attributes of each answer fit into one message.
pub proof fn answers_fit(transaction_id: Seq<u8>, client: Endpoint, local: Option<Endpoint>)
    requires
        client.wf(),
        local is Some ==> local->0.wf(),
    ensures
        crate::wire::attributes_bytes(binding_attributes(transaction_id, client, local)).len()
            <= 60,
        crate::wire::attributes_bytes(refusal_attributes()).len() == 32,
{
    crate::codec::description_is_short();
    crate::codec::bad_request_is_short();
    let b = binding_attributes(transaction_id, client, local);
    let r = refusal_attributes();
    assert(r.drop_last() =~= seq![r[0]]);
    assert(r.drop_last().drop_last() =~= Seq::empty());
    reveal_with_fuel(crate::wire::attributes_bytes, 4);
    match local {
        Some(origin) => {
            assert(b.drop_last() =~= seq![b[0], b[1]]);
            assert(b.drop_last().drop_last() =~= seq![b[0]]);
            assert(b.drop_last().drop_last().drop_last() =~= Seq::empty());
        },
        None => {
            assert(b.drop_last() =~= seq![b[0]]);
            assert(b.drop_last().drop_last() =~= Seq::empty());
        },
    }
}

/// The values in each answer are ones that their types allow.
pub proof fn answers_are_readable(
    transaction_id: Seq<u8>,
    client: Endpoint,
    local: Option<Endpoint>,
)
    requires
        client.wf(),
        local is Some ==> local->0.wf(),
    ensures
        crate::wire::are_readable(binding_attributes(transaction_id, client, local)),
        crate::wire::are_readable(refusal_attributes()),
{
    let hidden = Endpoint {
        octets: crate::wire::xor_octets(client.octets, transaction_id),
        port: crate::wire::xor_port(client.port),
        ..client
    };
    crate::wire::reading_address_undoes_writing(hidden);
    if let Some(origin) = local {
        crate::wire::reading_address_undoes_writing(origin);
    }
    crate::codec::answer_texts_can_be_read();
}

/// The attributes of the answer to a message.
pub open spec fn answer_attributes(
    message: Seq<u8>,
    peer: Endpoint,
    local: Option<Endpoint>,
) -> Seq<(u16, Seq<u8>)> {
    if crate::wire::method_of(message) == BINDING {
        binding_attributes(crate::wire::transaction_of(message), peer.unmapped(), local)
    } else {
        refusal_attributes()
    }
}

/// Each answer can be read by the rules that the server reads requests by, and carries the
/// transaction ID of the request.
pub proof fn answers_can_be_read(message: Seq<u8>, peer: Endpoint, local: Option<Endpoint>)
    requires
        crate::wire::has_header(message),
        peer.wf(),
        local is Some ==> local->0.wf(),
    ensures
        crate::codec::is_sound(answer_to(message, peer, local)),
        crate::wire::transaction_of(answer_to(message, peer, local))
            == crate::wire::transaction_of(message),
        crate::wire::attributes_of(answer_to(message, peer, local)) == answer_attributes(
            message,
            peer,
            local,
        ),
{
    let id = crate::wire::transaction_of(message);
    let method = crate::wire::method_of(message);
    let class = if method == BINDING {
        MessageClass::SuccessResponse.number()
    } else {
        MessageClass::ErrorResponse.number()
    };
    crate::addr::unmapping_keeps_port_and_settles(peer);
    crate::wire::method_has_twelve_bits(message);
    answers_fit(id, peer.unmapped(), local);
    answers_are_readable(id, peer.unmapped(), local);
    crate::wire::reading_message_undoes_writing(
        class,
        method,
        id,
        answer_attributes(message, peer, local),
    );
}

/// Whether the first attribute is an XOR-MAPPED-ADDRESS from which the magic cookie and the
/// transaction ID give the octets and the port of an endpoint.
pub open spec fn tell_address(
    attributes: Seq<(u16, Seq<u8>)>,
    transaction_id: Seq<u8>,
    client: Endpoint,
) -> bool {
    let (code, value) = attributes[0];
    &&& attributes.len() > 0
    &&& code == XOR_MAPPED_ADDRESS
    &&& crate::wire::xor_octets(crate::wire::octets_in(value), transaction_id) == client.octets
    &&& crate::wire::xor_port(crate::wire::port_in(value)) == client.port
}

proof fn binding_attributes_tell_address(
    transaction_id: Seq<u8>,
    client: Endpoint,
    local: Option<Endpoint>,
)
    requires
        client.wf(),
    ensures
        tell_address(
            binding_attributes(transaction_id, client, local),
            transaction_id,
            client,
        ),
{
    let hidden = Endpoint {
        octets: crate::wire::xor_octets(client.octets, transaction_id),
        port: crate::wire::xor_port(client.port),
        ..client
    };
    crate::wire::reading_address_undoes_writing(hidden);
    crate::wire::xor_undoes_xor(client.octets, client.port, transaction_id);
}

/// A client that sends a Binding request learns its address: the first attribute of the answer is
/// an XOR-MAPPED-ADDRESS from which the magic cookie and the transaction ID give the octets and
/// the port that the server saw, an IPv4 address where they were mapped into IPv6.
pub proof fn client_learns_its_address(message: Seq<u8>, peer: Endpoint, local: Option<Endpoint>)
    requires
        crate::wire::has_header(message),
        crate::wire::method_of(message) == BINDING,
        peer.wf(),
        local is Some ==> local->0.wf(),
    ensures
        tell_address(
            crate::wire::attributes_of(answer_to(message, peer, local)),
            crate::wire::transaction_of(answer_to(message, peer, local)),
            peer.unmapped(),
        ),
        peer.unmapped().port == peer.port,
{
    answers_can_be_read(message, peer, local);
    crate::addr::unmapping_keeps_port_and_settles(peer);
    binding_attributes_tell_address(
        crate::wire::transaction_of(message),
        peer.unmapped(),
        local,
    );
}

/// The answer to a Binding request is a success response for the Binding method.
pub proof fn binding_is_answered_with_success(
    message: Seq<u8>,
    peer: Endpoint,
    local: Option<Endpoint>,
)
    requires
        crate::wire::method_of(message) == BINDING,
    ensures
        crate::wire::class_of(answer_to(message, peer, local))
            == MessageClass::SuccessResponse.number(),
        crate::wire::method_of(answer_to(message, peer, local)) == BINDING,
{
    let id = crate::wire::transaction_of(message);
    crate::wire::reading_header_undoes_writing(
        MessageClass::SuccessResponse.number(),
        BINDING as int,
        id,
        binding_attributes(id, peer.unmapped(), local),
    );
}

/// Whether attributes hold an origin if and only if there is one to tell.
pub open spec fn tell_origin(attributes: Seq<(u16, Seq<u8>)>, local: Option<Endpoint>) -> bool {
    match local {
        Some(origin) => attributes.contains(response_origin(origin)),
        None => forall|i: int|
            0 <= i < attributes.len() ==> (#[trigger] attributes[i]).0 != RESPONSE_ORIGIN,
    }
}

proof fn binding_attributes_tell_origin(
    transaction_id: Seq<u8>,
    client: Endpoint,
    local: Option<Endpoint>,
)
    ensures
        tell_origin(binding_attributes(transaction_id, client, local), local),
{
    if let Some(origin) = local {
        assert(binding_attributes(transaction_id, client, local)[1] == response_origin(origin));
    }
}

/// The answer to a Binding request says where it comes from if and only if the server knows, and
/// the address can be read from what it says.
pub proof fn origin_is_told_where_known(message: Seq<u8>, peer: Endpoint, local: Option<Endpoint>)
    requires
        crate::wire::has_header(message),
        crate::wire::method_of(message) == BINDING,
        peer.wf(),
        local is Some ==> local->0.wf(),
    ensures
        tell_origin(crate::wire::attributes_of(answer_to(message, peer, local)), local),
        local matches Some(origin) ==> crate::wire::octets_in(response_origin(origin).1)
            == origin.octets && crate::wire::port_in(response_origin(origin).1) == origin.port,
{
    let id = crate::wire::transaction_of(message);
    answers_can_be_read(message, peer, local);
    binding_attributes_tell_origin(id, peer.unmapped(), local);
    if let Some(origin) = local {
        crate::wire::reading_address_undoes_writing(origin);
    }
}

/// A request for another method is answered with an error response. The answer names the method of
/// the request where that is below sixteen.
pub proof fn other_methods_are_answered_with_error(
    message: Seq<u8>,
    peer: Endpoint,
    local: Option<Endpoint>,
)
    requires
        crate::wire::method_of(message) != BINDING,
    ensures
        crate::wire::class_of(answer_to(message, peer, local))
            == MessageClass::ErrorResponse.number(),
        crate::wire::method_of(message) < 16 ==> crate::wire::method_of(
            answer_to(message, peer, local),
        ) == crate::wire::method_of(message),
{
    crate::wire::method_has_twelve_bits(message);
    crate::wire::reading_header_undoes_writing(
        MessageClass::ErrorResponse.number(),
        crate::wire::method_of(message),
        crate::wire::transaction_of(message),
        refusal_attributes(),
    );
}

/// Whether attributes are an ERROR-CODE with error 400 and the description of the server.
pub open spec fn tell_bad_request(attributes: Seq<(u16, Seq<u8>)>) -> bool {
    &&& attributes.len() == 2
    &&& attributes[0].0 == ERROR_CODE
    &&& attributes[0].1[2] * 100 + attributes[0].1[3] == 400
    &&& attributes[1] == software()
}

proof fn refusal_tells_bad_request()
    ensures
        tell_bad_request(refusal_attributes()),
{
}

/// A request for another method is answered with error 400 and nothing else but the description
/// of the server.
pub proof fn other_methods_are_refused(message: Seq<u8>, peer: Endpoint, local: Option<Endpoint>)
    requires
        crate::wire::has_header(message),
        crate::wire::method_of(message) != BINDING,
        peer.wf(),
        local is Some ==> local->0.wf(),
    ensures
        tell_bad_request(crate::wire::attributes_of(answer_to(message, peer, local))),
{
    answers_can_be_read(message, peer, local);
    refusal_tells_bad_request();
}

/// Messages with the same method and transaction ID get the same answer, whatever their class and
/// their attributes: a request that is sent again is answered again in the same way.
pub proof fn answer_depends_on_method_and_transaction(
    first: Seq<u8>,
    second: Seq<u8>,
    peer: Endpoint,
    local: Option<Endpoint>,
)
    requires
        crate::wire::method_of(first) == crate::wire::method_of(second),
        crate::wire::transaction_of(first) == crate::wire::transaction_of(second),
    ensures
        answer_to(first, peer, local) == answer_to(second, peer, local),
{
}

/// A client that reaches the server over IPv4 gets the same answer whether the socket reports its
/// address as it is or mapped into IPv6.
pub proof fn answer_ignores_address_mapping(
    message: Seq<u8>,
    peer: Endpoint,
    flowinfo: u32,
    scope_id: u32,
    local: Option<Endpoint>,
)
    requires
        peer.wf(),
        peer.octets.len() == 4,
    ensures
        answer_to(message, peer.mapped(flowinfo, scope_id), local) == answer_to(
            message,
            peer,
            local,
        ),
{
    crate::addr::unmapping_undoes_mapping(peer, flowinfo, scope_id);
}

/// A request without attributes is always answered.
pub proof fn bare_request_is_sound(method: int, transaction_id: Seq<u8>)
    requires
        0 <= method < 0x1000,
        transaction_id.len() == 12,
    ensures
        crate::codec::is_sound(
            crate::wire::message_bytes(
                MessageClass::Request.number(),
                method,
                transaction_id,
                Seq::empty(),
            ),
        ),
{
    crate::wire::reading_message_undoes_writing(
        MessageClass::Request.number(),
        method,
        transaction_id,
        Seq::empty(),
    );
}

/// The states that a server goes through.
pub open spec fn run(state: ServerState, events: Seq<ServerEvent>) -> ServerState
    decreases events.len(),
{
    if events.len() == 0 {
        state
    } else {
        after(run(state, events.drop_last()), events.last()).0
    }
}

/// Whether events can happen one after the other, from a state on.
pub open spec fn is_run(state: ServerState, events: Seq<ServerEvent>) -> bool
    decreases events.len(),
{
    events.len() > 0 ==> is_run(state, events.drop_last()) && can_happen(
        run(state, events.drop_last()),
        events.last(),
    )
}

/// Whether no socket failed in an event.
pub open spec fn is_success(event: ServerEvent) -> bool {
    match event {
        ServerEvent::Bound(r) => r is Ok,
        ServerEvent::Accepted(r) => r is Ok,
        ServerEvent::Received(r) => r is Ok,
    }
}

/// A started server binds its two sockets and then serves as long as no socket fails.
pub proof fn server_serves_while_sockets_work(addr: SocketAddr, events: Seq<ServerEvent>)
    requires
        is_run(ServerState::BindingTcp(addr), events),
        forall|i: int| 0 <= i < events.len() ==> is_success(#[trigger] events[i]),
    ensures
        run(ServerState::BindingTcp(addr), events) == (if events.len() == 0 {
            ServerState::BindingTcp(addr)
        } else if events.len() == 1 {
            ServerState::BindingUdp
        } else {
            ServerState::Serving
        }),
    decreases events.len(),
{
    if events.len() > 0 {
        let before = events.drop_last();
        assert forall|i: int| 0 <= i < before.len() implies is_success(#[trigger] before[i]) by {
            assert(events[i] == before[i]);
        }
        server_serves_while_sockets_work(addr, before);
        assert(is_success(events[events.len() - 1]));
    }
}

/// Both sockets are bound to the address that the server was started on: whatever binding action
/// comes up in a run, it is for that address. The datagram socket is bound only where the
/// listening socket was bound just before.
pub proof fn sockets_share_one_address(addr: SocketAddr, events: Seq<ServerEvent>)
    requires
        events.len() > 0,
        is_run(ServerState::BindingTcp(addr), events),
    ensures
        ({
            let action = after(
                run(ServerState::BindingTcp(addr), events.drop_last()),
                events.last(),
            ).1;
            &&& !(action is BindTcp)
            &&& action is BindUdp <==> events.len() == 1 && is_success(events[0])
            &&& action is BindUdp ==> action == ServerAction::BindUdp(addr)
        }),
{
    binding_comes_first(addr, events.drop_last());
}

proof fn binding_comes_first(addr: SocketAddr, events: Seq<ServerEvent>)
    requires
        is_run(ServerState::BindingTcp(addr), events),
    ensures
        run(ServerState::BindingTcp(addr), events) is BindingTcp ==> events.len() == 0,
        events.len() == 0 ==> run(ServerState::BindingTcp(addr), events)
            == ServerState::BindingTcp(addr),
    decreases events.len(),
{
    if events.len() > 0 {
        binding_comes_first(addr, events.drop_last());
    }
}

/// A socket that fails stops the server, with the error of the socket.
pub proof fn failing_socket_stops_server(state: ServerState, event: ServerEvent)
    requires
        can_happen(state, event),
    ensures
        after(state, event).0 is Stopped <==> !is_success(event),
        after(state, event).0 is Stopped <==> after(state, event).1 is Stop,
        after(state, event).1 matches ServerAction::Stop(error) ==> error is Io,
{
}

/// A Binding request, whatever its class, is answered with these bytes: a success response for the
/// Binding method, with the transaction ID of the request. It tells the octets and the port of the
/// client, hidden by the magic cookie and the transaction ID: the last four octets of a client in
/// `::ffff:0:0/96`, and of any other client the very octets that it has. Where the server knows
/// its own address, that follows as it is. The last attribute is the description of the server.
#[verifier::rlimit(50)]
pub proof fn binding_answer_in_bytes(message: Seq<u8>, peer: Endpoint, local: Option<Endpoint>)
    requires
        message.len() >= 20,
        message[0] == 0 || message[0] == 1,
        message[1] == 0x01 || message[1] == 0x11,
        peer.octets.len() == 4 || peer.octets.len() == 16,
        local is Some ==> local->0.octets.len() == 4 || local->0.octets.len() == 16,
    ensures
        ({
            let id = message.subrange(8, 20);
            let key = seq![0x21u8, 0x12u8, 0xa4u8, 0x42u8] + id;
            let client = if peer.octets.len() == 16 && peer.octets.subrange(0, 12) == seq![
                0u8, 0u8, 0u8, 0u8, 0u8, 0u8, 0u8, 0u8, 0u8, 0u8, 0xffu8, 0xffu8,
            ] {
                peer.octets.subrange(12, 16)
            } else {
                peer.octets
            };
            let hidden = peer.port ^ 0x2112;
            let told = seq![
                0u8,
                0x20u8,
                0u8,
                (client.len() + 4) as u8,
                0u8,
                if client.len() == 4 {
                    1u8
                } else {
                    2u8
                },
                (hidden / 256) as u8,
                (hidden % 256) as u8,
            ] + Seq::new(client.len(), |i: int| client[i] ^ key[i]);
            let origin = match local {
                Some(o) => seq![
                    0x80u8,
                    0x2bu8,
                    0u8,
                    (o.octets.len() + 4) as u8,
                    0u8,
                    if o.octets.len() == 4 {
                        1u8
                    } else {
                        2u8
                    },
                    (o.port / 256) as u8,
                    (o.port % 256) as u8,
                ] + o.octets,
                None => Seq::empty(),
            };
            let description = seq![
                0x80u8, 0x22u8, 0u8, 6u8, 0x6du8, 0x65u8, 0x72u8, 0x64u8, 0x69u8, 0x61u8, 0u8, 0u8,
            ];
            answer_to(message, peer, local) == seq![
                0x01u8,
                0x01u8,
                0u8,
                (told.len() + origin.len() + 12) as u8,
                0x21u8,
                0x12u8,
                0xa4u8,
                0x42u8,
            ] + id + (told + origin + description)
        }),
{
    let id = message.subrange(8, 20);
    let client = peer.unmapped();
    client_in_octets(peer);
    let t = message[0] * 256 + message[1];
    assert(t == 1 || t == 17 || t == 257 || t == 273);
    assert(crate::wire::method_of(message) == 1);
    let first = seq![mapped_address(client, id)];
    told_in_bytes(client, id);
    match local {
        Some(o) => {
            let second = first.push(response_origin(o));
            origin_in_bytes(first, o);
            description_comes_last(second);
            assert(binding_attributes(id, client, local) =~= second.push(software()));
        },
        None => {
            description_comes_last(first);
            assert(binding_attributes(id, client, local) =~= first.push(software()));
        },
    }
    header_comes_first(id, binding_attributes(id, client, local));
    if local is None {
        let told = crate::wire::attributes_bytes(first);
        assert(told + Seq::<u8>::empty() =~= told);
    }
}

/// The octets of the client that an endpoint stands for.
proof fn client_in_octets(peer: Endpoint)
    ensures
        peer.unmapped().octets == (if peer.octets.len() == 16 && peer.octets.subrange(0, 12)
            == seq![0u8, 0u8, 0u8, 0u8, 0u8, 0u8, 0u8, 0u8, 0u8, 0u8, 0xffu8, 0xffu8] {
            peer.octets.subrange(12, 16)
        } else {
            peer.octets
        }),
        peer.unmapped().port == peer.port,
{
    let prefix = seq![0u8, 0u8, 0u8, 0u8, 0u8, 0u8, 0u8, 0u8, 0u8, 0u8, 0xffu8, 0xffu8];
    if peer.octets.len() == 16 {
        let front = peer.octets.subrange(0, 12);
        assert(forall|i: int| 0 <= i < 12 ==> #[trigger] front[i] == peer.octets[i]);
        if peer.is_mapped() {
            assert(front =~= prefix);
        } else if front == prefix {
            assert forall|i: int| 0 <= i < 10 implies peer.octets[i] == 0 by {
                assert(front[i] == prefix[i]);
            }
            assert(front[10] == prefix[10] && front[11] == prefix[11]);
        }
    }
}

/// The attribute that tells the client where it is.
proof fn told_in_bytes(client: Endpoint, id: Seq<u8>)
    requires
        id.len() == 12,
        client.octets.len() == 4 || client.octets.len() == 16,
    ensures
        ({
            let key = seq![0x21u8, 0x12u8, 0xa4u8, 0x42u8] + id;
            let hidden = client.port ^ 0x2112;
            crate::wire::attributes_bytes(seq![mapped_address(client, id)]) == seq![
                0u8,
                0x20u8,
                0u8,
                (client.octets.len() + 4) as u8,
                0u8,
                if client.octets.len() == 4 {
                    1u8
                } else {
                    2u8
                },
                (hidden / 256) as u8,
                (hidden % 256) as u8,
            ] + Seq::new(client.octets.len(), |i: int| client.octets[i] ^ key[i])
        }),
{
    let key = seq![0x21u8, 0x12u8, 0xa4u8, 0x42u8] + id;
    let hidden = client.port ^ 0x2112;
    let octets = Seq::new(client.octets.len(), |i: int| client.octets[i] ^ key[i]);
    assert(key =~= crate::wire::cookie() + id);
    assert(crate::wire::xor_octets(client.octets, id) =~= octets);
    let none = Seq::<(u16, Seq<u8>)>::empty();
    let (code, value) = mapped_address(client, id);
    crate::wire::attribute_is_written_last(none, code, value, Seq::empty());
    assert(none.push((code, value)) =~= seq![mapped_address(client, id)]);
    assert(crate::wire::attributes_bytes(seq![mapped_address(client, id)]) =~= seq![
        0u8,
        0x20u8,
        0u8,
        (client.octets.len() + 4) as u8,
        0u8,
        if client.octets.len() == 4 {
            1u8
        } else {
            2u8
        },
        (hidden / 256) as u8,
        (hidden % 256) as u8,
    ] + octets);
}

/// The attribute that tells where the answer comes from, after others.
proof fn origin_in_bytes(others: Seq<(u16, Seq<u8>)>, o: Endpoint)
    requires
        o.octets.len() == 4 || o.octets.len() == 16,
    ensures
        crate::wire::attributes_bytes(others.push(response_origin(o)))
            == crate::wire::attributes_bytes(others) + (seq![
            0x80u8,
            0x2bu8,
            0u8,
            (o.octets.len() + 4) as u8,
            0u8,
            if o.octets.len() == 4 {
                1u8
            } else {
                2u8
            },
            (o.port / 256) as u8,
            (o.port % 256) as u8,
        ] + o.octets),
{
    let (code, value) = response_origin(o);
    crate::wire::attribute_is_written_last(others, code, value, Seq::empty());
    assert(crate::wire::attributes_bytes(others.push(response_origin(o)))
        =~= crate::wire::attributes_bytes(others) + (seq![
        0x80u8,
        0x2bu8,
        0u8,
        (o.octets.len() + 4) as u8,
        0u8,
        if o.octets.len() == 4 {
            1u8
        } else {
            2u8
        },
        (o.port / 256) as u8,
        (o.port % 256) as u8,
    ] + o.octets));
}

/// The attribute that describes the server, after others.
proof fn description_comes_last(others: Seq<(u16, Seq<u8>)>)
    ensures
        crate::wire::attributes_bytes(others.push(software())) == crate::wire::attributes_bytes(
            others,
        ) + seq![
            0x80u8, 0x22u8, 0u8, 6u8, 0x6du8, 0x65u8, 0x72u8, 0x64u8, 0x69u8, 0x61u8, 0u8, 0u8,
        ],
{
    crate::codec::description_in_bytes();
    let (code, value) = software();
    crate::wire::attribute_is_written_last(others, code, value, seq![0u8, 0u8]);
    assert(crate::wire::attributes_bytes(others.push(software()))
        =~= crate::wire::attributes_bytes(others) + seq![
        0x80u8, 0x22u8, 0u8, 6u8, 0x6du8, 0x65u8, 0x72u8, 0x64u8, 0x69u8, 0x61u8, 0u8, 0u8,
    ]);
}

/// The header of an answer to a Binding request, before its attributes.
proof fn header_comes_first(id: Seq<u8>, attributes: Seq<(u16, Seq<u8>)>)
    requires
        crate::wire::attributes_bytes(attributes).len() < 256,
    ensures
        crate::wire::message_bytes(2, 1, id, attributes) == seq![
            0x01u8,
            0x01u8,
            0u8,
            crate::wire::attributes_bytes(attributes).len() as u8,
            0x21u8,
            0x12u8,
            0xa4u8,
            0x42u8,
        ] + id + crate::wire::attributes_bytes(attributes),
{
    let body = crate::wire::attributes_bytes(attributes);
    assert(crate::wire::type_number(2, 1) == 257);
    assert(crate::wire::message_bytes(2, 1, id, attributes) =~= seq![
        0x01u8,
        0x01u8,
        0u8,
        body.len() as u8,
        0x21u8,
        0x12u8,
        0xa4u8,
        0x42u8,
    ] + id + body);
}

/// Any other message is answered with these bytes: an error response with the transaction ID of
/// the message, error 400, and the description of the server. The low four bits of the method come
/// back where they were, and the next three at the place where a reader takes them for others.
#[verifier::rlimit(50)]
pub proof fn refusal_in_bytes(message: Seq<u8>, peer: Endpoint, local: Option<Endpoint>)
    requires
        message.len() >= 20,
        message[0] < 0x40,
        message[0] > 1 || (message[1] != 0x01 && message[1] != 0x11),
    ensures
        answer_to(message, peer, local) == seq![
            (1 + 2 * (message[1] / 32)) as u8,
            (16 + message[1] % 16) as u8,
            0u8,
            32u8,
            0x21u8,
            0x12u8,
            0xa4u8,
            0x42u8,
        ] + message.subrange(8, 20) + seq![
            0u8, 0x09u8, 0u8, 15u8, 0u8, 0u8, 4u8, 0u8,
            0x42u8, 0x61u8, 0x64u8, 0x20u8, 0x52u8, 0x65u8, 0x71u8, 0x75u8,
            0x65u8, 0x73u8, 0x74u8, 0u8, 0x80u8, 0x22u8, 0u8, 6u8,
            0x6du8, 0x65u8, 0x72u8, 0x64u8, 0x69u8, 0x61u8, 0u8, 0u8,
        ],
{
    let id = message.subrange(8, 20);
    let method = crate::wire::method_of(message);
    refusal_type(message);
    refusal_body_in_bytes();
    let body = crate::wire::attributes_bytes(refusal_attributes());
    refusal_header_comes_first(
        method,
        (1 + 2 * (message[1] / 32)) as u8,
        (16 + message[1] % 16) as u8,
        id,
        body,
    );
}

/// The bits of the method in the first two bytes of a refusal.
proof fn refusal_type(message: Seq<u8>)
    requires
        message[0] < 0x40,
        message[0] > 1 || (message[1] != 0x01 && message[1] != 0x11),
    ensures
        ({
            let method = crate::wire::method_of(message);
            let number = crate::wire::type_number(3, method);
            &&& method != 1
            &&& number / 256 == 1 + 2 * (message[1] / 32)
            &&& number % 256 == 16 + message[1] % 16
        }),
{
    let t = message[0] * 256 + message[1];
    let method = crate::wire::method_of(message);
    assert(t % 16 == message[1] % 16);
    assert((t / 32) % 8 == message[1] / 32);
    assert((t / 512) % 32 == message[0] / 2);
    assert(method == message[1] % 16 + message[1] / 32 * 16 + message[0] / 2 * 128);
    assert(method % 16 == message[1] % 16);
    assert((method / 16) % 8 == message[1] / 32);
    if method == 1 {
        assert(message[0] / 2 == 0);
        assert(message[1] / 32 == 0);
        assert(message[1] % 16 == 1);
    }
    assert(crate::wire::type_number(3, method) == message[1] % 16 + 272 + message[1] / 32 * 512);
}

/// The attributes of a refusal.
proof fn refusal_body_in_bytes()
    ensures
        crate::wire::attributes_bytes(refusal_attributes()) == seq![
            0u8, 0x09u8, 0u8, 15u8, 0u8, 0u8, 4u8, 0u8,
            0x42u8, 0x61u8, 0x64u8, 0x20u8, 0x52u8, 0x65u8, 0x71u8, 0x75u8,
            0x65u8, 0x73u8, 0x74u8, 0u8, 0x80u8, 0x22u8, 0u8, 6u8,
            0x6du8, 0x65u8, 0x72u8, 0x64u8, 0x69u8, 0x61u8, 0u8, 0u8,
        ],
{
    crate::codec::bad_request_in_bytes();
    let none = Seq::<(u16, Seq<u8>)>::empty();
    let first = none.push((ERROR_CODE, crate::codec::bad_request_value()));
    crate::wire::attribute_is_written_last(
        none,
        ERROR_CODE,
        crate::codec::bad_request_value(),
        seq![0u8],
    );
    description_comes_last(first);
    assert(refusal_attributes() =~= first.push(software()));
    assert(crate::wire::attributes_bytes(refusal_attributes()) =~= seq![
        0u8, 0x09u8, 0u8, 15u8, 0u8, 0u8, 4u8, 0u8,
        0x42u8, 0x61u8, 0x64u8, 0x20u8, 0x52u8, 0x65u8, 0x71u8, 0x75u8,
        0x65u8, 0x73u8, 0x74u8, 0u8, 0x80u8, 0x22u8, 0u8, 6u8,
        0x6du8, 0x65u8, 0x72u8, 0x64u8, 0x69u8, 0x61u8, 0u8, 0u8,
    ]);
}

/// The header of a refusal, before its attributes.
proof fn refusal_header_comes_first(method: int, high: u8, low: u8, id: Seq<u8>, body: Seq<u8>)
    requires
        crate::wire::type_number(3, method) / 256 == high,
        crate::wire::type_number(3, method) % 256 == low,
        body == crate::wire::attributes_bytes(refusal_attributes()),
        body.len() == 32,
    ensures
        crate::wire::message_bytes(3, method, id, refusal_attributes()) == seq![
            high,
            low,
            0u8,
            32u8,
            0x21u8,
            0x12u8,
            0xa4u8,
            0x42u8,
        ] + id + body,
{
    assert(crate::wire::message_bytes(3, method, id, refusal_attributes()) =~= seq![
        high,
        low,
        0u8,
        32u8,
        0x21u8,
        0x12u8,
        0xa4u8,
        0x42u8,
    ] + id + body);
}

/// A client whose address lies outside `::ffff:0:0/96`, in whatever octet it differs, gets its own
/// octets and its own port back from the answer, by combining them with the magic cookie and the
/// transaction ID once more.
pub proof fn client_recovers_its_own_octets(
    message: Seq<u8>,
    peer: Endpoint,
    local: Option<Endpoint>,
    differs: int,
    i: int,
)
    requires
        message.len() >= 20,
        message[0] == 0 || message[0] == 1,
        message[1] == 0x01 || message[1] == 0x11,
        peer.octets.len() == 4 || (peer.octets.len() == 16 && 0 <= differs < 12
            && peer.octets[differs] != (if differs < 10 {
            0u8
        } else {
            0xffu8
        })),
        local is Some ==> local->0.octets.len() == 4 || local->0.octets.len() == 16,
        0 <= i < peer.octets.len(),
    ensures
        ({
            let answer = answer_to(message, peer, local);
            let key = seq![0x21u8, 0x12u8, 0xa4u8, 0x42u8] + message.subrange(8, 20);
            &&& answer[23] == peer.octets.len() + 4
            &&& answer[25] == (if peer.octets.len() == 4 {
                1u8
            } else {
                2u8
            })
            &&& answer[28 + i] ^ key[i] == peer.octets[i]
            &&& ((answer[26] * 256 + answer[27]) as u16) ^ 0x2112 == peer.port
        }),
{
    let answer = answer_to(message, peer, local);
    let key = seq![0x21u8, 0x12u8, 0xa4u8, 0x42u8] + message.subrange(8, 20);
    let prefix = seq![0u8, 0u8, 0u8, 0u8, 0u8, 0u8, 0u8, 0u8, 0u8, 0u8, 0xffu8, 0xffu8];
    if peer.octets.len() == 16 && peer.octets.subrange(0, 12) == prefix {
        assert(peer.octets.subrange(0, 12)[differs] == peer.octets[differs]);
        assert(prefix[differs] == (if differs < 10 {
            0u8
        } else {
            0xffu8
        }));
    }
    binding_answer_in_bytes(message, peer, local);
    let hidden = peer.port ^ 0x2112;
    assert(answer[23] == (peer.octets.len() + 4) as u8);
    assert(answer[26] == (hidden / 256) as u8);
    assert(answer[27] == (hidden % 256) as u8);
    assert((answer[26] * 256 + answer[27]) == hidden);
    let port = peer.port;
    assert((port ^ 0x2112) ^ 0x2112 == port) by (bit_vector);
    assert(answer[28 + i] == peer.octets[i] ^ key[i]);
    let a = peer.octets[i];
    let b = key[i];
    assert((a ^ b) ^ b == a) by (bit_vector);
}

/// The address that the server has is told as it is, if it has one.
pub proof fn own_address_is_told_as_it_is(addr: SocketAddr)
    ensures
        endpoint_of(Some(addr)) == Some(addr@),
        endpoint_of(None) is None,
{
}

/// Each client is served with what it sent: a datagram of whatever length is served in that length,
/// to the client that sent it, and a stream to the client that opened it. The server then waits on.
pub proof fn clients_are_served_with_what_they_sent(len: usize, peer: SocketAddr)
    requires
        len <= 4096,
    ensures
        can_happen(ServerState::Serving, ServerEvent::Received(Ok((len, peer)))),
        after(ServerState::Serving, ServerEvent::Received(Ok((len, peer)))) == (
            ServerState::Serving,
            ServerAction::ServeDatagram(len, peer),
        ),
        can_happen(ServerState::Serving, ServerEvent::Accepted(Ok(peer))),
        after(ServerState::Serving, ServerEvent::Accepted(Ok(peer))) == (
            ServerState::Serving,
            ServerAction::ServeStream(peer),
        ),
{
}

/// The two sockets are bound one after the other to the address that the server is started on, and
/// then it waits for clients.
pub proof fn sockets_are_bound_in_turn(addr: SocketAddr)
    ensures
        can_happen(ServerState::BindingTcp(addr), ServerEvent::Bound(Ok(()))),
        after(ServerState::BindingTcp(addr), ServerEvent::Bound(Ok(()))) == (
            ServerState::BindingUdp,
            ServerAction::BindUdp(addr),
        ),
        can_happen(ServerState::BindingUdp, ServerEvent::Bound(Ok(()))),
        after(ServerState::BindingUdp, ServerEvent::Bound(Ok(()))) == (
            ServerState::Serving,
            ServerAction::Wait,
        ),
{
}

/// Whatever socket fails, in binding, accepting or receiving, the server stops with that very
/// error.
pub proof fn server_stops_with_the_error_of_the_socket(addr: SocketAddr, error: IoError)
    ensures
        can_happen(ServerState::BindingTcp(addr), ServerEvent::Bound(Err(error))),
        can_happen(ServerState::BindingUdp, ServerEvent::Bound(Err(error))),
        can_happen(ServerState::Serving, ServerEvent::Accepted(Err(error))),
        can_happen(ServerState::Serving, ServerEvent::Received(Err(error))),
        after(ServerState::BindingTcp(addr), ServerEvent::Bound(Err(error))) == (
            ServerState::Stopped,
            ServerAction::Stop(Error::Io(error)),
        ),
        after(ServerState::BindingUdp, ServerEvent::Bound(Err(error))) == (
            ServerState::Stopped,
            ServerAction::Stop(Error::Io(error)),
        ),
        after(ServerState::Serving, ServerEvent::Accepted(Err(error))) == (
            ServerState::Stopped,
            ServerAction::Stop(Error::Io(error)),
        ),
        after(ServerState::Serving, ServerEvent::Received(Err(error))) == (
            ServerState::Stopped,
            ServerAction::Stop(Error::Io(error)),
        ),
{
}

} // verus!
