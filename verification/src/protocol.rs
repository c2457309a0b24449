use vstd::prelude::*;

verus! {

/// A message exchanged between the parent and the child process. Its
/// first byte on the wire is the message's number.
#[allow(non_camel_case_types)]
#[derive(Debug, Clone, Copy, PartialEq, Eq, Structural)]
pub enum Message {
    QUIT,
    PARENT_RENDER,
    CHILD_RENDER,
}

/// The number of a message on the wire.
pub open spec fn message_number(m: Message) -> u8 {
    match m {
        Message::QUIT => 0,
        Message::PARENT_RENDER => 1,
        Message::CHILD_RENDER => 2,
    }
}

/// The message that a number stands for, if any.
pub open spec fn message_from_number(n: u8) -> Option<Message> {
    if n == 0 {
        Some(Message::QUIT)
    } else if n == 1 {
        Some(Message::PARENT_RENDER)
    } else if n == 2 {
        Some(Message::CHILD_RENDER)
    } else {
        None
    }
}

impl Message {
    /// The message with number `n`, or `None` when no message has it.
    pub fn from_u8(n: u8) -> (m: Option<Message>)
        ensures
            m == message_from_number(n),
            m is Some <==> n < 3,
    {
        if n == 0 {
            Some(Message::QUIT)
        } else if n == 1 {
            Some(Message::PARENT_RENDER)
        } else if n == 2 {
            Some(Message::CHILD_RENDER)
        } else {
            None
        }
    }

    /// The number of this message on the wire.
    pub fn to_u8(&self) -> (n: u8)
        ensures
            n == message_number(*self),
    {
        match self {
            Message::QUIT => 0,
            Message::PARENT_RENDER => 1,
            Message::CHILD_RENDER => 2,
        }
    }
}


/// What the parent process does with a message it received.
#[derive(Debug, Clone, Copy, PartialEq, Eq, Structural)]
pub enum ParentAction {
    /// Leave the process.
    Exit,
    /// Draw the shared surface again; the message says why.
    Redraw(Message),
}

/// What the child process does with a message it received, as a value.
pub enum ChildActionView {
    Exit,
    Ignore,
    Render { surface_id: u8, reply: Seq<u8> },
}

/// What the child process does with a message it received.
#[derive(Debug)]
pub enum ChildAction {
    /// Leave the process.
    Exit,
    /// Nothing to do but note the message.
    Ignore,
    /// Render into the shared surface named by `surface_id`, then send
    /// `reply` to the parent.
    Render { surface_id: u8, reply: Vec<u8> },
}

impl View for ChildAction {
    type V = ChildActionView;

    open spec fn view(&self) -> ChildActionView {
        match self {
            ChildAction::Exit => ChildActionView::Exit,
            ChildAction::Ignore => ChildActionView::Ignore,
            ChildAction::Render { surface_id, reply } => ChildActionView::Render {
                surface_id: *surface_id,
                reply: reply@,
            },
        }
    }
}

/// The bytes of the parent's request that the child render into the
/// surface `surface_id`: the message's number, then the low byte of the id.
pub open spec fn render_request_bytes(surface_id: u32) -> Seq<u8> {
    seq![message_number(Message::CHILD_RENDER), surface_id as u8]
}

/// The bytes of the child's notice that it has rendered.
pub open spec fn render_notice_bytes() -> Seq<u8> {
    seq![message_number(Message::PARENT_RENDER)]
}

/// A received packet that the parent can act on: it starts with the
/// number of a message.
pub open spec fn parent_can_handle(data: Seq<u8>) -> bool {
    data.len() >= 1 && message_from_number(data[0]) is Some
}

/// A received packet that the child can act on: it starts with the number
/// of a message, and a render request also carries the surface's id.
pub open spec fn child_can_handle(data: Seq<u8>) -> bool {
    &&& data.len() >= 1
    &&& message_from_number(data[0]) is Some
    &&& message_from_number(data[0]) == Some(Message::CHILD_RENDER) ==> data.len() >= 2
}

/// The parent's action on a packet it can handle.
pub open spec fn parent_action(data: Seq<u8>) -> ParentAction {
    match message_from_number(data[0]).unwrap() {
        Message::QUIT => ParentAction::Exit,
        m => ParentAction::Redraw(m),
    }
}

/// The child's action on a packet it can handle.
pub open spec fn child_action(data: Seq<u8>) -> ChildActionView {
    match message_from_number(data[0]).unwrap() {
        Message::QUIT => ChildActionView::Exit,
        Message::PARENT_RENDER => ChildActionView::Ignore,
        Message::CHILD_RENDER => ChildActionView::Render {
            surface_id: data[1],
            reply: render_notice_bytes(),
        },
    }
}

/// The parent's request that the child render into the surface
/// `surface_id`. Only the low byte of the id fits in the request.
pub fn child_render_request(surface_id: u32) -> (bytes: Vec<u8>)
    ensures
        bytes@ == render_request_bytes(surface_id),
{
    let mut bytes: Vec<u8> = Vec::new();
    bytes.push(Message::CHILD_RENDER.to_u8());
    bytes.push(surface_id as u8);
    bytes
}

/// The child's notice to the parent that it has rendered.
pub fn parent_render_notice() -> (bytes: Vec<u8>)
    ensures
        bytes@ == render_notice_bytes(),
{
    let mut bytes: Vec<u8> = Vec::new();
    bytes.push(Message::PARENT_RENDER.to_u8());
    bytes
}

/// Whether the parent can act on a packet: it starts with the number of
/// a message.
pub fn parent_can_handle_packet(data: &[u8]) -> (b: bool)
    ensures
        b == parent_can_handle(data@),
{
    data.len() >= 1 && Message::from_u8(data[0]).is_some()
}

/// Whether the child can act on a packet: it starts with the number of a
/// message, and a render request also carries a surface id.
pub fn child_can_handle_packet(data: &[u8]) -> (b: bool)
    ensures
        b == child_can_handle(data@),
{
    if data.len() < 1 {
        return false;
    }
    match Message::from_u8(data[0]) {
        None => false,
        Some(Message::CHILD_RENDER) => data.len() >= 2,
        Some(_) => true,
    }
}

/// Decides what the parent does with a packet it received.
pub fn parent_on_message(data: &[u8]) -> (action: ParentAction)
    requires
        parent_can_handle(data@),
    ensures
        action == parent_action(data@),
{
    let message = Message::from_u8(data[0]);
    match message {
        Some(Message::QUIT) => ParentAction::Exit,
        Some(m) => ParentAction::Redraw(m),
        None => ParentAction::Exit,
    }
}

/// Decides what the child does with a packet it received.
pub fn child_on_message(data: &[u8]) -> (action: ChildAction)
    requires
        child_can_handle(data@),
    ensures
        action@ == child_action(data@),
{
    let message = Message::from_u8(data[0]);
    match message {
        Some(Message::CHILD_RENDER) => ChildAction::Render {
            surface_id: data[1],
            reply: parent_render_notice(),
        },
        Some(Message::PARENT_RENDER) => ChildAction::Ignore,
        _ => ChildAction::Exit,
    }
}

/// Every message comes back from its number.
pub proof fn lemma_message_number_round_trip(m: Message)
    ensures
        message_from_number(message_number(m)) == Some(m),
{
}

/// A number stands for a message exactly when some message has it, and
/// then it is that message's number.
pub proof fn lemma_message_numbers_are_exact(n: u8)
    ensures
        (message_from_number(n) is Some) <==> n < 3,
        message_from_number(n) matches Some(m) ==> message_number(m) == n,
{
}

/// The parent's render request reaches the child as an order to render
/// into the surface whose id has the same low byte, and to answer with the
/// render notice.
pub proof fn lemma_request_reaches_child(surface_id: u32)
    ensures
        child_can_handle(render_request_bytes(surface_id)),
        child_action(render_request_bytes(surface_id)) == (ChildActionView::Render {
            surface_id: (surface_id % 256) as u8,
            reply: render_notice_bytes(),
        }),
{
    assert((surface_id as u8) == (surface_id % 256) as u8) by (bit_vector);
}

/// The child's render notice reaches the parent as an order to redraw.
pub proof fn lemma_notice_reaches_parent()
    ensures
        parent_can_handle(render_notice_bytes()),
        parent_action(render_notice_bytes()) == ParentAction::Redraw(Message::PARENT_RENDER),
{
}

/// The wire numbers of the messages: QUIT is 0, PARENT_RENDER is 1,
/// CHILD_RENDER is 2, and no other byte is a message.
pub proof fn lemma_wire_numbers(n: u8)
    ensures
        message_number(Message::QUIT) == 0,
        message_number(Message::PARENT_RENDER) == 1,
        message_number(Message::CHILD_RENDER) == 2,
        message_from_number(n) == (if n == 0 {
            Some(Message::QUIT)
        } else if n == 1 {
            Some(Message::PARENT_RENDER)
        } else if n == 2 {
            Some(Message::CHILD_RENDER)
        } else {
            None
        }),
{
}

/// The parent can act on exactly the non-empty packets whose first byte
/// is 0, 1 or 2. It exits on 0 (QUIT) and redraws on 1 or 2, naming the
/// message that the first byte stands for; later bytes play no part.
pub proof fn lemma_parent_handles_every_message(data: Seq<u8>, other: Seq<u8>)
    ensures
        parent_can_handle(data) <==> (data.len() >= 1 && data[0] < 3),
        parent_can_handle(data) && data[0] == 0 ==> parent_action(data) == ParentAction::Exit,
        parent_can_handle(data) && data[0] == 1 ==> parent_action(data) == ParentAction::Redraw(
            Message::PARENT_RENDER,
        ),
        parent_can_handle(data) && data[0] == 2 ==> parent_action(data) == ParentAction::Redraw(
            Message::CHILD_RENDER,
        ),
        parent_can_handle(data) && other.len() >= 1 && other[0] == data[0] ==> parent_can_handle(other)
            && parent_action(other) == parent_action(data),
{
}

/// The child can act on exactly the non-empty packets whose first byte is
/// 0, 1 or 2, where a 2 (CHILD_RENDER) must be followed by the surface id;
/// QUIT and PARENT_RENDER need no second byte. It exits on 0, ignores 1,
/// and on 2 renders into the surface named by the second byte and replies
/// with the one byte 1 (PARENT_RENDER).
pub proof fn lemma_child_handles_every_message(data: Seq<u8>)
    ensures
        child_can_handle(data) <==> (data.len() >= 1 && data[0] < 3 && (data[0] == 2 ==> data.len() >= 2)),
        child_can_handle(seq![0u8]),
        child_can_handle(seq![1u8]),
        !child_can_handle(seq![2u8]),
        child_can_handle(data) && data[0] == 0 ==> child_action(data) == ChildActionView::Exit,
        child_can_handle(data) && data[0] == 1 ==> child_action(data) == ChildActionView::Ignore,
        child_can_handle(data) && data[0] == 2 ==> child_action(data) == (ChildActionView::Render {
            surface_id: data[1],
            reply: seq![1u8],
        }),
{
}

/// The parent's render request is the byte 2 followed by the low byte of
/// the surface id, and the child's notice is the single byte 1.
pub proof fn lemma_packet_bytes(surface_id: u32)
    ensures
        render_request_bytes(surface_id) == seq![2u8, (surface_id % 256) as u8],
        render_notice_bytes() == seq![1u8],
{
    assert((surface_id as u8) == (surface_id % 256) as u8) by (bit_vector);
}

} // verus!
