//! D-Bus method calls and their replies as plain values.
use crate::text::texts;
use std::path::PathBuf;
use vstd::prelude::*;
use vstd::utf8::*;

verus! {

/// The arguments of a method call.
#[derive(Debug)]
pub enum Body {
    Empty,
    Str(String),
    Int(i32),
    Path(PathBuf),
    StrPath(String, PathBuf),
}

/// The arguments of a method call, with their text.
pub enum BodyView {
    Empty,
    Str(Seq<char>),
    Int(i32),
    Path(PathBuf),
    StrPath(Seq<char>, PathBuf),
}

impl View for Body {
    type V = BodyView;

    open spec fn view(&self) -> BodyView {
        match self {
            Body::Empty => BodyView::Empty,
            Body::Str(s) => BodyView::Str(s@),
            Body::Int(i) => BodyView::Int(*i),
            Body::Path(p) => BodyView::Path(*p),
            Body::StrPath(s, p) => BodyView::StrPath(s@, *p),
        }
    }
}

/// A method call that is to be sent over the bus.
#[derive(Debug)]
pub struct MethodCall {
    pub destination: String,
    pub path: String,
    pub interface: String,
    pub member: String,
    pub body: Body,
}

/// A method call, with its text.
pub struct CallView {
    pub destination: Seq<char>,
    pub path: Seq<char>,
    pub interface: Seq<char>,
    pub member: Seq<char>,
    pub body: BodyView,
}

impl View for MethodCall {
    type V = CallView;

    open spec fn view(&self) -> CallView {
        CallView {
            destination: self.destination@,
            path: self.path@,
            interface: self.interface@,
            member: self.member@,
            body: self.body@,
        }
    }
}

/// Puts a method call together.
pub fn method_call(destination: &str, path: &str, interface: &str, member: &str, body: Body) -> (res: MethodCall)
    ensures
        res@ == (CallView {
            destination: destination@,
            path: path@,
            interface: interface@,
            member: member@,
            body: body@,
        }),
{
    MethodCall {
        destination: destination.to_owned(),
        path: path.to_owned(),
        interface: interface.to_owned(),
        member: member.to_owned(),
        body,
    }
}

/// The body of a reply as it came over the bus: its signature, its byte order and its bytes.
#[derive(Debug)]
pub struct Reply {
    pub signature: String,
    pub big_endian: bool,
    pub bytes: Vec<u8>,
}

/// The body of a reply, with its text and bytes.
pub struct ReplyView {
    pub signature: Seq<char>,
    pub big_endian: bool,
    pub bytes: Seq<u8>,
}

impl View for Reply {
    type V = ReplyView;

    open spec fn view(&self) -> ReplyView {
        ReplyView { signature: self.signature@, big_endian: self.big_endian, bytes: self.bytes@ }
    }
}

/// The unsigned number in the first four bytes of a reply.
pub open spec fn word(reply: ReplyView) -> int {
    let b = reply.bytes;
    if reply.big_endian {
        0x1000000 * b[0] + 0x10000 * b[1] + 0x100 * b[2] + b[3]
    } else {
        0x1000000 * b[3] + 0x10000 * b[2] + 0x100 * b[1] + b[0]
    }
}

/// The `u32` that a reply holds: signature `u`, and four bytes.
pub open spec fn held_u32(reply: ReplyView) -> Option<u32> {
    if reply.signature == seq!['u'] && reply.bytes.len() >= 4 {
        Some(word(reply) as u32)
    } else {
        None
    }
}

/// The `i32` that a reply holds: signature `i`, and four bytes in two's complement.
pub open spec fn held_i32(reply: ReplyView) -> Option<i32> {
    if reply.signature == seq!['i'] && reply.bytes.len() >= 4 {
        if word(reply) < 0x80000000 {
            Some(word(reply) as i32)
        } else {
            Some((word(reply) - 0x100000000) as i32)
        }
    } else {
        None
    }
}

/// The text that a reply holds: signature `s`, a length in four bytes, then as many bytes of
/// UTF-8 without a zero among them.
pub open spec fn held_str(reply: ReplyView) -> Option<Seq<char>> {
    if reply.signature == seq!['s'] && reply.bytes.len() >= 4 && 4 + word(reply) <= reply.bytes.len() {
        let raw = reply.bytes.subrange(4, 4 + word(reply));
        if valid_utf8(raw) && !raw.contains(0u8) {
            Some(decode_utf8(raw))
        } else {
            None
        }
    } else {
        None
    }
}

/// The array of texts that zvariant reads from a reply with the given signature, byte order and
/// bytes; nothing where zvariant refuses them.
pub uninterp spec fn string_array(signature: Seq<char>, big_endian: bool, bytes: Seq<u8>) -> Option<Seq<Seq<char>>>;

/// The array of texts that a reply holds.
pub open spec fn held_strs(reply: ReplyView) -> Option<Seq<Seq<char>>> {
    string_array(reply.signature, reply.big_endian, reply.bytes)
}

/// Whether a reply holds nothing: the signature is empty.
pub open spec fn held_unit(reply: ReplyView) -> Option<()> {
    if reply.signature == Seq::<char>::empty() {
        Some(())
    } else {
        None
    }
}

/// `zvariant::serialized::Data::deserialize_for_dynamic_signature::<_, u32>`, on a D-Bus body that
/// starts at an 8-byte boundary: the signature has to be `u`, and the number is in the first four
/// bytes. What the error holds is left unsaid.
#[verifier::external_body]
pub(crate) fn read_u32(reply: &Reply) -> (res: Result<u32, zbus::Error>)
    ensures
        match res {
            Ok(value) => held_u32(reply@) == Some(value),
            Err(_) => held_u32(reply@) is None,
        },
{
    let order = match reply.big_endian {
        true => zbus::zvariant::Endian::Big,
        false => zbus::zvariant::Endian::Little,
    };
    let context = zbus::zvariant::serialized::Context::new_dbus(order, 0);
    let data = zbus::zvariant::serialized::Data::new(reply.bytes.as_slice(), context);
    let read = data.deserialize_for_dynamic_signature::<_, u32>(reply.signature.as_str());
    read.map(|held| held.0).map_err(zbus::Error::from)
}

/// `zvariant::serialized::Data::deserialize_for_dynamic_signature::<_, i32>`, on a D-Bus body that
/// starts at an 8-byte boundary: the signature has to be `i`, and the number is in the first four
/// bytes. What the error holds is left unsaid.
#[verifier::external_body]
pub(crate) fn read_i32(reply: &Reply) -> (res: Result<i32, zbus::Error>)
    ensures
        match res {
            Ok(value) => held_i32(reply@) == Some(value),
            Err(_) => held_i32(reply@) is None,
        },
{
    let order = match reply.big_endian {
        true => zbus::zvariant::Endian::Big,
        false => zbus::zvariant::Endian::Little,
    };
    let context = zbus::zvariant::serialized::Context::new_dbus(order, 0);
    let data = zbus::zvariant::serialized::Data::new(reply.bytes.as_slice(), context);
    let read = data.deserialize_for_dynamic_signature::<_, i32>(reply.signature.as_str());
    read.map(|held| held.0).map_err(zbus::Error::from)
}

/// `zvariant::serialized::Data::deserialize_for_dynamic_signature::<_, &str>`, on a D-Bus body that
/// starts at an 8-byte boundary: the signature has to be `s`, and the text is the run of UTF-8
/// bytes, none of them zero, that the leading length counts. What the error holds is left unsaid.
#[verifier::external_body]
pub(crate) fn read_str(reply: &Reply) -> (res: Result<String, zbus::Error>)
    ensures
        match res {
            Ok(value) => held_str(reply@) == Some(value@),
            Err(_) => held_str(reply@) is None,
        },
{
    let order = match reply.big_endian {
        true => zbus::zvariant::Endian::Big,
        false => zbus::zvariant::Endian::Little,
    };
    let context = zbus::zvariant::serialized::Context::new_dbus(order, 0);
    let data = zbus::zvariant::serialized::Data::new(reply.bytes.as_slice(), context);
    let read = data.deserialize_for_dynamic_signature::<_, &str>(reply.signature.as_str());
    read.map(|held| held.0.to_owned()).map_err(zbus::Error::from)
}

/// `zvariant::serialized::Data::deserialize_for_dynamic_signature::<_, Vec<&str>>`, on a D-Bus body
/// that starts at an 8-byte boundary: what it reads depends on the signature, the byte order and
/// the bytes alone, and no signature but `as` is accepted. What the error holds is left unsaid.
#[verifier::external_body]
pub(crate) fn read_strs(reply: &Reply) -> (res: Result<Vec<String>, zbus::Error>)
    ensures
        match res {
            Ok(list) => string_array(reply.signature@, reply.big_endian, reply.bytes@) == Some(texts(list@)),
            Err(_) => string_array(reply.signature@, reply.big_endian, reply.bytes@) is None,
        },
        reply.signature@ != seq!['a', 's'] ==> res is Err,
{
    let order = match reply.big_endian {
        true => zbus::zvariant::Endian::Big,
        false => zbus::zvariant::Endian::Little,
    };
    let context = zbus::zvariant::serialized::Context::new_dbus(order, 0);
    let data = zbus::zvariant::serialized::Data::new(reply.bytes.as_slice(), context);
    let read = data.deserialize_for_dynamic_signature::<_, Vec<&str>>(reply.signature.as_str());
    read.map(|held| held.0.into_iter().map(|s| s.to_owned()).collect()).map_err(zbus::Error::from)
}

/// `zvariant::serialized::Data::deserialize_for_dynamic_signature::<_, ()>`: the signature has to
/// be empty, and the bytes are not looked at. What the error holds is left unsaid.
#[verifier::external_body]
pub(crate) fn read_unit(reply: &Reply) -> (res: Result<(), zbus::Error>)
    ensures
        match res {
            Ok(_) => held_unit(reply@) is Some,
            Err(_) => held_unit(reply@) is None,
        },
{
    let order = match reply.big_endian {
        true => zbus::zvariant::Endian::Big,
        false => zbus::zvariant::Endian::Little,
    };
    let context = zbus::zvariant::serialized::Context::new_dbus(order, 0);
    let data = zbus::zvariant::serialized::Data::new(reply.bytes.as_slice(), context);
    let read = data.deserialize_for_dynamic_signature::<_, ()>(reply.signature.as_str());
    read.map(|held| held.0).map_err(zbus::Error::from)
}

/// Whether an error is what the attempt to read a `u32` from a reply comes to.
pub closed spec fn refused_u32(reply: Reply, e: zbus::Error) -> bool {
    call_ensures(read_u32, (&reply,), Err::<u32, zbus::Error>(e))
}

/// Whether an error is what the attempt to read an `i32` from a reply comes to.
pub closed spec fn refused_i32(reply: Reply, e: zbus::Error) -> bool {
    call_ensures(read_i32, (&reply,), Err::<i32, zbus::Error>(e))
}

/// Whether an error is what the attempt to read a text from a reply comes to.
pub closed spec fn refused_str(reply: Reply, e: zbus::Error) -> bool {
    call_ensures(read_str, (&reply,), Err::<String, zbus::Error>(e))
}

/// Whether an error is what the attempt to read an array of texts from a reply comes to.
pub closed spec fn refused_strs(reply: Reply, e: zbus::Error) -> bool {
    call_ensures(read_strs, (&reply,), Err::<Vec<String>, zbus::Error>(e))
}

/// Whether an error is what the attempt to find nothing in a reply comes to.
pub closed spec fn refused_unit(reply: Reply, e: zbus::Error) -> bool {
    call_ensures(read_unit, (&reply,), Err::<(), zbus::Error>(e))
}

/// Whether an error is the one of a failed method call, or else what the attempt to read
/// a `u32` from the reply comes to.
pub open spec fn fault_u32(reply: Result<Reply, zbus::Error>, e: zbus::Error) -> bool {
    match reply {
        Ok(reply) => refused_u32(reply, e),
        Err(source) => e == source,
    }
}

/// Whether an error is the one of a failed method call, or else what the attempt to read
/// an `i32` from the reply comes to.
pub open spec fn fault_i32(reply: Result<Reply, zbus::Error>, e: zbus::Error) -> bool {
    match reply {
        Ok(reply) => refused_i32(reply, e),
        Err(source) => e == source,
    }
}

/// Whether an error is the one of a failed method call, or else what the attempt to read
/// a text from the reply comes to.
pub open spec fn fault_str(reply: Result<Reply, zbus::Error>, e: zbus::Error) -> bool {
    match reply {
        Ok(reply) => refused_str(reply, e),
        Err(source) => e == source,
    }
}

/// Whether an error is the one of a failed method call, or else what the attempt to read
/// an array of texts from the reply comes to.
pub open spec fn fault_strs(reply: Result<Reply, zbus::Error>, e: zbus::Error) -> bool {
    match reply {
        Ok(reply) => refused_strs(reply, e),
        Err(source) => e == source,
    }
}

/// Whether an error is the one of a failed method call, or else what the attempt to find
/// nothing in the reply comes to.
pub open spec fn fault_unit(reply: Result<Reply, zbus::Error>, e: zbus::Error) -> bool {
    match reply {
        Ok(reply) => refused_unit(reply, e),
        Err(source) => e == source,
    }
}

/// The outcome of a method call, without the error where it failed.
pub open spec fn reply_view(reply: Result<Reply, zbus::Error>) -> Option<ReplyView> {
    match reply {
        Ok(reply) => Some(reply@),
        Err(_) => None,
    }
}

/// The `u32` that a method call brings back, unless the call fails or the reply holds none.
pub open spec fn replied_u32(reply: Option<ReplyView>) -> Option<u32> {
    match reply {
        Some(reply) => held_u32(reply),
        None => None,
    }
}

/// The `i32` that a method call brings back, unless the call fails or the reply holds none.
pub open spec fn replied_i32(reply: Option<ReplyView>) -> Option<i32> {
    match reply {
        Some(reply) => held_i32(reply),
        None => None,
    }
}

/// The text that a method call brings back, unless the call fails or the reply holds none.
pub open spec fn replied_str(reply: Option<ReplyView>) -> Option<Seq<char>> {
    match reply {
        Some(reply) => held_str(reply),
        None => None,
    }
}

/// The array of texts that a method call brings back, unless the call fails or the reply holds none.
pub open spec fn replied_strs(reply: Option<ReplyView>) -> Option<Seq<Seq<char>>> {
    match reply {
        Some(reply) => held_strs(reply),
        None => None,
    }
}

/// Whether a method call succeeds, and the reply holds nothing.
pub open spec fn replied_unit(reply: Option<ReplyView>) -> Option<()> {
    match reply {
        Some(reply) => held_unit(reply),
        None => None,
    }
}

/// Takes a `u32` from the outcome of a method call. The error of a failed call, or
/// of the reading, is handed on.
pub fn reply_u32(reply: Result<Reply, zbus::Error>) -> (res: Result<u32, zbus::Error>)
    ensures
        match res {
            Ok(value) => replied_u32(reply_view(reply)) == Some(value),
            Err(e) => {
                &&& replied_u32(reply_view(reply)) is None
                &&& fault_u32(reply, e)
            },
        },
{
    match reply {
        Ok(reply) => read_u32(&reply),
        Err(e) => Err(e),
    }
}

/// Takes an `i32` from the outcome of a method call. The error of a failed call, or
/// of the reading, is handed on.
pub fn reply_i32(reply: Result<Reply, zbus::Error>) -> (res: Result<i32, zbus::Error>)
    ensures
        match res {
            Ok(value) => replied_i32(reply_view(reply)) == Some(value),
            Err(e) => {
                &&& replied_i32(reply_view(reply)) is None
                &&& fault_i32(reply, e)
            },
        },
{
    match reply {
        Ok(reply) => read_i32(&reply),
        Err(e) => Err(e),
    }
}

/// Takes a text from the outcome of a method call. The error of a failed call, or
/// of the reading, is handed on.
pub fn reply_str(reply: Result<Reply, zbus::Error>) -> (res: Result<String, zbus::Error>)
    ensures
        match res {
            Ok(value) => replied_str(reply_view(reply)) == Some(value@),
            Err(e) => {
                &&& replied_str(reply_view(reply)) is None
                &&& fault_str(reply, e)
            },
        },
{
    match reply {
        Ok(reply) => read_str(&reply),
        Err(e) => Err(e),
    }
}

/// Takes an array of texts from the outcome of a method call. The error of a failed call, or
/// of the reading, is handed on.
pub fn reply_strs(reply: Result<Reply, zbus::Error>) -> (res: Result<Vec<String>, zbus::Error>)
    ensures
        match res {
            Ok(list) => replied_strs(reply_view(reply)) == Some(texts(list@)),
            Err(e) => {
                &&& replied_strs(reply_view(reply)) is None
                &&& fault_strs(reply, e)
            },
        },
{
    match reply {
        Ok(reply) => read_strs(&reply),
        Err(e) => Err(e),
    }
}

/// Checks that the reply to a method call holds nothing. The error of a failed call, or
/// of the reading, is handed on.
pub fn reply_unit(reply: Result<Reply, zbus::Error>) -> (res: Result<(), zbus::Error>)
    ensures
        match res {
            Ok(_) => replied_unit(reply_view(reply)) is Some,
            Err(e) => {
                &&& replied_unit(reply_view(reply)) is None
                &&& fault_unit(reply, e)
            },
        },
{
    match reply {
        Ok(reply) => read_unit(&reply),
        Err(e) => Err(e),
    }
}

/// The names of the children of the root node that zbus_xml reads from an introspection document,
/// in order, with nothing for a child without a name; nothing at all where zbus_xml refuses the
/// document.
pub uninterp spec fn child_names(xml: Seq<char>) -> Option<Seq<Option<Seq<char>>>>;

/// The contents of a list of names, where there are names.
pub open spec fn names(list: Seq<Option<String>>) -> Seq<Option<Seq<char>>> {
    list.map_values(
        |name: Option<String>|
            match name {
                Some(s) => Some(s@),
                None => None,
            },
    )
}

/// `zbus_xml::Node::from_reader`, then `nodes` of the root and `name` of each of them: what comes
/// out depends on the document alone. What the error holds is left unsaid.
#[verifier::external_body]
pub(crate) fn read_child_names(xml: &str) -> (res: Result<Vec<Option<String>>, zbus_xml::Error>)
    ensures
        match res {
            Ok(list) => child_names(xml@) == Some(names(list@)),
            Err(_) => child_names(xml@) is None,
        },
{
    let root = zbus_xml::Node::from_reader(xml.as_bytes())?;
    Ok(root.nodes().iter().map(|node| node.name().map(|name| name.to_owned())).collect())
}

/// Whether an error is what the attempt to read an introspection document comes to.
pub closed spec fn refused_xml(xml: Seq<char>, e: zbus_xml::Error) -> bool {
    exists|document: &str| #![trigger document@]
        document@ == xml && call_ensures(
            read_child_names,
            (document,),
            Err::<Vec<Option<String>>, zbus_xml::Error>(e),
        )
}

/// Reads the names of the children of the root node from an introspection document.
pub fn document_names(xml: &str) -> (res: Result<Vec<Option<String>>, zbus_xml::Error>)
    ensures
        match res {
            Ok(list) => child_names(xml@) == Some(names(list@)),
            Err(e) => child_names(xml@) is None && refused_xml(xml@, e),
        },
{
    read_child_names(xml)
}

/// The first four bytes of a reply, the least significant one first.
pub open spec fn leading_bytes(reply: Reply) -> Seq<int> {
    let b = reply.bytes@;
    if reply.big_endian {
        seq![b[3] as int, b[2] as int, b[1] as int, b[0] as int]
    } else {
        seq![b[0] as int, b[1] as int, b[2] as int, b[3] as int]
    }
}

/// Whether a number has the first four bytes of a reply.
pub open spec fn has_leading_bytes(reply: Reply, n: int) -> bool {
    let b = leading_bytes(reply);
    n == b[0] + 256 * (b[1] + 256 * (b[2] + 256 * b[3]))
}

proof fn lemma_word_has_leading_bytes(reply: Reply)
    requires
        reply.bytes@.len() >= 4,
    ensures
        0 <= word(reply@) < 0x100000000,
        has_leading_bytes(reply, word(reply@)),
{
}

/// A `u32` is read from a successful call whose reply has the signature `u` and four bytes, and from no
/// other; it has those bytes. A failed call hands on its error.
pub proof fn law_u32_has_the_bytes_of_the_reply(reply: Result<Reply, zbus::Error>, res: Result<u32, zbus::Error>)
    requires
        call_ensures(reply_u32, (reply,), res),
    ensures
        match reply {
            Ok(held) => {
                &&& res is Ok <==> held.signature@ == seq!['u'] && held.bytes@.len() >= 4
                &&& res matches Ok(n) ==> has_leading_bytes(held, n as int)
                &&& res matches Err(e) ==> refused_u32(held, e)
            },
            Err(e) => res == Err::<u32, zbus::Error>(e),
        },
{
    if let Ok(held) = reply {
        if held.bytes@.len() >= 4 {
            lemma_word_has_leading_bytes(held);
        }
    }
}

/// An `i32` is read from a successful call whose reply has the signature `i` and four bytes, and from
/// no other; it has those bytes, in two's complement. A failed call hands on its error.
pub proof fn law_i32_has_the_bytes_of_the_reply(reply: Result<Reply, zbus::Error>, res: Result<i32, zbus::Error>)
    requires
        call_ensures(reply_i32, (reply,), res),
    ensures
        match reply {
            Ok(held) => {
                &&& res is Ok <==> held.signature@ == seq!['i'] && held.bytes@.len() >= 4
                &&& res matches Ok(n) ==> has_leading_bytes(
                    held,
                    if n < 0 {
                        n + 0x100000000
                    } else {
                        n as int
                    },
                )
                &&& res matches Err(e) ==> refused_i32(held, e)
            },
            Err(e) => res == Err::<i32, zbus::Error>(e),
        },
{
    if let Ok(held) = reply {
        if held.bytes@.len() >= 4 {
            lemma_word_has_leading_bytes(held);
        }
    }
}

/// A text is read from a successful call whose reply has the signature `s`, and holds as many bytes
/// behind the first four as those four count, in UTF-8 without a zero byte; and from no other. It is the
/// text of those bytes. A failed call hands on its error.
pub proof fn law_text_has_the_bytes_of_the_reply(
    reply: Result<Reply, zbus::Error>,
    res: Result<String, zbus::Error>,
    len: int,
)
    requires
        call_ensures(reply_str, (reply,), res),
        reply matches Ok(held) ==> held.bytes@.len() >= 4 ==> has_leading_bytes(held, len),
    ensures
        match reply {
            Ok(held) => {
                let raw = held.bytes@.subrange(4, 4 + len);
                &&& res is Ok <==> {
                    &&& held.signature@ == seq!['s']
                    &&& held.bytes@.len() >= 4 + len
                    &&& held.bytes@.len() >= 4
                    &&& valid_utf8(raw)
                    &&& forall|k: int| 0 <= k < raw.len() ==> #[trigger] raw[k] != 0
                }
                &&& res matches Ok(text) ==> text@ == decode_utf8(raw)
                &&& res matches Err(e) ==> refused_str(held, e)
            },
            Err(e) => res == Err::<String, zbus::Error>(e),
        },
{
    if let Ok(held) = reply {
        if held.bytes@.len() >= 4 {
            lemma_word_has_leading_bytes(held);
            assert(len == word(held@));
        }
    }
}

/// An array of texts is read from a successful call whose reply zvariant reads as one, and from no other:
/// the texts are those that zvariant reads, in order. A failed call hands on its error.
pub proof fn law_texts_are_those_of_the_reply(reply: Result<Reply, zbus::Error>, res: Result<Vec<String>, zbus::Error>)
    requires
        call_ensures(reply_strs, (reply,), res),
    ensures
        match reply {
            Ok(held) => match string_array(held.signature@, held.big_endian, held.bytes@) {
                Some(list) => {
                    &&& res is Ok
                    &&& res->Ok_0@.len() == list.len()
                    &&& forall|k: int| 0 <= k < list.len() ==> (#[trigger] res->Ok_0@[k])@ == list[k]
                },
                None => res matches Err(e) && refused_strs(held, e),
            },
            Err(e) => res == Err::<Vec<String>, zbus::Error>(e),
        },
{
    if let Ok(list) = res {
        assert(forall|k: int| 0 <= k < list@.len() ==> texts(list@)[k] == (#[trigger] list@[k])@);
    }
}

/// A call succeeds without a value if its reply has an empty signature, and only then. A failed call
/// hands on its error.
pub proof fn law_nothing_is_in_an_empty_reply(reply: Result<Reply, zbus::Error>, res: Result<(), zbus::Error>)
    requires
        call_ensures(reply_unit, (reply,), res),
    ensures
        match reply {
            Ok(held) => {
                &&& res is Ok <==> held.signature@.len() == 0
                &&& res matches Err(e) ==> refused_unit(held, e)
            },
            Err(e) => res == Err::<(), zbus::Error>(e),
        },
{
    if let Ok(held) = reply {
        if held.signature@.len() == 0 {
            assert(held.signature@ =~= Seq::<char>::empty());
        }
    }
}

/// What a call brings back is what its reply holds; a failed call brings back nothing.
pub proof fn law_a_call_brings_back_what_its_reply_holds(reply: ReplyView)
    ensures
        replied_u32(Some(reply)) == held_u32(reply),
        replied_i32(Some(reply)) == held_i32(reply),
        replied_str(Some(reply)) == held_str(reply),
        replied_strs(Some(reply)) == string_array(reply.signature, reply.big_endian, reply.bytes),
        replied_unit(Some(reply)) is Some <==> reply.signature.len() == 0,
        replied_u32(None) is None,
        replied_i32(None) is None,
        replied_str(None) is None,
        replied_strs(None) is None,
        replied_unit(None) is None,
{
    if reply.signature.len() == 0 {
        assert(reply.signature =~= Seq::<char>::empty());
    }
}

/// A method call and a reply are shown with all that they hold.
pub proof fn law_calls_and_replies_are_shown_in_full(call: MethodCall, reply: Reply)
    ensures
        call@.destination == call.destination@,
        call@.path == call.path@,
        call@.interface == call.interface@,
        call@.member == call.member@,
        match call.body {
            Body::Empty => call@.body == BodyView::Empty,
            Body::Str(s) => call@.body == BodyView::Str(s@),
            Body::Int(i) => call@.body == BodyView::Int(i),
            Body::Path(p) => call@.body == BodyView::Path(p),
            Body::StrPath(s, p) => call@.body == BodyView::StrPath(s@, p),
        },
        reply@.signature == reply.signature@,
        reply@.big_endian == reply.big_endian,
        reply@.bytes == reply.bytes@,
        reply_view(Ok(reply)) == Some(reply@),
        forall|e: zbus::Error| #[trigger] reply_view(Err(e)) is None,
{
}

/// Whether a method call goes to a member of an interface of an object at a destination.
pub open spec fn goes_to(
    call: MethodCall,
    destination: Seq<char>,
    path: Seq<char>,
    interface: Seq<char>,
    member: Seq<char>,
) -> bool {
    &&& call.destination@ == destination
    &&& call.path@ == path
    &&& call.interface@ == interface
    &&& call.member@ == member
}

/// The error of a reply that cannot be read is one that the very attempt to read it gives.
pub(crate) proof fn law_refusal_is_that_of_the_reading(reply: Reply, e: zbus::Error)
    ensures
        refused_u32(reply, e) <==> call_ensures(read_u32, (&reply,), Err::<u32, zbus::Error>(e)),
        refused_i32(reply, e) <==> call_ensures(read_i32, (&reply,), Err::<i32, zbus::Error>(e)),
        refused_str(reply, e) <==> call_ensures(read_str, (&reply,), Err::<String, zbus::Error>(e)),
        refused_strs(reply, e) <==> call_ensures(read_strs, (&reply,), Err::<Vec<String>, zbus::Error>(e)),
        refused_unit(reply, e) <==> call_ensures(read_unit, (&reply,), Err::<(), zbus::Error>(e)),
{
}

/// The names of a list are shown as they are, in order.
pub proof fn law_names_are_those_of_the_list(list: Seq<Option<String>>)
    ensures
        names(list).len() == list.len(),
        forall|k: int|
            0 <= k < list.len() ==> match list[k] {
                Some(name) => #[trigger] names(list)[k] == Some(name@),
                None => names(list)[k] is None,
            },
{
}

/// The error of a document that cannot be read is one that the very attempt to read it gives.
pub(crate) proof fn law_refusal_is_that_of_the_document(xml: Seq<char>, e: zbus_xml::Error)
    ensures
        refused_xml(xml, e) <==> exists|document: &str| #![trigger document@]
            document@ == xml && call_ensures(
                read_child_names,
                (document,),
                Err::<Vec<Option<String>>, zbus_xml::Error>(e),
            ),
{
}

/// The names told of a document are those that zbus_xml reads, in order; nothing is told of a document that
/// it refuses.
pub proof fn law_names_are_those_of_the_document(xml: &str, res: Result<Vec<Option<String>>, zbus_xml::Error>)
    requires
        call_ensures(document_names, (xml,), res),
    ensures
        match child_names(xml@) {
            Some(list) => {
                &&& res is Ok
                &&& res->Ok_0@.len() == list.len()
                &&& forall|k: int|
                    0 <= k < list.len() ==> match #[trigger] res->Ok_0@[k] {
                        Some(name) => list[k] == Some(name@),
                        None => list[k] is None,
                    }
            },
            None => res matches Err(e) && refused_xml(xml@, e),
        },
{
    if let Ok(list) = res {
        law_names_are_those_of_the_list(list@);
        assert forall|k: int| 0 <= k < list@.len() implies match #[trigger] list@[k] {
            Some(name) => child_names(xml@)->Some_0[k] == Some(name@),
            None => child_names(xml@)->Some_0[k] is None,
        } by {
            assert(names(list@)[k] == child_names(xml@)->Some_0[k]);
        }
    }
}

} // verus!
