use konsoleat::dbus::{document_names, method_call, reply_i32, reply_str, reply_strs, reply_u32, reply_unit, Body, Reply};
use zbus::zvariant;
use zbus::zvariant::serialized::Context;
use zbus::zvariant::{to_bytes, BE, LE};

fn reply(signature: &str, big_endian: bool, bytes: Vec<u8>) -> Result<Reply, zbus::Error> {
    Ok(Reply { signature: signature.to_string(), big_endian, bytes })
}

fn is_failure<T>(res: Result<T, zbus::Error>, message: &str) -> bool {
    matches!(res, Err(zbus::Error::Failure(m)) if m == message)
}

fn failure() -> Result<Reply, zbus::Error> {
    Err(zbus::Error::Failure("no reply".to_string()))
}

#[test]
fn method_call_keeps_its_parts() {
    let call = method_call("a.b", "/c", "d.e", "F", Body::Int(-3));
    assert_eq!(call.destination, "a.b");
    assert_eq!(call.path, "/c");
    assert_eq!(call.interface, "d.e");
    assert_eq!(call.member, "F");
    assert!(matches!(call.body, Body::Int(-3)));
}

#[test]
fn integers_are_read_in_either_byte_order() {
    assert_eq!(reply_u32(reply("u", false, vec![1, 2, 3, 4])).unwrap(), 0x04030201);
    assert_eq!(reply_u32(reply("u", true, vec![1, 2, 3, 4])).unwrap(), 0x01020304);
    assert_eq!(reply_u32(reply("u", true, vec![0xff, 0xff, 0xff, 0xfe])).unwrap(), u32::MAX - 1);
    assert_eq!(reply_i32(reply("i", false, vec![1, 2, 3, 4])).unwrap(), 0x04030201);
    assert_eq!(reply_i32(reply("i", true, vec![0xff, 0xff, 0xff, 0xfe])).unwrap(), -2);
    assert_eq!(reply_i32(reply("i", true, vec![0x80, 0, 0, 0])).unwrap(), i32::MIN);
    assert_eq!(reply_i32(reply("i", true, vec![0x7f, 0xff, 0xff, 0xff])).unwrap(), i32::MAX);
}

#[test]
fn bytes_behind_an_integer_do_not_matter() {
    assert_eq!(reply_i32(reply("i", false, vec![5, 0, 0, 0, 9, 9])).unwrap(), 5);
    assert_eq!(reply_u32(reply("u", false, vec![5, 0, 0, 0, 9])).unwrap(), 5);
}

#[test]
fn integers_need_their_signature_and_four_bytes() {
    assert!(reply_i32(reply("u", false, vec![1, 2, 3, 4])).is_err());
    assert!(reply_i32(reply("(i)", false, vec![1, 2, 3, 4])).is_err());
    assert!(reply_i32(reply("ii", false, vec![1, 2, 3, 4, 1, 2, 3, 4])).is_err());
    assert!(reply_i32(reply("", false, vec![])).is_err());
    assert!(reply_i32(reply("i", false, vec![1, 2, 3])).is_err());
    assert!(reply_i32(reply("?", false, vec![1, 2, 3, 4])).is_err());
    assert!(reply_u32(reply("i", false, vec![1, 2, 3, 4])).is_err());
    assert!(reply_u32(reply("u", false, vec![1, 2, 3])).is_err());
}

#[test]
fn an_empty_signature_is_all_that_an_empty_reply_needs() {
    assert!(reply_unit(reply("", false, vec![])).is_ok());
    assert!(reply_unit(reply("", true, vec![7])).is_ok());
    assert!(reply_unit(reply("i", false, vec![1, 2, 3, 4])).is_err());
    assert!(reply_unit(reply("s", false, vec![0, 0, 0, 0, 0])).is_err());
}

#[test]
fn arrays_of_texts_are_read_in_either_byte_order() {
    let list = vec!["one", "", "drei"];
    let little = to_bytes(Context::new_dbus(LE, 0), &list).unwrap().bytes().to_vec();
    let big = to_bytes(Context::new_dbus(BE, 0), &list).unwrap().bytes().to_vec();
    assert_ne!(little, big);
    assert_eq!(reply_strs(reply("as", false, little.clone())).unwrap(), list);
    assert_eq!(reply_strs(reply("as", true, big.clone())).unwrap(), list);
    assert!(reply_strs(reply("as", true, little.clone())).is_err());
    assert!(reply_strs(reply("s", false, little.clone())).is_err());
    assert!(reply_strs(reply("as", false, little[..little.len() - 5].to_vec())).is_err());
    assert_eq!(reply_strs(reply("as", false, vec![0, 0, 0, 0])).unwrap(), Vec::<String>::new());
}

#[test]
fn the_error_of_a_failed_call_is_handed_on() {
    assert!(is_failure(reply_u32(failure()), "no reply"));
    assert!(is_failure(reply_i32(failure()), "no reply"));
    assert!(is_failure(reply_strs(failure()), "no reply"));
    assert!(is_failure(reply_unit(failure()), "no reply"));
    assert!(is_failure(reply_str(failure()), "no reply"));
}

fn mismatch<T>(res: Result<T, zbus::Error>) -> Option<(String, String)> {
    match res {
        Err(zbus::Error::Variant(zvariant::Error::SignatureMismatch(found, expected))) => {
            Some((found.to_string(), expected))
        }
        _ => None,
    }
}

#[test]
fn the_error_of_the_reading_is_handed_on() {
    let text = || reply("g", false, vec![0, 0, 0, 0, 0]);
    let told = |expected: &str| Some(("g".to_string(), expected.to_string()));
    assert_eq!(mismatch(reply_u32(text())), told("`u`"));
    assert_eq!(mismatch(reply_i32(text())), told("`i`"));
    assert_eq!(mismatch(reply_str(text())), told("`s`"));
    assert_eq!(mismatch(reply_strs(text())), told("`as`"));
    assert_eq!(mismatch(reply_unit(text())), told("``"));
}

#[test]
fn a_text_is_read_behind_its_length() {
    assert_eq!(reply_str(reply("s", false, vec![2, 0, 0, 0, b'h', b'i', 0])).unwrap(), "hi");
    assert_eq!(reply_str(reply("s", true, vec![0, 0, 0, 2, b'h', b'i'])).unwrap(), "hi");
    assert!(reply_str(reply("s", false, vec![3, 0, 0, 0, b'h', b'i'])).is_err());
    assert!(reply_str(reply("s", false, vec![2, 0, 0, 0, b'h', 0, 0])).is_err());
    assert!(matches!(
        reply_str(reply("s", false, vec![1, 0, 0, 0, 0xff, 0])),
        Err(zbus::Error::Variant(zvariant::Error::Utf8(_)))
    ));
}

#[test]
fn the_children_of_a_document_are_named_in_order() {
    let xml = "<node><node name=\"2\"/><node/><node name=\"1\"/></node>";
    assert_eq!(document_names(xml).unwrap(), vec![Some("2".to_string()), None, Some("1".to_string())]);
    assert!(document_names("<nod").is_err());
}
