use checkout::codec::{decode, encode, finish_decode};
use checkout::envelope::{decode_envelope, encode_envelope, DecodeError, FORMAT_TAG};
use checkout::schema::{BasketContents, BasketContentsV1, Profile, Version};
use checkout::Id;

fn contents_with_profiles(ids: &[u128]) -> BasketContents {
    let mut contents = BasketContentsV1::default();
    for id in ids {
        contents.profiles_to_check.push(Profile { id: Id(*id), ..Default::default() });
    }
    BasketContents(contents)
}

fn print(stored: Version) -> Vec<u8> {
    let Version::V1(contents) = stored;
    let ids: Vec<String> =
        contents.profiles_to_check.iter().map(|p| format!("{}", p.id.0)).collect();
    format!("V1:{}", ids.join(",")).into_bytes()
}

fn parse(payload: Vec<u8>) -> Option<Version> {
    let text = String::from_utf8(payload).ok()?;
    let list = text.strip_prefix("V1:")?;
    let mut ids = Vec::new();
    for part in list.split(',').filter(|part| !part.is_empty()) {
        ids.push(part.parse::<u128>().ok()?);
    }
    Some(Version::V1(contents_with_profiles(&ids).0))
}

#[test]
fn the_format_tag_is_one() {
    assert_eq!(FORMAT_TAG, 1);
}

#[test]
fn an_envelope_is_the_tag_and_then_the_payload() {
    assert_eq!(encode_envelope(&[]), vec![1]);
    assert_eq!(encode_envelope(&[0x7b, 0x7d]), vec![1, 0x7b, 0x7d]);
    assert_eq!(encode_envelope(&[1, 1]), vec![1, 1, 1]);
}

#[test]
fn a_payload_comes_out_of_its_envelope() {
    assert_eq!(decode_envelope(&[1]), Ok(vec![]));
    assert_eq!(decode_envelope(&[1, 0x7b, 0x7d]), Ok(vec![0x7b, 0x7d]));
    let payload: Vec<u8> = (0..=255).collect();
    assert_eq!(decode_envelope(&encode_envelope(&payload)), Ok(payload));
}

#[test]
fn bytes_without_a_tag_are_refused() {
    assert_eq!(decode_envelope(&[]), Err(DecodeError::Empty));
}

#[test]
fn an_unknown_format_tag_is_refused() {
    assert_eq!(decode_envelope(&[0]), Err(DecodeError::UnsupportedFormat { tag: 0 }));
    assert_eq!(
        decode_envelope(&[2, 0x7b, 0x7d]),
        Err(DecodeError::UnsupportedFormat { tag: 2 })
    );
    assert_eq!(decode_envelope(&[255, 1]), Err(DecodeError::UnsupportedFormat { tag: 255 }));
}

#[test]
fn an_unknown_format_tag_never_gives_a_document() {
    let mut parser_ran = false;
    let decoded = decode(&[9, b'V', b'1', b':'], |payload| {
        parser_ran = true;
        parse(payload)
    });
    assert_eq!(decoded, Err(DecodeError::UnsupportedFormat { tag: 9 }));
    assert!(!parser_ran);
    assert_ne!(decoded, Ok(BasketContents::default()));
}

#[test]
fn the_parser_sees_the_payload_without_its_tag() {
    let mut seen = Vec::new();
    let decoded = decode(&[1, 10, 20, 30], |payload| {
        seen = payload;
        None
    });
    assert_eq!(seen, vec![10, 20, 30]);
    assert_eq!(decoded, Err(DecodeError::MalformedPayload));
}

#[test]
fn a_payload_that_holds_no_document_is_refused() {
    assert_eq!(decode(&[1, b'?'], parse), Err(DecodeError::MalformedPayload));
    assert_eq!(decode(&[1, b'V', b'9', b':'], parse), Err(DecodeError::MalformedPayload));
    assert_eq!(finish_decode(None), Err(DecodeError::MalformedPayload));
}

#[test]
fn what_was_encoded_is_decoded_as_it_was() {
    for ids in [vec![], vec![1], vec![3, 1, 2]] {
        let contents = contents_with_profiles(&ids);
        let bytes = encode(contents.clone(), print);
        assert_eq!(bytes[0], 1);
        assert_eq!(decode(&bytes, parse), Ok(contents));
    }
}

#[test]
fn encoded_contents_are_the_printed_text_in_an_envelope() {
    let bytes = encode(contents_with_profiles(&[12, 7]), print);
    assert_eq!(bytes, b"\x01V1:12,7".to_vec());
}

#[test]
fn stored_contents_of_the_latest_version_are_wrapped_as_they_are() {
    let contents = contents_with_profiles(&[4]);
    let stored = Version::of(contents.clone());
    assert_eq!(stored, Version::V1(contents.0.clone()));
    assert_eq!(stored.clone().upgrade_full(), contents);
    assert_eq!(finish_decode(Some(stored)), Ok(contents));
}
