use matter::codec::{FromTLV, Nullable, ToTLV};
use matter::error::Error;
use matter::status::IMStatusCode;
use matter::tlv::{ElementType, TLVElement, TagType};
use matter::writer::TLVWriter;

fn el(tag: TagType, value: ElementType) -> TLVElement {
    TLVElement::new(tag, value)
}

#[test]
fn unsigned_readers_widen_but_never_narrow() {
    let a = el(TagType::Anonymous, ElementType::U8(200));
    let b = el(TagType::Anonymous, ElementType::U16(0x1234));
    let c = el(TagType::Anonymous, ElementType::U32(0x1234_5678));
    let d = el(TagType::Anonymous, ElementType::U64(0x1_0000_0000));
    assert_eq!(a.u8(), Ok(200));
    assert_eq!(a.u16(), Ok(200));
    assert_eq!(a.u32(), Ok(200));
    assert_eq!(a.u64(), Ok(200));
    assert_eq!(b.u8(), Err(Error::TLVTypeMismatch));
    assert_eq!(b.u16(), Ok(0x1234));
    assert_eq!(b.u32(), Ok(0x1234));
    assert_eq!(c.u16(), Err(Error::TLVTypeMismatch));
    assert_eq!(c.u32(), Ok(0x1234_5678));
    assert_eq!(c.u64(), Ok(0x1234_5678));
    assert_eq!(d.u32(), Err(Error::TLVTypeMismatch));
    assert_eq!(d.u64(), Ok(0x1_0000_0000));
}

#[test]
fn readers_refuse_other_types() {
    let n = el(TagType::Anonymous, ElementType::Null);
    assert_eq!(n.u8(), Err(Error::TLVTypeMismatch));
    assert_eq!(n.u64(), Err(Error::TLVTypeMismatch));
    assert_eq!(n.bool(), Err(Error::TLVTypeMismatch));
    assert_eq!(n.null(), Ok(()));
    let t = el(TagType::Anonymous, ElementType::True);
    assert_eq!(t.bool(), Ok(true));
    assert_eq!(t.null(), Err(Error::TLVTypeMismatch));
    assert_eq!(el(TagType::Anonymous, ElementType::False).bool(), Ok(false));
    assert_eq!(el(TagType::Anonymous, ElementType::S8(-1)).u8(), Err(Error::TLVTypeMismatch));
}

#[test]
fn containers_are_told_apart() {
    let s = el(TagType::Anonymous, ElementType::Struct(vec![]));
    let a = el(TagType::Anonymous, ElementType::Array(vec![el(TagType::Anonymous, ElementType::U8(1))]));
    let l = el(TagType::Anonymous, ElementType::List(vec![]));
    let u = el(TagType::Anonymous, ElementType::U8(1));
    assert!(s.confirm_struct().is_ok());
    assert_eq!(s.confirm_array().err(), Some(Error::TLVTypeMismatch));
    assert_eq!(s.confirm_list().err(), Some(Error::TLVTypeMismatch));
    assert!(a.confirm_array().is_ok());
    assert_eq!(a.confirm_struct().err(), Some(Error::TLVTypeMismatch));
    assert!(l.confirm_list().is_ok());
    assert_eq!(u.confirm_struct().err(), Some(Error::TLVTypeMismatch));
    assert_eq!(a.enter().map(|m| m.len()), Some(1));
    assert_eq!(s.enter().map(|m| m.len()), Some(0));
    assert!(u.enter().is_none());
    assert_eq!(a.array_members().map(|m| m.len()), Ok(1));
    assert_eq!(a.struct_members().err(), Some(Error::TLVTypeMismatch));
    assert_eq!(a.list_members().err(), Some(Error::TLVTypeMismatch));
}

#[test]
fn tags_are_read_back() {
    let e = el(TagType::Context(4), ElementType::Null);
    assert_eq!(e.get_tag(), TagType::Context(4));
    assert!(e.check_ctx_tag(4));
    assert!(!e.check_ctx_tag(5));
    assert!(!el(TagType::Anonymous, ElementType::Null).check_ctx_tag(0));
    assert!(!el(TagType::CommonPrf16(4), ElementType::Null).check_ctx_tag(4));
}

#[test]
fn retagged_copies_the_whole_content() {
    let inner = el(TagType::Context(1), ElementType::Utf8l(vec![b'h', b'i']));
    let e = el(
        TagType::Context(9),
        ElementType::Struct(vec![inner, el(TagType::Context(2), ElementType::Array(vec![el(TagType::Anonymous, ElementType::S32(-5))]))]),
    );
    let r = e.retagged(TagType::Anonymous);
    assert_eq!(r.tag, TagType::Anonymous);
    assert_eq!(r.value, e.value);
    assert_eq!(e.retagged(TagType::Context(9)), e);
}

#[test]
fn writer_picks_the_narrowest_width() {
    let mut tw = TLVWriter::new();
    tw.u16(TagType::Context(0), 0xff).unwrap();
    tw.u16(TagType::Context(1), 0x100).unwrap();
    tw.u32(TagType::Context(2), 5).unwrap();
    tw.u32(TagType::Context(3), 0xffff).unwrap();
    tw.u32(TagType::Context(4), 0x1_0000).unwrap();
    tw.u64(TagType::Context(5), 0xffff_ffff).unwrap();
    tw.u64(TagType::Context(6), 0x1_0000_0000).unwrap();
    tw.u8(TagType::Context(7), 9).unwrap();
    let values: Vec<&ElementType> = tw.elements().iter().map(|e| &e.value).collect();
    assert_eq!(
        values,
        vec![
            &ElementType::U8(0xff),
            &ElementType::U16(0x100),
            &ElementType::U8(5),
            &ElementType::U16(0xffff),
            &ElementType::U32(0x1_0000),
            &ElementType::U32(0xffff_ffff),
            &ElementType::U64(0x1_0000_0000),
            &ElementType::U8(9),
        ]
    );
    assert_eq!(tw.elements()[3].tag, TagType::Context(3));
}

#[test]
fn writer_nests_containers() {
    let mut tw = TLVWriter::new();
    assert_eq!(tw.depth(), 0);
    tw.start_struct(TagType::Anonymous).unwrap();
    tw.bool(TagType::Context(0), true).unwrap();
    tw.start_array(TagType::Context(1)).unwrap();
    assert_eq!(tw.depth(), 2);
    tw.u8(TagType::Anonymous, 1).unwrap();
    tw.null(TagType::Anonymous).unwrap();
    tw.end_container().unwrap();
    tw.start_list(TagType::Context(2)).unwrap();
    tw.end_container().unwrap();
    assert!(tw.elements().is_empty());
    tw.end_container().unwrap();
    assert_eq!(tw.depth(), 0);
    let want = el(
        TagType::Anonymous,
        ElementType::Struct(vec![
            el(TagType::Context(0), ElementType::True),
            el(
                TagType::Context(1),
                ElementType::Array(vec![el(TagType::Anonymous, ElementType::U8(1)), el(TagType::Anonymous, ElementType::Null)]),
            ),
            el(TagType::Context(2), ElementType::List(vec![])),
        ]),
    );
    assert_eq!(tw.elements(), &vec![want]);
}

#[test]
fn ending_without_a_container_is_invalid() {
    let mut tw = TLVWriter::new();
    assert_eq!(tw.end_container(), Err(Error::Invalid));
    tw.u8(TagType::Anonymous, 1).unwrap();
    assert_eq!(tw.end_container(), Err(Error::Invalid));
    assert_eq!(tw.elements().len(), 1);
}

#[test]
fn put_joins_the_open_container() {
    let mut tw = TLVWriter::new();
    tw.put(el(TagType::Anonymous, ElementType::U8(1)));
    tw.start_array(TagType::Anonymous).unwrap();
    tw.put(el(TagType::Anonymous, ElementType::U8(2)));
    tw.end_container().unwrap();
    assert_eq!(tw.elements().len(), 2);
    assert_eq!(tw.elements()[1].value, ElementType::Array(vec![el(TagType::Anonymous, ElementType::U8(2))]));
}

#[test]
fn primitives_round_trip() {
    let mut tw = TLVWriter::new();
    7u8.to_tlv(&mut tw, TagType::Anonymous).unwrap();
    0xabcdu16.to_tlv(&mut tw, TagType::Anonymous).unwrap();
    3u32.to_tlv(&mut tw, TagType::Anonymous).unwrap();
    u64::MAX.to_tlv(&mut tw, TagType::Anonymous).unwrap();
    true.to_tlv(&mut tw, TagType::Anonymous).unwrap();
    false.to_tlv(&mut tw, TagType::Anonymous).unwrap();
    let e = tw.elements();
    assert_eq!(u8::from_tlv(&e[0]), Ok(7));
    assert_eq!(u16::from_tlv(&e[1]), Ok(0xabcd));
    assert_eq!(u32::from_tlv(&e[2]), Ok(3));
    assert_eq!(u64::from_tlv(&e[3]), Ok(u64::MAX));
    assert_eq!(bool::from_tlv(&e[4]), Ok(true));
    assert_eq!(bool::from_tlv(&e[5]), Ok(false));
    assert_eq!(u8::from_tlv(&e[1]), Err(Error::TLVTypeMismatch));
    assert_eq!(u16::tlv_not_found(), Err(Error::TLVNotFound));
    assert_eq!(bool::tlv_not_found(), Err(Error::TLVNotFound));
}

#[test]
fn option_writes_nothing_for_none() {
    let mut tw = TLVWriter::new();
    let none: Option<u16> = None;
    none.to_tlv(&mut tw, TagType::Context(1)).unwrap();
    assert!(tw.elements().is_empty());
    Some(5u16).to_tlv(&mut tw, TagType::Context(1)).unwrap();
    assert_eq!(tw.elements(), &vec![el(TagType::Context(1), ElementType::U8(5))]);
    assert_eq!(<Option<u16>>::from_tlv(&tw.elements()[0]), Ok(Some(5)));
    assert_eq!(<Option<u16>>::tlv_not_found(), Ok(None));
}

#[test]
fn nullable_tells_null_from_a_value() {
    let mut tw = TLVWriter::new();
    Nullable::<u16>::Null.to_tlv(&mut tw, TagType::Context(5)).unwrap();
    Nullable::NotNull(3u16).to_tlv(&mut tw, TagType::Context(5)).unwrap();
    Nullable::NotNull(0x300u16).to_tlv(&mut tw, TagType::Context(5)).unwrap();
    let e = tw.elements();
    assert_eq!(e[0], el(TagType::Context(5), ElementType::Null));
    assert_eq!(e[1], el(TagType::Context(5), ElementType::U8(3)));
    assert_eq!(<Nullable<u16>>::from_tlv(&e[0]), Ok(Nullable::Null));
    assert_eq!(<Nullable<u16>>::from_tlv(&e[1]), Ok(Nullable::NotNull(3)));
    assert_eq!(<Nullable<u16>>::from_tlv(&e[2]), Ok(Nullable::NotNull(0x300)));
    assert_eq!(<Nullable<u16>>::from_tlv(&el(TagType::Anonymous, ElementType::True)), Err(Error::TLVTypeMismatch));
    assert!(Nullable::<u16>::Null.is_null());
    assert!(!Nullable::NotNull(1u16).is_null());
}

#[test]
fn arrays_round_trip_and_report_the_first_bad_member() {
    let v: Vec<u16> = vec![1, 0x200, 3];
    let mut tw = TLVWriter::new();
    v.to_tlv(&mut tw, TagType::Context(2)).unwrap();
    let e = &tw.elements()[0];
    assert_eq!(e.tag, TagType::Context(2));
    assert_eq!(e.array_members().map(|m| m.len()), Ok(3));
    assert_eq!(<Vec<u16>>::from_tlv(e), Ok(v));
    let empty: Vec<u16> = vec![];
    let mut tw = TLVWriter::new();
    empty.to_tlv(&mut tw, TagType::Anonymous).unwrap();
    assert_eq!(<Vec<u16>>::from_tlv(&tw.elements()[0]), Ok(vec![]));
    let bad = el(
        TagType::Anonymous,
        ElementType::Array(vec![el(TagType::Anonymous, ElementType::U8(1)), el(TagType::Anonymous, ElementType::Null)]),
    );
    assert_eq!(<Vec<u16>>::from_tlv(&bad), Err(Error::TLVTypeMismatch));
    let not_array = el(TagType::Anonymous, ElementType::Struct(vec![]));
    assert_eq!(<Vec<u16>>::from_tlv(&not_array), Err(Error::TLVTypeMismatch));
    assert_eq!(<Vec<u16>>::tlv_not_found(), Err(Error::TLVNotFound));
}

#[test]
fn status_codes_keep_their_numbers() {
    assert_eq!(IMStatusCode::Success.code(), 0);
    assert_eq!(IMStatusCode::Failure.code(), 1);
    assert_eq!(IMStatusCode::UnsupportedEndpoint.code(), 0x7f);
    assert_eq!(IMStatusCode::UnsupportedCommand.code(), 0x81);
    assert_eq!(IMStatusCode::UnsupportedAttribute.code(), 0x86);
    assert_eq!(IMStatusCode::UnsupportedCluster.code(), 0xc3);
    assert_eq!(IMStatusCode::FailSafeRequired.code(), 0xca);
    assert_eq!(IMStatusCode::from_code(0x87), Some(IMStatusCode::ConstraintError));
    assert_eq!(IMStatusCode::from_code(2), None);
    assert_eq!(IMStatusCode::from_code(0xffff), None);
    for code in 0..=0x1ffu16 {
        if let Some(s) = IMStatusCode::from_code(code) {
            assert_eq!(s.code(), code);
        }
    }
}

#[test]
fn status_code_round_trips_and_refuses_unknown_numbers() {
    let mut tw = TLVWriter::new();
    IMStatusCode::Busy.to_tlv(&mut tw, TagType::Context(0)).unwrap();
    assert_eq!(tw.elements()[0], el(TagType::Context(0), ElementType::U8(0x9c)));
    assert_eq!(IMStatusCode::from_tlv(&tw.elements()[0]), Ok(IMStatusCode::Busy));
    assert_eq!(IMStatusCode::from_tlv(&el(TagType::Anonymous, ElementType::U8(2))), Err(Error::Invalid));
    assert_eq!(IMStatusCode::from_tlv(&el(TagType::Anonymous, ElementType::U32(1))), Err(Error::TLVTypeMismatch));
}

#[test]
fn errors_map_to_statuses() {
    assert_eq!(IMStatusCode::from_error(Error::CommandNotFound), IMStatusCode::UnsupportedCommand);
    assert_eq!(IMStatusCode::from_error(Error::Invalid), IMStatusCode::Failure);
    assert_eq!(IMStatusCode::from_error(Error::NoSpace), IMStatusCode::Failure);
}
