use matter::codec::Nullable;
use matter::ib::{attr_list_write, list_operations, ListOperation};
use matter::objects::AttrDetails;
use matter::status::IMStatusCode;
use matter::tlv::{ElementType, TLVElement, TagType};

fn attr(list_index: Option<Nullable<u16>>) -> AttrDetails {
    AttrDetails { attr_id: 0, list_index, fab_idx: 1, fab_filter: false }
}

fn scalar(v: u8) -> TLVElement {
    TLVElement::new(TagType::Anonymous, ElementType::U8(v))
}

fn array(items: Vec<TLVElement>) -> TLVElement {
    TLVElement::new(TagType::Context(2), ElementType::Array(items))
}

fn run(
    list_index: Option<Nullable<u16>>,
    data: &TLVElement,
    reject_at: Option<usize>,
) -> (Result<(), IMStatusCode>, Vec<(ListOperation, TLVElement)>) {
    let mut seen: Vec<(ListOperation, TLVElement)> = Vec::new();
    let r = attr_list_write(&attr(list_index), data, |op, e| {
        if reject_at == Some(seen.len()) {
            return Err(IMStatusCode::ConstraintError);
        }
        seen.push((op, e.retagged(e.tag)));
        Ok(())
    });
    (r, seen)
}

#[test]
fn index_with_null_payload_deletes_the_item() {
    let data = TLVElement::new(TagType::Context(2), ElementType::Null);
    let (r, seen) = run(Some(Nullable::NotNull(3)), &data, None);
    assert_eq!(r, Ok(()));
    assert_eq!(seen, vec![(ListOperation::DeleteItem(3), data)]);
}

#[test]
fn index_with_scalar_payload_edits_the_item() {
    let data = scalar(42);
    let (r, seen) = run(Some(Nullable::NotNull(3)), &data, None);
    assert_eq!(r, Ok(()));
    assert_eq!(seen, vec![(ListOperation::EditItem(3), scalar(42))]);
}

#[test]
fn index_with_array_payload_edits_without_iterating() {
    let data = array(vec![scalar(1), scalar(2)]);
    let (r, seen) = run(Some(Nullable::NotNull(0)), &data, None);
    assert_eq!(r, Ok(()));
    assert_eq!(seen, vec![(ListOperation::EditItem(0), array(vec![scalar(1), scalar(2)]))]);
}

#[test]
fn array_payload_replaces_the_list_in_order() {
    let data = array(vec![scalar(10), scalar(20), scalar(30)]);
    let (r, seen) = run(None, &data, None);
    assert_eq!(r, Ok(()));
    assert_eq!(
        seen,
        vec![
            (ListOperation::DeleteList, array(vec![scalar(10), scalar(20), scalar(30)])),
            (ListOperation::AddItem, scalar(10)),
            (ListOperation::AddItem, scalar(20)),
            (ListOperation::AddItem, scalar(30)),
        ]
    );
}

#[test]
fn empty_array_payload_only_clears_the_list() {
    let data = array(vec![]);
    let (r, seen) = run(None, &data, None);
    assert_eq!(r, Ok(()));
    assert_eq!(seen, vec![(ListOperation::DeleteList, array(vec![]))]);
}

#[test]
fn scalar_payload_without_index_adds_one_item() {
    let data = scalar(7);
    let (r, seen) = run(None, &data, None);
    assert_eq!(r, Ok(()));
    assert_eq!(seen, vec![(ListOperation::AddItem, scalar(7))]);
}

#[test]
fn struct_payload_without_index_adds_one_item() {
    let data = TLVElement::new(TagType::Anonymous, ElementType::Struct(vec![scalar(1)]));
    let (r, seen) = run(None, &data, None);
    assert_eq!(r, Ok(()));
    assert_eq!(seen.len(), 1);
    assert_eq!(seen[0].0, ListOperation::AddItem);
    assert_eq!(seen[0].1, data);
}

#[test]
fn null_index_addresses_the_whole_list() {
    let (r, seen) = run(Some(Nullable::Null), &scalar(7), None);
    assert_eq!(r, Ok(()));
    assert_eq!(seen, vec![(ListOperation::AddItem, scalar(7))]);
    let data = array(vec![scalar(1)]);
    let (r, seen) = run(Some(Nullable::Null), &data, None);
    assert_eq!(r, Ok(()));
    assert_eq!(seen, vec![(ListOperation::DeleteList, array(vec![scalar(1)])), (ListOperation::AddItem, scalar(1))]);
}

#[test]
fn rejecting_the_second_element_stops_after_two_effects() {
    let data = array(vec![scalar(10), scalar(20), scalar(30)]);
    let mut calls = 0usize;
    let mut seen: Vec<(ListOperation, TLVElement)> = Vec::new();
    let r = attr_list_write(&attr(None), &data, |op, e| {
        calls += 1;
        if op == ListOperation::AddItem && e.u8() == Ok(20) {
            return Err(IMStatusCode::ConstraintError);
        }
        seen.push((op, e.retagged(e.tag)));
        Ok(())
    });
    assert_eq!(r, Err(IMStatusCode::ConstraintError));
    assert_eq!(
        seen,
        vec![
            (ListOperation::DeleteList, array(vec![scalar(10), scalar(20), scalar(30)])),
            (ListOperation::AddItem, scalar(10)),
        ]
    );
    assert_eq!(calls, 3);
}

#[test]
fn rejecting_the_clearing_stops_at_once() {
    let data = array(vec![scalar(10), scalar(20)]);
    let (r, seen) = run(None, &data, Some(0));
    assert_eq!(r, Err(IMStatusCode::ConstraintError));
    assert!(seen.is_empty());
}

#[test]
fn rejecting_a_single_operation_reports_its_status() {
    let mut calls = 0usize;
    let r = attr_list_write(&attr(Some(Nullable::NotNull(1))), &scalar(1), |_, _| {
        calls += 1;
        Err(IMStatusCode::UnsupportedWrite)
    });
    assert_eq!(r, Err(IMStatusCode::UnsupportedWrite));
    assert_eq!(calls, 1);
    let r = attr_list_write(&attr(None), &scalar(1), |_, _| Err(IMStatusCode::InvalidDataType));
    assert_eq!(r, Err(IMStatusCode::InvalidDataType));
}

#[test]
fn plan_lists_the_operations_with_their_elements() {
    let data = array(vec![scalar(10), scalar(20)]);
    let plan = list_operations(&attr(None), &data);
    assert_eq!(
        plan,
        vec![
            (ListOperation::DeleteList, &data),
            (ListOperation::AddItem, &scalar(10)),
            (ListOperation::AddItem, &scalar(20)),
        ]
    );
    let null = TLVElement::new(TagType::Anonymous, ElementType::Null);
    assert_eq!(list_operations(&attr(Some(Nullable::NotNull(9))), &null), vec![(ListOperation::DeleteItem(9), &null)]);
    assert_eq!(list_operations(&attr(Some(Nullable::NotNull(9))), &data), vec![(ListOperation::EditItem(9), &data)]);
    assert_eq!(list_operations(&attr(Some(Nullable::Null)), &null), vec![(ListOperation::AddItem, &null)]);
    assert_eq!(list_operations(&attr(None), &scalar(1)), vec![(ListOperation::AddItem, &scalar(1))]);
}
