use byteorder::{ByteOrder, LittleEndian};
use tf2_gc::request::{
    MSG_CRAFT, MSG_DELETE, MSG_REMOVE_ITEM_NAME, MSG_SET_ITEM_STYLE, MSG_SET_SINGLE_ITEM_POSITION,
};
use tf2_gc::team_fortress_2::MAX_CRAFT_ITEMS;
use tf2_gc::{TeamFortress2, ANY_RECIPE, JOBID_NONE};

fn header(job_id: u64) -> Vec<u8> {
    let mut h = vec![1u8, 0];
    h.extend_from_slice(&[0xff; 8]);
    h.extend_from_slice(&job_id.to_le_bytes());
    h
}

#[test]
fn remove_item_name_layout() {
    let mut tf2 = TeamFortress2::new();
    let m = tf2.remove_item_name(12345);
    assert_eq!(m.job_id, 1);
    assert_eq!(m.msg_type, MSG_REMOVE_ITEM_NAME);
    assert!(!m.is_protobuf);
    assert_eq!(m.app_id, 440);
    let mut expected = header(1);
    expected.extend_from_slice(&12345u64.to_le_bytes());
    expected.extend_from_slice(&0u32.to_le_bytes());
    assert_eq!(m.payload, expected);
    assert_eq!(m.payload.len(), 18 + 12);
}

#[test]
fn remove_item_description_layout() {
    let mut tf2 = TeamFortress2::new();
    let m = tf2.remove_item_description(77);
    assert_eq!(m.msg_type, MSG_REMOVE_ITEM_NAME);
    assert_eq!(&m.payload[18..], &[77, 0, 0, 0, 0, 0, 0, 0, 1, 0, 0, 0]);
}

#[test]
fn delete_style_and_position_layouts() {
    let mut tf2 = TeamFortress2::new();
    let d = tf2.delete_item(0x0102030405060708);
    assert_eq!(d.msg_type, MSG_DELETE);
    assert_eq!(&d.payload[18..], &[8, 7, 6, 5, 4, 3, 2, 1]);
    let s = tf2.set_style(9, 3);
    assert_eq!(s.msg_type, MSG_SET_ITEM_STYLE);
    assert_eq!(&s.payload[18..], &[9, 0, 0, 0, 0, 0, 0, 0, 3, 0, 0, 0]);
    let p = tf2.set_position(9, 0x8000_0001);
    assert_eq!(p.msg_type, MSG_SET_SINGLE_ITEM_POSITION);
    assert_eq!(&p.payload[18..], &[9, 0, 0, 0, 0, 0, 0, 0, 1, 0, 0, 0x80, 0, 0, 0, 0]);
    assert_eq!((d.job_id, s.job_id, p.job_id), (1, 2, 3));
}

#[test]
fn craft_recipe_layout() {
    let mut tf2 = TeamFortress2::new();
    let m = tf2.craft_recipe(5, &[1, 2]);
    assert_eq!(m.msg_type, MSG_CRAFT);
    let body = &m.payload[18..];
    assert_eq!(
        body,
        &[5, 0, 2, 0, 1, 0, 0, 0, 0, 0, 0, 0, 2, 0, 0, 0, 0, 0, 0, 0]
    );
    assert_eq!(body.len(), 20);
}

#[test]
fn craft_matches_any_recipe() {
    let mut a = TeamFortress2::new();
    let mut b = TeamFortress2::new();
    let items = [10u64, 20, 30];
    let x = a.craft(&items);
    let y = b.craft_recipe(-2, &items);
    assert_eq!(x.payload, y.payload);
    assert_eq!(ANY_RECIPE, -2);
    assert_eq!(&x.payload[18..20], &[0xfe, 0xff]);
}

#[test]
fn craft_with_no_items() {
    let mut tf2 = TeamFortress2::new();
    let m = tf2.craft(&[]);
    assert_eq!(&m.payload[18..], &[0xfe, 0xff, 0, 0]);
}

#[test]
fn raw_header_decodes() {
    let mut tf2 = TeamFortress2::new();
    tf2.delete_item(1);
    let m = tf2.set_style(4, 5);
    assert_eq!(m.payload.len(), 18 + 12);
    assert_eq!(LittleEndian::read_u16(&m.payload[0..2]), 1);
    assert_eq!(LittleEndian::read_u64(&m.payload[2..10]), JOBID_NONE);
    assert_eq!(LittleEndian::read_u64(&m.payload[10..18]), 2);
}

#[test]
fn repeated_request_differs_only_in_source_job() {
    let mut tf2 = TeamFortress2::new();
    let a = tf2.craft_recipe(7, &[3, 4, 5]);
    let b = tf2.craft_recipe(7, &[3, 4, 5]);
    assert_eq!(b.job_id, a.job_id + 1);
    assert_eq!(a.payload.len(), b.payload.len());
    for i in 0..a.payload.len() {
        if !(10..18).contains(&i) {
            assert_eq!(a.payload[i], b.payload[i]);
        }
    }
    assert_eq!(LittleEndian::read_u64(&a.payload[10..18]), a.job_id);
    assert_eq!(LittleEndian::read_u64(&b.payload[10..18]), b.job_id);
}

#[test]
fn craft_with_the_most_items() {
    let mut tf2 = TeamFortress2::new();
    let items = vec![7u64; MAX_CRAFT_ITEMS];
    let m = tf2.craft(&items);
    assert_eq!(&m.payload[18..22], &[0xfe, 0xff, 0xff, 0x7f]);
    assert_eq!(m.payload.len(), 18 + 4 + 8 * MAX_CRAFT_ITEMS);
    assert_eq!(LittleEndian::read_i16(&m.payload[20..22]) as usize, items.len());
}
