use rspgod::change::{
    decide_change, make_change, tuple_sources, ChangeAction, TupleBuffer,
};
use rspgod::heap::{
    att_isnull, datum_unless_null, fastgetattr, heap_getattr, system_attribute_datum,
    AttributeLookup, HeapTuple, HeapTupleHeader, HeapTupleHeaderGetNatts, HeapTupleNoNulls,
    TupleDesc,
};
use rspgod::plugin::{add_two, pg_decode_startup, OutputPluginOptions, OutputPluginOutputType};
use rspgod::text::{c_bytes_to_string, parse_attname, pg_str_to_rs_str, try_parse_attname};
use rspgod::tuple::{TupleDecoder, TupleEvent, TupleStep};
use rspgod::types::{to_bool, CBool, CFalse, CTrue, Change, ChangeType, Field, Tuple};

fn field(name: &str, datatype: &str, value: Option<&str>) -> Field {
    Field {
        name: name.to_string(),
        datatype: datatype.to_string(),
        value: value.map(|v| v.to_string()),
    }
}

fn row(id: &str, name: &str) -> Tuple {
    vec![field("id", "integer", Some(id)), field("name", "text", Some(name))]
}

fn name_buffer(text: &[u8]) -> [CBool; 64] {
    let mut buf: [CBool; 64] = [0; 64];
    for (i, b) in text.iter().enumerate() {
        buf[i] = *b as CBool;
    }
    buf
}

/// Drives the decoder over a row whose columns are given as (name, type oid,
/// type name, value); a value of `None` is a null datum. Datums are the column index
/// plus one, and converting one gives the column's value.
fn decode_row(
    buffer_is_null: bool,
    columns: &[(&str, u32, Result<&str, &str>, Option<Result<&str, &str>>)],
) -> Result<Tuple, String> {
    let mut decoder = TupleDecoder::new(buffer_is_null, columns.len() as u32);
    loop {
        match decoder.next_step() {
            TupleStep::Describe { index } => {
                let (name, oid, type_label, _) = &columns[index as usize];
                decoder.step(TupleEvent::Described {
                    name: name.to_string(),
                    type_oid: *oid,
                    datatype_name: type_label.map(|t| t.to_string()).map_err(|e| e.to_string()),
                });
            }
            TupleStep::Fetch { index } => {
                let datum = columns[index as usize].3.map(|_| index as usize + 1);
                decoder.step(TupleEvent::Fetched { datum });
            }
            TupleStep::Convert { index, type_oid, datum } => {
                assert_eq!(datum, index as usize + 1);
                assert_eq!(type_oid, columns[index as usize].1);
                let value = columns[index as usize].3.unwrap();
                decoder.step(TupleEvent::Converted {
                    value: value.map(|v| v.to_string()).map_err(|e| e.to_string()),
                });
            }
            TupleStep::Finished => return decoder.finish(),
        }
    }
}

fn emitted(action_code: u32, new_buffer: Option<Tuple>, old_buffer: Option<Tuple>) -> Option<Change> {
    let action = ChangeAction::from_code(action_code);
    let decoded: Vec<Result<Tuple, String>> = tuple_sources(action)
        .iter()
        .map(|source| {
            let buffer = match source {
                TupleBuffer::New => &new_buffer,
                TupleBuffer::Old => &old_buffer,
            };
            match buffer {
                Some(r) => {
                    let columns: Vec<(&str, u32, Result<&str, &str>, Option<Result<&str, &str>>)> = r
                        .iter()
                        .map(|f| {
                            (
                                f.name.as_str(),
                                25,
                                Ok(f.datatype.as_str()),
                                f.value.as_ref().map(|v| Ok(v.as_str())),
                            )
                        })
                        .collect();
                    decode_row(false, &columns)
                }
                None => decode_row(true, &[]),
            }
        })
        .collect();
    decide_change("public".to_string(), "test_table".to_string(), action, decoded)
}

#[test]
fn to_bool_reads_c_booleans() {
    assert!(to_bool(CTrue));
    assert!(!to_bool(CFalse));
    assert!(to_bool(-1));
    assert!(to_bool(7));
}

#[test]
fn change_type_labels() {
    assert_eq!(ChangeType::Insert.name(), "Insert");
    assert_eq!(ChangeType::Delete.name(), "Delete");
    assert_eq!(ChangeType::Update.name(), "Update");
    assert_eq!(ChangeType::Error.name(), "Error");
}

#[test]
fn make_change_keeps_every_part() {
    let c = make_change(
        "public".to_string(),
        "t".to_string(),
        ChangeType::Update,
        Some(row("1", "a")),
        Some(row("1", "b")),
        Some("dbg".to_string()),
    )
    .unwrap();
    assert_eq!(c.namespace, "public");
    assert_eq!(c.relation_name, "t");
    assert_eq!(c.change_type, ChangeType::Update);
    assert_eq!(c.old_row.unwrap()[1].value.as_deref(), Some("a"));
    assert_eq!(c.new_row.unwrap()[1].value.as_deref(), Some("b"));
    assert_eq!(c.debug_message.as_deref(), Some("dbg"));
}

#[test]
fn change_action_codes() {
    assert_eq!(ChangeAction::from_code(0), ChangeAction::Insert);
    assert_eq!(ChangeAction::from_code(1), ChangeAction::Update);
    assert_eq!(ChangeAction::from_code(2), ChangeAction::Delete);
    assert_eq!(ChangeAction::from_code(3), ChangeAction::Other);
    assert_eq!(ChangeAction::from_code(5), ChangeAction::Other);
}

#[test]
fn tuple_sources_per_action() {
    assert_eq!(tuple_sources(ChangeAction::Insert), vec![TupleBuffer::New]);
    assert_eq!(tuple_sources(ChangeAction::Update), vec![TupleBuffer::New, TupleBuffer::New]);
    assert_eq!(tuple_sources(ChangeAction::Delete), vec![TupleBuffer::Old]);
    assert!(tuple_sources(ChangeAction::Other).is_empty());
}

#[test]
fn decide_insert() {
    let c = decide_change("s".to_string(), "r".to_string(), ChangeAction::Insert, vec![Ok(row("1", "x"))])
        .unwrap();
    assert_eq!(c.change_type, ChangeType::Insert);
    assert_eq!(c.namespace, "s");
    assert_eq!(c.relation_name, "r");
    assert!(c.old_row.is_none());
    assert_eq!(c.new_row.unwrap()[0].value.as_deref(), Some("1"));
    assert!(c.debug_message.is_none());
}

#[test]
fn decide_insert_failed_row() {
    let c = decide_change("s".to_string(), "r".to_string(), ChangeAction::Insert, vec![Err("bad".to_string())]);
    assert!(c.is_none());
}

#[test]
fn decide_update_takes_new_then_old() {
    let c = decide_change(
        "s".to_string(),
        "r".to_string(),
        ChangeAction::Update,
        vec![Ok(row("1", "new")), Ok(row("1", "old"))],
    )
    .unwrap();
    assert_eq!(c.change_type, ChangeType::Update);
    assert_eq!(c.new_row.unwrap()[1].value.as_deref(), Some("new"));
    assert_eq!(c.old_row.unwrap()[1].value.as_deref(), Some("old"));
}

#[test]
fn decide_update_with_one_failed_row() {
    let c = decide_change(
        "s".to_string(),
        "r".to_string(),
        ChangeAction::Update,
        vec![Ok(row("1", "new")), Err("bad".to_string())],
    );
    assert!(c.is_none());
    let c = decide_change(
        "s".to_string(),
        "r".to_string(),
        ChangeAction::Update,
        vec![Err("bad".to_string()), Ok(row("1", "old"))],
    );
    assert!(c.is_none());
}

#[test]
fn decide_delete() {
    let c = decide_change("s".to_string(), "r".to_string(), ChangeAction::Delete, vec![Ok(row("2", "y"))])
        .unwrap();
    assert_eq!(c.change_type, ChangeType::Delete);
    assert!(c.new_row.is_none());
    assert_eq!(c.old_row.unwrap()[0].value.as_deref(), Some("2"));
}

#[test]
fn decide_other_action_emits_nothing() {
    assert!(decide_change("s".to_string(), "r".to_string(), ChangeAction::Other, vec![]).is_none());
}

#[test]
fn c_bytes_to_string_valid_and_invalid() {
    assert_eq!(c_bytes_to_string(b"hello").unwrap(), "hello");
    assert_eq!(c_bytes_to_string(b"").unwrap(), "");
    assert_eq!(c_bytes_to_string("caf\u{e9}".as_bytes()).unwrap(), "caf\u{e9}");
    assert!(c_bytes_to_string(&[0x66, 0xff, 0x66]).is_err());
    assert!(c_bytes_to_string(&[0xe2, 0x82]).is_err());
}

#[test]
fn c_bytes_to_string_gives_text_back() {
    let text = "na\u{ef}ve \u{1f600}";
    assert_eq!(c_bytes_to_string(text.as_bytes()).unwrap(), text);
}

#[test]
fn parse_attname_stops_at_nul() {
    assert_eq!(parse_attname(name_buffer(b"id")), "id");
    assert_eq!(parse_attname(name_buffer(b"first_name")), "first_name");
    assert_eq!(parse_attname(name_buffer(b"")), "");
    assert_eq!(parse_attname(name_buffer(b"ab\0cd")), "ab");
    assert_eq!(parse_attname(name_buffer("\u{e9}t\u{e9}".as_bytes())), "\u{e9}t\u{e9}");
}

#[test]
fn parse_attname_without_nul() {
    let full = [b'a'; 64];
    let name = parse_attname(name_buffer(&full));
    assert_eq!(name.len(), 64);
    assert!(name.chars().all(|c| c == 'a'));
}

#[test]
fn try_parse_attname_rejects_malformed_buffer() {
    assert!(try_parse_attname(name_buffer(&[b'i', b'd', 0, 0xff])).is_none());
    assert!(try_parse_attname(name_buffer(&[0xc3])).is_none());
    assert_eq!(try_parse_attname(name_buffer(b"id")).as_deref(), Some("id"));
}

fn header(t_infomask2: u16, t_infomask: u16, t_bits: Vec<u8>) -> HeapTupleHeader {
    HeapTupleHeader { t_infomask2, t_infomask, t_bits }
}

#[test]
fn header_natts_mask() {
    assert_eq!(HeapTupleHeaderGetNatts(&header(3, 0, vec![])), 3);
    assert_eq!(HeapTupleHeaderGetNatts(&header(0xFFFF, 0, vec![])), 0x07FF);
    assert_eq!(HeapTupleHeaderGetNatts(&header(0x2805, 0, vec![])), 5);
}

#[test]
fn tuple_no_nulls_flag() {
    let plain = HeapTuple { t_data: header(2, 0x0002, vec![]), values: vec![1, 2] };
    let with_null = HeapTuple { t_data: header(2, 0x0003, vec![0b01]), values: vec![1, 2] };
    assert!(HeapTupleNoNulls(&plain));
    assert!(!HeapTupleNoNulls(&with_null));
}

#[test]
fn att_isnull_reads_the_bitmap() {
    let bits = [0b0000_0101u8, 0b1000_0000u8];
    assert!(!att_isnull(0, &bits));
    assert!(att_isnull(1, &bits));
    assert!(!att_isnull(2, &bits));
    assert!(att_isnull(8, &bits));
    assert!(!att_isnull(15, &bits));
}

#[test]
fn heap_getattr_lookups() {
    let desc = TupleDesc { natts: 3 };
    let no_nulls = HeapTuple { t_data: header(3, 0, vec![]), values: vec![10, 20, 30] };
    assert_eq!(heap_getattr(&no_nulls, 0, &desc), AttributeLookup::SystemAttribute);
    assert_eq!(heap_getattr(&no_nulls, 1, &desc), AttributeLookup::Found(Some(10)));
    assert_eq!(heap_getattr(&no_nulls, 3, &desc), AttributeLookup::Found(Some(30)));
    assert_eq!(heap_getattr(&no_nulls, 4, &desc), AttributeLookup::Found(None));
    // Attribute 2 is null: bit 1 of the bitmap is clear.
    let second_null = HeapTuple { t_data: header(3, HEAP_HASNULL_BIT, vec![0b101]), values: vec![10, 0, 30] };
    assert_eq!(heap_getattr(&second_null, 1, &desc), AttributeLookup::Found(Some(10)));
    assert_eq!(heap_getattr(&second_null, 2, &desc), AttributeLookup::Found(None));
    assert_eq!(heap_getattr(&second_null, 3, &desc), AttributeLookup::Found(Some(30)));
}

const HEAP_HASNULL_BIT: u16 = 0x0001;

#[test]
fn fastgetattr_fetches_values() {
    let desc = TupleDesc { natts: 2 };
    let no_nulls = HeapTuple { t_data: header(2, 0, vec![]), values: vec![7, 8] };
    assert_eq!(fastgetattr(&no_nulls, 1, &desc), Some(7));
    assert_eq!(fastgetattr(&no_nulls, 2, &desc), Some(8));
    let first_null = HeapTuple { t_data: header(2, HEAP_HASNULL_BIT, vec![0b10]), values: vec![0, 8] };
    assert_eq!(fastgetattr(&first_null, 1, &desc), None);
    assert_eq!(fastgetattr(&first_null, 2, &desc), Some(8));
}

#[test]
fn system_attribute_and_null_flags() {
    assert_eq!(system_attribute_datum(42, CFalse), Some(42));
    assert_eq!(system_attribute_datum(42, CTrue), None);
    assert_eq!(datum_unless_null(42, CFalse), Some(42));
    assert_eq!(datum_unless_null(42, CTrue), None);
}

#[test]
fn pg_str_to_rs_str_reads_text() {
    assert_eq!(pg_str_to_rs_str(b"public"), "public");
    assert_eq!(pg_str_to_rs_str("r\u{e9}sum\u{e9}".as_bytes()), "r\u{e9}sum\u{e9}");
    assert_eq!(pg_str_to_rs_str(b""), "");
}

#[test]
fn decoder_reads_every_column_in_order() {
    let t = decode_row(
        false,
        &[
            ("id", 23, Ok("integer"), Some(Ok("1"))),
            ("name", 25, Ok("text"), None),
            ("score", 701, Ok("double precision"), Some(Ok("3.2"))),
        ],
    )
    .unwrap();
    assert_eq!(t.len(), 3);
    assert_eq!(t[0].name, "id");
    assert_eq!(t[0].datatype, "integer");
    assert_eq!(t[0].value.as_deref(), Some("1"));
    assert_eq!(t[1].name, "name");
    assert_eq!(t[1].value, None);
    assert_eq!(t[2].datatype, "double precision");
    assert_eq!(t[2].value.as_deref(), Some("3.2"));
}

#[test]
fn decoder_without_buffer() {
    let e = decode_row(true, &[("id", 23, Ok("integer"), Some(Ok("1")))]).unwrap_err();
    assert_eq!(e, "pg_typel_to_rspgod_tuple: Tuple buffer is null");
}

#[test]
fn decoder_without_columns() {
    assert!(decode_row(false, &[]).unwrap().is_empty());
}

#[test]
fn decoder_stops_at_type_label_failure() {
    let e = decode_row(
        false,
        &[
            ("id", 23, Ok("integer"), Some(Ok("1"))),
            ("name", 25, Err("bad type name"), Some(Ok("x"))),
            ("other", 25, Err("never read"), None),
        ],
    )
    .unwrap_err();
    assert_eq!(e, "bad type name");
}

#[test]
fn decoder_stops_at_conversion_failure() {
    let e = decode_row(
        false,
        &[
            ("id", 23, Ok("integer"), Some(Err("bad value"))),
            ("name", 25, Err("never read"), None),
        ],
    )
    .unwrap_err();
    assert_eq!(e, "bad value");
}

#[test]
fn decoder_asks_in_protocol_order() {
    let mut d = TupleDecoder::new(false, 1);
    assert_eq!(d.next_step(), TupleStep::Describe { index: 0 });
    d.step(TupleEvent::Described { name: "id".to_string(), type_oid: 23, datatype_name: Ok("integer".to_string()) });
    assert_eq!(d.next_step(), TupleStep::Fetch { index: 0 });
    d.step(TupleEvent::Fetched { datum: Some(99) });
    assert_eq!(d.next_step(), TupleStep::Convert { index: 0, type_oid: 23, datum: 99 });
    d.step(TupleEvent::Converted { value: Ok("7".to_string()) });
    assert_eq!(d.next_step(), TupleStep::Finished);
    let t = d.finish().unwrap();
    assert_eq!(t[0].value.as_deref(), Some("7"));
}

#[test]
fn startup_selects_text_output() {
    let mut opt = OutputPluginOptions { output_type: OutputPluginOutputType::OUTPUT_PLUGIN_BINARY_OUTPUT };
    pg_decode_startup(&mut opt);
    assert_eq!(opt.output_type, OutputPluginOutputType::OUTPUT_PLUGIN_TEXTUAL_OUTPUT);
}

#[test]
fn add_two_adds() {
    assert_eq!(add_two(1), 3);
    assert_eq!(add_two(u32::MAX - 2), u32::MAX);
}

/// The changes emitted for a sequence of (action code, new buffer, old buffer).
fn stream(changes: Vec<(u32, Option<Tuple>, Option<Tuple>)>) -> Vec<Change> {
    changes.into_iter().filter_map(|(code, new, old)| emitted(code, new, old)).collect()
}

#[test]
fn basic_sanity_test() {
    let out = stream(vec![
        (0, Some(row("1", "Michael Baker")), None),
        (0, Some(row("2", "Josh Cheek")), None),
    ]);
    assert_eq!(out.len(), 2);
}

#[test]
fn tests_sanity_test() {
    let out = stream(vec![
        (0, Some(row("1", "Michael Baker")), None),
        (0, Some(row("2", "Josh Cheek")), None),
    ]);
    assert_eq!(out.len(), 2);
    assert_eq!(out[1].new_row.as_ref().unwrap()[1].value.as_deref(), Some("Josh Cheek"));
}

#[test]
fn basic_basic_insert() {
    let out = stream(vec![(0, Some(row("1", "Michael Baker")), None)]);
    assert_eq!(out.len(), 1);
    assert_eq!(out[0].change_type.name(), "Insert");
}

#[test]
fn tests_basic_insert() {
    let out = stream(vec![(0, Some(row("1", "Michael Baker")), None)]);
    assert_eq!(out.len(), 1);
    assert_eq!(out[0].change_type.name(), "Insert");
}

#[test]
fn basic_basic_delete() {
    let out = stream(vec![
        (0, Some(row("1", "Michael Baker")), None),
        (2, None, Some(row("1", "Michael Baker"))),
    ]);
    assert_eq!(out.len(), 2);
    assert_eq!(out[1].change_type.name(), "Delete");
}

#[test]
fn tests_basic_delete() {
    let out = stream(vec![
        (0, Some(row("1", "Michael Baker")), None),
        (2, None, Some(row("1", "Michael Baker"))),
    ]);
    assert_eq!(out.len(), 2);
    assert_eq!(out[1].change_type.name(), "Delete");
}

#[test]
fn basic_basic_update() {
    let out = stream(vec![
        (0, Some(row("1", "Michael Baker")), None),
        (1, Some(row("1", "Bichael Maker")), None),
    ]);
    assert_eq!(out.len(), 2);
    assert_eq!(out[1].change_type.name(), "Update");
    // The old row is read from the new buffer too.
    assert_eq!(out[1].old_row.as_ref().unwrap()[1].value.as_deref(), Some("Bichael Maker"));
}

#[test]
fn tests_basic_update() {
    let out = stream(vec![
        (0, Some(row("1", "Michael Baker")), None),
        (1, Some(row("1", "Bichael Maker")), None),
    ]);
    assert_eq!(out.len(), 2);
    assert_eq!(out[1].change_type.name(), "Update");
    assert_eq!(out[1].new_row.as_ref().unwrap()[1].value.as_deref(), Some("Bichael Maker"));
}

#[test]
fn edge_cases_delete_without_primary_key() {
    // Without a primary key the server hands no old row for a delete: nothing is emitted.
    let out = stream(vec![(0, Some(row("1", "hello")), None), (2, None, None)]);
    assert_eq!(out.len(), 1);
    assert_eq!(out[0].change_type.name(), "Insert");
}

#[test]
fn tests_delete_without_primary_key() {
    let out = stream(vec![(0, Some(row("1", "hello")), None), (2, None, None)]);
    assert_eq!(out.len(), 1);
}

fn all_types_row(id: &str) -> Tuple {
    vec![
        field("id", "integer", Some(id)),
        field("abool", "boolean", Some("t")),
        field("abigint", "bigint", Some("1")),
        field("somebits", "bit(3)", Some("101")),
        field("somebytes", "bytea", Some("\\x0123456789abcdef")),
        field("adate", "date", Some("1999-01-08")),
        field("afloat", "double precision", Some("1.2")),
        field("somejson", "json", Some("{\"a\":123}")),
        field("anumber", "numeric(2,2)", Some("0.10")),
        field("sometext", "text", None),
        field("auuid", "uuid", Some("a0eebc99-9c0b-4ef8-bb6d-6bb9bd380a11")),
    ]
}

#[test]
fn works_with_all_datatypes() {
    let out = stream(vec![
        (0, Some(all_types_row("1")), None),
        (1, Some(all_types_row("2")), None),
        (2, None, Some(all_types_row("2"))),
    ]);
    assert_eq!(out.len(), 3);
    assert_eq!(out[0].change_type.name(), "Insert");
    assert_eq!(out[1].change_type.name(), "Update");
    assert_eq!(out[2].change_type.name(), "Delete");
    let new_row = out[1].new_row.as_ref().unwrap();
    assert_eq!(new_row.len(), 11);
    assert_eq!(new_row[0].value.as_deref(), Some("2"));
    assert_eq!(new_row[9].value, None);
    assert_eq!(new_row[7].datatype, "json");
}
