use json_writer::{
    to_json_string, write_entries, JSONArrayWriter, JSONObjectWriter, PrettyJSONWriter, NULL,
};

#[test]
fn test_array() {
    let mut buffer = String::new();
    let mut array = JSONArrayWriter::new(&mut buffer);
    array.value(0u8);
    array.value(1i32);
    array.value("2");
    array.value("\"<script>1/2</script>\"");
    let mut nested_arr = array.array();
    nested_arr.value("nested");
    nested_arr.end();
    let mut nested_obj = array.object();
    nested_obj.value("ä\töü", "ä\töü");
    nested_obj.end();
    let nested_obj2 = array.object();
    nested_obj2.end();
    array.end();

    assert_eq!(
        buffer,
        "[0,1,\"2\",\"\\\"<script>1\\/2<\\/script>\\\"\",[\"nested\"],{\"ä\\töü\":\"ä\\töü\"},{}]"
    );
}

#[test]
fn test_array_range() {
    let bytes = b"ABC";
    assert_eq!(to_json_string(&bytes[..]), "[65,66,67]");

    let mut v = Vec::<u8>::new();
    v.extend_from_slice(bytes);
    assert_eq!(to_json_string(&v), "[65,66,67]");
}

fn map_to_json_string(map: &std::collections::HashMap<String, String>) -> String {
    let entries: Vec<(String, &String)> = map.iter().map(|(k, v)| (k.clone(), v)).collect();
    let mut buffer = String::new();
    write_entries(&mut buffer, &entries);
    buffer
}

#[test]
fn test_object() {
    let mut map = std::collections::HashMap::<String, String>::new();
    map.insert("a".to_owned(), "a".to_owned());
    assert_eq!(map_to_json_string(&map), "{\"a\":\"a\"}");
}

#[test]
fn test_basic_example() {
    let mut object_str = String::new();
    {
        let mut object_writer = JSONObjectWriter::new(&mut object_str);
        object_writer.value("number", 42i32);
        object_writer.end();
    }
    assert_eq!(&object_str, "{\"number\":42}");
}

fn to_json_string_f64(v: f64) -> String {
    let mut out = String::new();
    let mut buf = ryu::Buffer::new();
    let rendered = if v.is_finite() { buf.format_finite(v) } else { "" };
    json_writer::write_double(&mut out, v.to_bits(), rendered);
    out
}

#[test]
fn test_misc_examples() {
    // Values
    assert_eq!(to_json_string("Hello World\n"), "\"Hello World\\n\"");
    assert_eq!(to_json_string_f64(3.141592653589793), "3.141592653589793");
    assert_eq!(to_json_string(true), "true");
    assert_eq!(to_json_string(false), "false");
    assert_eq!(to_json_string(NULL), "null");

    // Options of values
    assert_eq!(to_json_string(Option::<u8>::Some(42)), "42");
    assert_eq!(to_json_string(Option::<u8>::None), "null");

    // Slices and vectors
    let numbers: [u8; 4] = [1, 2, 3, 4];
    assert_eq!(to_json_string(&numbers[..]), "[1,2,3,4]");
    let numbers_vec: Vec<u8> = vec![1u8, 2u8, 3u8, 4u8];
    assert_eq!(to_json_string(&numbers_vec), "[1,2,3,4]");
    let strings: [&str; 4] = ["a", "b", "c", "d"];
    assert_eq!(to_json_string(&strings[..]), "[\"a\",\"b\",\"c\",\"d\"]");

    // Hash-maps:
    let mut map = std::collections::HashMap::<String, String>::new();
    map.insert("Hello".to_owned(), "World".to_owned());
    assert_eq!(map_to_json_string(&map), "{\"Hello\":\"World\"}");

    // Objects:
    let mut object_str = String::new();
    let mut object_writer = JSONObjectWriter::new(&mut object_str);

    // Values
    object_writer.value("number", 42i32);
    object_writer.value("slice", &numbers[..]);

    // Nested arrays
    let mut nested_array = object_writer.array("array");
    nested_array.value(42u32);
    nested_array.value("?");
    nested_array.end();

    // Nested objects
    let nested_object = object_writer.object("object");
    nested_object.end();

    object_writer.end();
    assert_eq!(
        &object_str,
        "{\"number\":42,\"slice\":[1,2,3,4],\"array\":[42,\"?\"],\"object\":{}}"
    );
}

#[test]
fn test_duplicate_keys() {
    let mut object_str = String::new();
    {
        let mut object_writer = JSONObjectWriter::new(&mut object_str);
        object_writer.value("number", 42i32);
        object_writer.value("number", 43i32);
        object_writer.end();
    }
    // Duplicates are not checked, this is by design!
    assert_eq!(&object_str, "{\"number\":42,\"number\":43}");
}

#[test]
fn test_flush() {
    // this could also be a file writer.
    let mut writer = Vec::<u8>::new();

    let mut buffer = String::new();
    let mut array = JSONArrayWriter::new(&mut buffer);
    for i in 1i32..=1000000i32 {
        array.value(i);
        if array.buffer_len() > 2000 {
            // Manual flush
            std::io::Write::write_all(&mut writer, array.writer.as_bytes()).unwrap();
            array.writer.clear();
        }
    }
    array.end();
    std::io::Write::write_all(&mut writer, buffer.as_bytes()).unwrap();

    assert!(buffer.len() <= 4000, "Buffer too long");
    assert_eq!(
        &writer[writer.len() - b",999999,1000000]".len()..],
        b",999999,1000000]"
    );
}

#[test]
fn test_pretty() {
    let mut buffer = String::new();
    let mut formatter = PrettyJSONWriter::with_indent(&mut buffer, "   ");
    let mut writer = JSONObjectWriter::new(&mut formatter);
    {
        let mut nested_writer = writer.object("nested");
        nested_writer.value("a", 3);
        nested_writer.value("b", &vec![0, 1, 4]);
        nested_writer.end();
    }
    writer.value("c", &vec![true, false, true]);
    writer.value("d", NULL);
    // empty object
    writer.object("e").end();
    writer.array("f").end();
    writer.end();
    assert_eq!(
        formatter.buffer,
        r#"{
   "nested": {
      "a": 3,
      "b": [
         0,
         1,
         4
      ]
   },
   "c": [
      true,
      false,
      true
   ],
   "d": null,
   "e": {},
   "f": []
}"#
    );
}

#[test]
fn empty_scopes_compact_and_pretty() {
    let mut compact = String::new();
    JSONObjectWriter::new(&mut compact).end();
    JSONArrayWriter::new(&mut compact).end();
    assert_eq!(&compact, "{}[]");

    let mut buffer = String::new();
    let mut formatter = PrettyJSONWriter::new(&mut buffer);
    JSONObjectWriter::new(&mut formatter).end();
    JSONArrayWriter::new(&mut formatter).end();
    assert_eq!(&buffer, "{}[]");
}

#[test]
fn separators_once_per_later_member() {
    let mut buffer = String::new();
    let mut array = JSONArrayWriter::new(&mut buffer);
    array.value(1u8);
    array.value(2u8);
    array.value(3u8);
    array.end();
    assert_eq!(&buffer, "[1,2,3]");

    let mut pretty_buffer = String::new();
    let mut formatter = PrettyJSONWriter::with_indent(&mut pretty_buffer, " ");
    let mut pretty_array = JSONArrayWriter::new(&mut formatter);
    pretty_array.value(1u8);
    pretty_array.value(2u8);
    pretty_array.end();
    assert_eq!(&pretty_buffer, "[\n 1,\n 2\n]");
}

#[test]
fn entries_keep_duplicates_in_order() {
    let entries: Vec<(String, u8)> = vec![
        ("n".to_owned(), 42),
        ("n".to_owned(), 43),
    ];
    let mut buffer = String::new();
    write_entries(&mut buffer, &entries);
    assert_eq!(&buffer, "{\"n\":42,\"n\":43}");
}

#[test]
fn deep_nesting_stays_balanced() {
    fn nest(writer: &mut JSONObjectWriter<String>, levels: u32) {
        if levels == 0 {
            writer.value("leaf", 0u8);
        } else {
            let mut inner = writer.object("o");
            nest(&mut inner, levels - 1);
            inner.end();
        }
    }
    let mut buffer = String::new();
    let mut writer = JSONObjectWriter::new(&mut buffer);
    nest(&mut writer, 50);
    writer.end();
    assert_eq!(buffer.matches('{').count(), 51);
    assert_eq!(buffer.matches('}').count(), 51);
    assert!(buffer.ends_with(&"}".repeat(51)));
}

#[test]
fn write_key_low_level() {
    let mut buffer = String::new();
    let mut object_writer = JSONObjectWriter::new(&mut buffer);
    object_writer.write_key("k");
    object_writer.writer.push_str("7");
    object_writer.end();
    assert_eq!(&buffer, "{\"k\":7}");
}
