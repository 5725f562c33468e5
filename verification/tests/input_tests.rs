use minijvm::natives::call::{run_native, NativeCall};
use minijvm::natives::files::file_path_of;
use minijvm::natives::props::props_load_native;
use minijvm::natives::ready::reverse_ready_check;
use minijvm::natives::shuffle::{shuffle_native, shuffle_swap_count_exec};
use minijvm::runtime::error::{JvmError, RuntimeError};
use minijvm::runtime::frame::Frame;
use minijvm::runtime::heap::HeapObject;
use minijvm::runtime::jvm::Jvm;
use minijvm::runtime::method::Native;
use minijvm::runtime::value::Value;
use minijvm::stdlib::io::IoNative;
use minijvm::stdlib::util::UtilNative;

fn new_object(jvm: &mut Jvm, class: &str) -> Value {
    Value::ObjectRef(jvm.allocate(HeapObject::new(class.to_string())))
}

fn string(jvm: &mut Jvm, s: &str) -> Value {
    Value::ObjectRef(jvm.alloc_string(s.chars().collect()))
}

fn text(jvm: &Jvm, v: Value) -> String {
    match v {
        Value::ObjectRef(id) => jvm.heap[id].string_value.clone().unwrap().into_iter().collect(),
        _ => panic!("not a string: {:?}", v),
    }
}

/// Runs a library native with `locals` and `args` pushed in order; answers what it
/// pushed last, if anything.
fn run(jvm: &mut Jvm, n: Native, locals: Vec<Value>, args: &[Value]) -> Option<Value> {
    let mut frame = Frame::new(locals);
    for a in args {
        frame.push(*a);
    }
    match run_native(n, &mut frame, jvm) {
        NativeCall::Done(r) => {
            assert_eq!(r, Ok(()));
            frame.stack.last().copied()
        },
        NativeCall::Unmet => panic!("native refused its arguments"),
        NativeCall::External => panic!("native is external"),
    }
}

fn scanner(jvm: &mut Jvm, input: &str) -> Value {
    let source = string(jvm, input);
    let sc = new_object(jvm, "java.util.Scanner");
    run(jvm, Native::Util(UtilNative::ScannerInit), vec![sc, source], &[]);
    sc
}

fn util(jvm: &mut Jvm, n: UtilNative, this: Value) -> Value {
    run(jvm, Native::Util(n), vec![this], &[]).expect("nothing answered")
}

#[test]
fn scanner_reads_numbers_and_tokens_after_white_space() {
    let mut jvm = Jvm::new();
    let sc = scanner(&mut jvm, "  12\t-7 +3 abc\u{3000}def");
    assert_eq!(util(&mut jvm, UtilNative::ScannerNextInt, sc), Value::Int(12));
    assert_eq!(util(&mut jvm, UtilNative::ScannerNextInt, sc), Value::Int(-7));
    assert_eq!(util(&mut jvm, UtilNative::ScannerNextLong, sc), Value::Long(3));
    assert_eq!(util(&mut jvm, UtilNative::ScannerHasNext, sc), Value::Boolean(true));
    let t = util(&mut jvm, UtilNative::ScannerNext, sc);
    assert_eq!(text(&jvm, t), "abc");
    // the ideographic space separates tokens too
    let t = util(&mut jvm, UtilNative::ScannerNext, sc);
    assert_eq!(text(&jvm, t), "def");
    assert_eq!(util(&mut jvm, UtilNative::ScannerHasNext, sc), Value::Boolean(false));
    assert_eq!(util(&mut jvm, UtilNative::ScannerNext, sc), Value::Null);
}

#[test]
fn scanner_answers_zero_and_stays_put_without_a_number() {
    let mut jvm = Jvm::new();
    let sc = scanner(&mut jvm, "word 99999999999");
    assert_eq!(util(&mut jvm, UtilNative::ScannerNextInt, sc), Value::Int(0));
    let t = util(&mut jvm, UtilNative::ScannerNext, sc);
    assert_eq!(text(&jvm, t), "word");
    // too large for an int, fine for a long
    assert_eq!(util(&mut jvm, UtilNative::ScannerNextInt, sc), Value::Int(0));
    assert_eq!(util(&mut jvm, UtilNative::ScannerNextLong, sc), Value::Long(99999999999));
    assert_eq!(util(&mut jvm, UtilNative::ScannerNextLong, sc), Value::Long(0));
}

#[test]
fn scanner_reads_lines_then_null() {
    let mut jvm = Jvm::new();
    let sc = scanner(&mut jvm, "first line\nsecond");
    let l = util(&mut jvm, UtilNative::ScannerNextLine, sc);
    assert_eq!(text(&jvm, l), "first line");
    let l = util(&mut jvm, UtilNative::ScannerNextLine, sc);
    assert_eq!(text(&jvm, l), "second");
    assert_eq!(util(&mut jvm, UtilNative::ScannerNextLine, sc), Value::Null);
}

#[test]
fn scanner_line_after_a_token_skips_the_line_feed_and_one_more() {
    let mut jvm = Jvm::new();
    let sc = scanner(&mut jvm, "7\nabc\n");
    assert_eq!(util(&mut jvm, UtilNative::ScannerNextInt, sc), Value::Int(7));
    let l = util(&mut jvm, UtilNative::ScannerNextLine, sc);
    assert_eq!(text(&jvm, l), "bc");
}

#[test]
fn scanner_line_at_a_final_line_feed_is_refused() {
    let mut jvm = Jvm::new();
    let sc = scanner(&mut jvm, "7\n");
    assert_eq!(util(&mut jvm, UtilNative::ScannerNextInt, sc), Value::Int(7));
    let mut frame = Frame::new(vec![sc]);
    assert!(matches!(run_native(Native::Util(UtilNative::ScannerNextLine), &mut frame, &mut jvm), NativeCall::Unmet));
}

#[test]
fn file_keeps_its_path_and_names_its_last_component() {
    let mut jvm = Jvm::new();
    let p = string(&mut jvm, "/tmp/data/report.txt");
    let f = new_object(&mut jvm, "java.io.File");
    run(&mut jvm, Native::Io(IoNative::FileInit), vec![f, p], &[]);
    let got = run(&mut jvm, Native::Io(IoNative::FileGetPath), vec![f], &[]).unwrap();
    assert_eq!(text(&jvm, got), "/tmp/data/report.txt");
    let got = run(&mut jvm, Native::Io(IoNative::FileGetName), vec![f], &[]).unwrap();
    assert_eq!(text(&jvm, got), "report.txt");
    assert_eq!(file_path_of(&jvm, f).unwrap().into_iter().collect::<String>(), "/tmp/data/report.txt");
    // a path ending in `..` has no file name: the whole path is answered
    let q = string(&mut jvm, "a/..");
    let g = new_object(&mut jvm, "java.io.File");
    run(&mut jvm, Native::Io(IoNative::FileInit), vec![g, q], &[]);
    let got = run(&mut jvm, Native::Io(IoNative::FileGetName), vec![g], &[]).unwrap();
    assert_eq!(text(&jvm, got), "a/..");
}

#[test]
fn file_without_path_answers_null() {
    let mut jvm = Jvm::new();
    let f = new_object(&mut jvm, "java.io.File");
    run(&mut jvm, Native::Io(IoNative::FileInit), vec![f, Value::Int(3)], &[]);
    assert_eq!(run(&mut jvm, Native::Io(IoNative::FileGetPath), vec![f], &[]), Some(Value::Null));
    assert_eq!(file_path_of(&jvm, f), None);
}

fn properties(jvm: &mut Jvm) -> Value {
    let p = new_object(jvm, "java.util.Properties");
    run(jvm, Native::Util(UtilNative::PropertiesInit), vec![p], &[]);
    p
}

fn get_property(jvm: &mut Jvm, p: Value, key: &str) -> Value {
    let k = string(jvm, key);
    run(jvm, Native::Util(UtilNative::PropertiesGetProperty), vec![p], &[k]).unwrap()
}

#[test]
fn properties_load_keeps_trimmed_key_value_lines() {
    let mut jvm = Jvm::new();
    let p = properties(&mut jvm);
    let content: Vec<char> =
        "# comment\n  alpha = 1 \r\n\nbeta=two words\n=novalue\nnoequals\n! bang=x\ngamma=\ndelta = a=b".chars().collect();
    let mut frame = Frame::new(vec![p]);
    frame.push(Value::Null);
    assert_eq!(props_load_native(&mut frame, &mut jvm, &content), Ok(()));
    assert!(frame.stack.is_empty());
    match p {
        Value::ObjectRef(id) => assert_eq!(jvm.heap[id].get_field("size"), Some(Value::Int(4))),
        _ => unreachable!(),
    }
    let v = get_property(&mut jvm, p, "alpha");
    assert_eq!(text(&jvm, v), "1");
    let v = get_property(&mut jvm, p, "beta");
    assert_eq!(text(&jvm, v), "two words");
    let v = get_property(&mut jvm, p, "gamma");
    assert_eq!(text(&jvm, v), "");
    let v = get_property(&mut jvm, p, "delta");
    assert_eq!(text(&jvm, v), "a=b");
    assert_eq!(get_property(&mut jvm, p, "noequals"), Value::Null);
}

#[test]
fn properties_load_grows_its_arrays_past_ten_entries() {
    let mut jvm = Jvm::new();
    let p = properties(&mut jvm);
    let content: Vec<char> = (0..12).map(|i| format!("k{}=v{}\n", i, i)).collect::<String>().chars().collect();
    let mut frame = Frame::new(vec![p]);
    frame.push(Value::Null);
    assert_eq!(props_load_native(&mut frame, &mut jvm, &content), Ok(()));
    let v = get_property(&mut jvm, p, "k11");
    assert_eq!(text(&jvm, v), "v11");
}

#[test]
fn properties_load_on_dangling_receiver_is_null_pointer() {
    let mut jvm = Jvm::new();
    let mut frame = Frame::new(vec![Value::ObjectRef(99)]);
    frame.push(Value::Null);
    let content: Vec<char> = "a=b".chars().collect();
    assert_eq!(
        props_load_native(&mut frame, &mut jvm, &content),
        Err(JvmError::RuntimeError(RuntimeError::NullPointerException))
    );
}

fn int_list(jvm: &mut Jvm, xs: &[i32]) -> Value {
    let l = new_object(jvm, "java.util.ArrayList");
    run(jvm, Native::Util(UtilNative::ArrayListInit), vec![l], &[]);
    for x in xs {
        run(jvm, Native::Util(UtilNative::ArrayListAdd), vec![l], &[Value::Int(*x)]);
    }
    l
}

fn list_items(jvm: &mut Jvm, l: Value, n: i32) -> Vec<Value> {
    (0..n).map(|i| run(jvm, Native::Util(UtilNative::ArrayListGet), vec![l], &[Value::Int(i)]).unwrap()).collect()
}

#[test]
fn shuffle_swaps_each_slot_with_the_one_its_clock_reading_picks() {
    let mut jvm = Jvm::new();
    let l = int_list(&mut jvm, &[1, 2, 3, 4]);
    let mut frame = Frame::new(vec![]);
    frame.push(l);
    assert!(reverse_ready_check(&jvm, &frame));
    assert_eq!(shuffle_swap_count_exec(&jvm, &frame), 3);
    // slot 3 trades with (1 + 3) % 4 = 0, slot 2 with (1 + 2) % 3 = 0, slot 1 with (1 + 1) % 2 = 0
    assert_eq!(shuffle_native(&mut frame, &mut jvm, &vec![1, 1, 1]), Ok(()));
    let got = list_items(&mut jvm, l, 4);
    assert_eq!(got, [2, 3, 4, 1].iter().map(|x| Value::Int(*x)).collect::<Vec<_>>());
}

#[test]
fn shuffle_keeps_the_elements() {
    let mut jvm = Jvm::new();
    let l = int_list(&mut jvm, &[5, 6, 7, 8, 9]);
    let mut frame = Frame::new(vec![]);
    frame.push(l);
    let stamps: Vec<u128> = vec![1_700_000_000_123_456_789, 42, 1_700_000_000_987_654_321, 7];
    assert_eq!(shuffle_native(&mut frame, &mut jvm, &stamps), Ok(()));
    let mut got: Vec<i32> = list_items(&mut jvm, l, 5)
        .into_iter()
        .map(|v| match v {
            Value::Int(i) => i,
            _ => panic!("not an int"),
        })
        .collect();
    got.sort();
    assert_eq!(got, vec![5, 6, 7, 8, 9]);
}

#[test]
fn byte_array_output_stream_decodes_its_bytes_as_utf8() {
    let mut jvm = Jvm::new();
    let out = new_object(&mut jvm, "java.io.ByteArrayOutputStream");
    run(&mut jvm, Native::Io(IoNative::ByteArrayOutputStreamInit), vec![out], &[]);
    // 'é' in two bytes, 'A', then a byte that begins no character
    for b in [0xC3, 0xA9, 0x41, 0xFF] {
        run(&mut jvm, Native::Io(IoNative::ByteArrayOutputStreamWrite), vec![out, Value::Int(b)], &[]);
    }
    assert_eq!(run(&mut jvm, Native::Io(IoNative::ByteArrayOutputStreamSize), vec![out], &[]), Some(Value::Int(4)));
    let s = run(&mut jvm, Native::Io(IoNative::ByteArrayOutputStreamToString), vec![out], &[]).unwrap();
    assert_eq!(text(&jvm, s), "éA\u{FFFD}");
}
