use minijvm::natives::call::{run_native, NativeCall};
use minijvm::natives::lang::builder_append_shown_native;
use minijvm::natives::clock::{current_time_millis_native, random_bounded_native, uuid_text_exec};
use minijvm::natives::regex::regex_match_text;
use minijvm::natives::sorting::sort_key_exec;
use minijvm::natives::texts::date_text_exec;
use minijvm::runtime::error::{JvmError, RuntimeError, ThreadingError};
use minijvm::runtime::frame::Frame;
use minijvm::runtime::heap::HeapObject;
use minijvm::runtime::jvm::Jvm;
use minijvm::runtime::method::Native;
use minijvm::runtime::value::Value;
use minijvm::stdlib::base64::{base64_decode_exec, base64_encode_exec};
use minijvm::stdlib::io::IoNative;
use minijvm::stdlib::lang::LangNative;
use minijvm::stdlib::math::MathNative;
use minijvm::stdlib::numtext::parse_integer_exec;
use minijvm::stdlib::regex::RegexNative;
use minijvm::stdlib::util::UtilNative;
use minijvm::threading::monitor::Monitor;
use minijvm::threading::scheduler::{Scheduler, SchedulingPolicy};

fn string(jvm: &mut Jvm, s: &str) -> Value {
    Value::ObjectRef(jvm.alloc_string(s.chars().collect()))
}

fn text(jvm: &Jvm, v: Value) -> String {
    match v {
        Value::ObjectRef(id) => jvm.heap[id].string_value.clone().unwrap().into_iter().collect(),
        _ => panic!("not a string: {:?}", v),
    }
}

fn run(jvm: &mut Jvm, n: Native, locals: Vec<Value>, args: &[Value]) -> (Result<(), JvmError>, Vec<Value>) {
    let mut frame = Frame::new(locals);
    for a in args {
        frame.push(*a);
    }
    match run_native(n, &mut frame, jvm) {
        NativeCall::Done(r) => (r, frame.stack.clone()),
        NativeCall::Unmet => panic!("native refused its arguments"),
        NativeCall::External => panic!("native is external"),
    }
}

#[test]
fn string_builder_appends_text_numbers_and_chars() {
    let mut jvm = Jvm::new();
    let sb = Value::ObjectRef(jvm.allocate(HeapObject::new("java.lang.StringBuilder".to_string())));
    run(&mut jvm, Native::Lang(LangNative::StringBuilderInit), vec![sb], &[]).0.unwrap();
    let hi = string(&mut jvm, "hé");
    run(&mut jvm, Native::Lang(LangNative::StringBuilderAppendString), vec![sb, hi], &[]).0.unwrap();
    run(&mut jvm, Native::Lang(LangNative::StringBuilderAppendInt), vec![sb, Value::Int(-42)], &[]).0.unwrap();
    run(&mut jvm, Native::Lang(LangNative::StringBuilderAppendChar), vec![sb, Value::Char('!' as u16)], &[]).0.unwrap();
    let (_, st) = run(&mut jvm, Native::Lang(LangNative::StringBuilderToString), vec![sb], &[]);
    assert_eq!(text(&jvm, st[0]), "hé-42!");
    // the length counts UTF-8 bytes: 'é' takes two
    let (_, st) = run(&mut jvm, Native::Lang(LangNative::StringBuilderLength), vec![sb], &[]);
    assert_eq!(st, vec![Value::Int(7)]);
}

#[test]
fn appending_a_surrogate_unit_adds_nothing() {
    let mut jvm = Jvm::new();
    let sb = Value::ObjectRef(jvm.allocate(HeapObject::new("java.lang.StringBuilder".to_string())));
    run(&mut jvm, Native::Lang(LangNative::StringBuilderInit), vec![sb], &[]).0.unwrap();
    run(&mut jvm, Native::Lang(LangNative::StringBuilderAppendChar), vec![sb, Value::Char(0xD800)], &[]).0.unwrap();
    run(&mut jvm, Native::Lang(LangNative::StringBuilderAppendChar), vec![sb, Value::Char(0x41)], &[]).0.unwrap();
    let (_, st) = run(&mut jvm, Native::Lang(LangNative::StringBuilderToString), vec![sb], &[]);
    assert_eq!(text(&jvm, st[0]), "A");
}

#[test]
fn integer_parsing_and_hex_text() {
    let mut jvm = Jvm::new();
    let s = string(&mut jvm, "-123");
    let (_, st) = run(&mut jvm, Native::Lang(LangNative::IntegerParseInt), vec![s], &[]);
    assert_eq!(st, vec![Value::Int(-123)]);
    let bad = string(&mut jvm, "12x");
    let (r, st) = run(&mut jvm, Native::Lang(LangNative::IntegerParseInt), vec![bad], &[]);
    assert_eq!(r, Err(JvmError::RuntimeError(RuntimeError::NumberFormatException)));
    assert!(st.is_empty());
    let ff = string(&mut jvm, "ff");
    let (_, st) = run(&mut jvm, Native::Lang(LangNative::IntegerParseIntRadix), vec![ff, Value::Int(16)], &[]);
    assert_eq!(st, vec![Value::Int(255)]);
    let (_, st) = run(&mut jvm, Native::Lang(LangNative::IntegerToHexString), vec![Value::Int(-1)], &[]);
    assert_eq!(text(&jvm, st[0]), "ffffffff");
}

#[test]
fn parse_int_with_bad_radix_is_a_number_format_error() {
    let mut jvm = Jvm::new();
    let s = string(&mut jvm, "10");
    let (r, _) = run(&mut jvm, Native::Lang(LangNative::IntegerParseIntRadix), vec![s, Value::Int(40)], &[]);
    assert_eq!(r, Err(JvmError::RuntimeError(RuntimeError::NumberFormatException)));
}

#[test]
fn math_abs_of_the_minimum_wraps() {
    let mut jvm = Jvm::new();
    let (_, st) = run(&mut jvm, Native::Lang(LangNative::MathAbsInt), vec![], &[Value::Int(i32::MIN)]);
    assert_eq!(st, vec![Value::Int(i32::MIN)]);
    let (_, st) = run(&mut jvm, Native::Lang(LangNative::MathAbsInt), vec![], &[Value::Int(-7)]);
    assert_eq!(st, vec![Value::Int(7)]);
}

#[test]
fn string_length_counts_utf8_bytes() {
    let mut jvm = Jvm::new();
    let s = string(&mut jvm, "añ€");
    let (_, st) = run(&mut jvm, Native::Lang(LangNative::StringLength), vec![s], &[]);
    assert_eq!(st, vec![Value::Int(6)]);
}

#[test]
fn pattern_matching() {
    assert!(regex_match_text(&"a*b".chars().collect(), &"aaab".chars().collect()));
    assert!(!regex_match_text(&"a*b".chars().collect(), &"aaac".chars().collect()));
    assert!(regex_match_text(&"[0-9]+".chars().collect(), &"2024".chars().collect()));
    let mut jvm = Jvm::new();
    let re = string(&mut jvm, "h.llo");
    let input = string(&mut jvm, "hello");
    let (_, st) = run(&mut jvm, Native::Regex(RegexNative::PatternMatches), vec![], &[re, input]);
    assert_eq!(st, vec![Value::Boolean(true)]);
}

#[test]
fn base64_round_trip_on_whole_groups() {
    let data = b"any carnal pleas".to_vec();
    let enc = base64_encode_exec(&data);
    assert_eq!(enc.iter().collect::<String>(), "YW55IGNhcm5hbCBwbGVhcw==");
    let six = b"abcdef".to_vec();
    let enc6 = base64_encode_exec(&six);
    assert_eq!(base64_decode_exec(&enc6), six);
}

#[test]
fn base64_round_trip_on_padded_groups() {
    // one byte encodes as "QQ==" and two as "QUI="; decoding honours the padding
    let enc = base64_encode_exec(&[0x41]);
    assert_eq!(enc.iter().collect::<String>(), "QQ==");
    assert_eq!(base64_decode_exec(&enc), vec![0x41]);
    let enc = base64_encode_exec(&[0x41, 0x42]);
    assert_eq!(enc.iter().collect::<String>(), "QUI=");
    assert_eq!(base64_decode_exec(&enc), vec![0x41, 0x42]);
    // a single leftover character names no whole byte
    assert_eq!(base64_decode_exec(&"QUJDR".chars().collect::<Vec<_>>()), vec![0x41, 0x42, 0x43]);
}

#[test]
fn decimal_parsing_follows_rust() {
    let p = |s: &str| parse_integer_exec(&s.chars().collect::<Vec<_>>(), 10, i32::MIN as i64, i32::MAX as i64);
    assert_eq!(p("+17"), Some(17));
    assert_eq!(p("2147483647"), Some(2147483647));
    assert_eq!(p("2147483648"), None);
    assert_eq!(p("-2147483648"), Some(-2147483648));
    assert_eq!(p(""), None);
    assert_eq!(p("-"), None);
}

#[test]
fn big_integer_arithmetic() {
    let mut jvm = Jvm::new();
    let a = Value::ObjectRef(jvm.allocate(HeapObject::new("java.math.BigInteger".to_string())));
    let b = Value::ObjectRef(jvm.allocate(HeapObject::new("java.math.BigInteger".to_string())));
    run(&mut jvm, Native::Math(MathNative::BigIntegerInit), vec![a], &[Value::Long(-7)]).0.unwrap();
    let two = string(&mut jvm, "2");
    run(&mut jvm, Native::Math(MathNative::BigIntegerInitString), vec![b, two], &[]).0.unwrap();
    let (_, st) = run(&mut jvm, Native::Math(MathNative::BigIntegerDivide), vec![a], &[b]);
    let (_, v) = run(&mut jvm, Native::Math(MathNative::BigIntegerLongValue), vec![st[0]], &[]);
    assert_eq!(v, vec![Value::Long(-3)]);
    let (_, st) = run(&mut jvm, Native::Math(MathNative::BigIntegerMultiply), vec![a], &[b]);
    let (_, s) = run(&mut jvm, Native::Math(MathNative::BigIntegerToString), vec![st[0]], &[]);
    assert_eq!(text(&jvm, s[0]), "-14");
}

#[test]
fn big_integer_divide_by_zero_is_arithmetic_exception() {
    let mut jvm = Jvm::new();
    let a = Value::ObjectRef(jvm.allocate(HeapObject::new("java.math.BigInteger".to_string())));
    let zero = Value::ObjectRef(jvm.allocate(HeapObject::new("java.math.BigInteger".to_string())));
    let (r, _) = run(&mut jvm, Native::Math(MathNative::BigIntegerDivide), vec![a], &[zero]);
    assert_eq!(r, Err(JvmError::RuntimeError(RuntimeError::ArithmeticException)));
}

#[test]
fn byte_array_streams() {
    let mut jvm = Jvm::new();
    let out = Value::ObjectRef(jvm.allocate(HeapObject::new("java.io.ByteArrayOutputStream".to_string())));
    run(&mut jvm, Native::Io(IoNative::ByteArrayOutputStreamInit), vec![out], &[]).0.unwrap();
    for b in "añ".as_bytes() {
        run(&mut jvm, Native::Io(IoNative::ByteArrayOutputStreamWrite), vec![out, Value::Int(*b as i32)], &[]).0.unwrap();
    }
    let (_, st) = run(&mut jvm, Native::Io(IoNative::ByteArrayOutputStreamSize), vec![out], &[]);
    assert_eq!(st, vec![Value::Int(3)]);
    let (_, st) = run(&mut jvm, Native::Io(IoNative::ByteArrayOutputStreamToString), vec![out], &[]);
    assert_eq!(text(&jvm, st[0]), "añ");
    let (_, st) = run(&mut jvm, Native::Io(IoNative::ByteArrayOutputStreamToByteArray), vec![out], &[]);
    let arr = st[0];
    let inp = Value::ObjectRef(jvm.allocate(HeapObject::new("java.io.ByteArrayInputStream".to_string())));
    run(&mut jvm, Native::Io(IoNative::ByteArrayInputStreamInit), vec![inp, arr], &[]).0.unwrap();
    let (_, st) = run(&mut jvm, Native::Io(IoNative::ByteArrayInputStreamRead), vec![inp], &[]);
    assert_eq!(st, vec![Value::Int(0x61)]);
    let (_, st) = run(&mut jvm, Native::Io(IoNative::ByteArrayInputStreamAvailable), vec![inp], &[]);
    assert_eq!(st, vec![Value::Int(2)]);
    let (_, st) = run(&mut jvm, Native::Io(IoNative::ByteArrayInputStreamRead), vec![inp], &[]);
    // bytes read as 0..=255, so 0xC3 is not taken for the end of the stream
    assert_eq!(st, vec![Value::Int(0xC3)]);
}

#[test]
fn malformed_utf8_decodes_to_replacement() {
    let mut jvm = Jvm::new();
    let out = Value::ObjectRef(jvm.allocate(HeapObject::new("java.io.ByteArrayOutputStream".to_string())));
    run(&mut jvm, Native::Io(IoNative::ByteArrayOutputStreamInit), vec![out], &[]).0.unwrap();
    for b in [0x41, 0xFF, 0x42] {
        run(&mut jvm, Native::Io(IoNative::ByteArrayOutputStreamWrite), vec![out, Value::Int(b)], &[]).0.unwrap();
    }
    let (_, st) = run(&mut jvm, Native::Io(IoNative::ByteArrayOutputStreamToString), vec![out], &[]);
    assert_eq!(text(&jvm, st[0]), "A\u{FFFD}B");
}

#[test]
fn clock_readings_and_random_bounds() {
    let mut jvm = Jvm::new();
    let mut f = Frame::new(vec![]);
    current_time_millis_native(&mut f, &mut jvm, 1_700_000_000_123_456_789).unwrap();
    assert_eq!(f.stack, vec![Value::Long(1_700_000_000_123)]);
    let mut f = Frame::new(vec![]);
    f.push(Value::Int(10));
    random_bounded_native(&mut f, &mut jvm, 0x1_2345_6789).unwrap();
    assert_eq!(f.stack, vec![Value::Int((0x2345_6789 % 10) as i32)]);
    let mut f = Frame::new(vec![]);
    f.push(Value::Int(0));
    assert_eq!(random_bounded_native(&mut f, &mut jvm, 5), Err(JvmError::RuntimeError(RuntimeError::ArithmeticException)));
}

#[test]
fn uuid_layout_from_a_reading() {
    let t = uuid_text_exec(0x0123_4567_89AB_CDEF);
    assert_eq!(t.iter().collect::<String>(), "01234567-89ab-4def-8123-456789abcdef");
}

#[test]
fn date_text_of_negative_instants_truncates_toward_zero() {
    // one second before the epoch: every field counts toward zero
    assert_eq!(date_text_exec(-1000).iter().collect::<String>(), "01 01 00:00:-1 UTC 1970");
}

#[test]
fn sort_keys_of_floats_saturate() {
    assert_eq!(sort_key_exec(Value::Double(f64::INFINITY.to_bits())), i64::MAX);
    assert_eq!(sort_key_exec(Value::Float(f32::NEG_INFINITY.to_bits())), i64::MIN);
    assert_eq!(sort_key_exec(Value::Double(f64::NAN.to_bits())), 0);
    assert_eq!(sort_key_exec(Value::Double((-3.99f64).to_bits())), -3);
    assert_eq!(sort_key_exec(Value::Float(1e30f32.to_bits())), i64::MAX);
    assert_eq!(sort_key_exec(Value::Double(9.2e18f64.to_bits())), 9.2e18f64 as i64);
    assert_eq!(sort_key_exec(Value::Float(16777217.0f32.to_bits())), 16777216);
    assert_eq!(sort_key_exec(Value::Double(1e-300f64.to_bits())), 0);
}

#[test]
fn monitor_enter_exit_and_hand_over() {
    let mut m = Monitor::new();
    assert_eq!(m.enter(1), Ok(()));
    assert_eq!(m.enter(1), Ok(()));
    assert_eq!(m.get_entry_count(), 2);
    // another thread is queued
    assert_eq!(m.enter(2), Err(JvmError::ThreadingError(ThreadingError::IllegalMonitorState)));
    assert_eq!(m.get_waiters_count(), 1);
    // only the owner may exit
    assert_eq!(m.exit(2), Err(JvmError::ThreadingError(ThreadingError::IllegalMonitorState)));
    assert_eq!(m.exit(1), Ok(()));
    assert_eq!(m.get_owner(), Some(1));
    assert_eq!(m.exit(1), Ok(()));
    // the last exit hands the monitor to the first waiter
    assert_eq!(m.get_owner(), Some(2));
    assert_eq!(m.get_entry_count(), 1);
    assert_eq!(m.get_waiters_count(), 0);
}

#[test]
fn scheduler_runs_threads_round_robin() {
    let mut s = Scheduler::new(SchedulingPolicy::RoundRobin);
    let a = s.create_thread("a".to_string()).unwrap();
    let b = s.create_thread("b".to_string()).unwrap();
    assert_eq!((a, b), (1, 2));
    s.start_thread(a).unwrap();
    s.start_thread(b).unwrap();
    assert_eq!(s.schedule(), Some(a));
    assert_eq!(s.yield_thread(), Ok(()));
    assert_eq!(s.schedule(), Some(b));
    assert_eq!(s.ready_count(), 2);
    s.set_thread_terminated(b);
    assert!(s.is_thread_terminated(b));
    assert!(!s.is_thread_terminated(a));
}

#[test]
fn appending_a_double_adds_the_text_given_for_it() {
    let mut jvm = Jvm::new();
    let sb = Value::ObjectRef(jvm.allocate(HeapObject::new("java.lang.StringBuilder".to_string())));
    run(&mut jvm, Native::Lang(LangNative::StringBuilderInit), vec![sb], &[]).0.unwrap();
    let shown: Vec<char> = "2.5".chars().collect();
    let mut frame = Frame::new(vec![sb, Value::Double(2.5f64.to_bits())]);
    assert_eq!(builder_append_shown_native(&mut frame, &mut jvm, &shown), Ok(()));
    assert_eq!(frame.stack, vec![sb]);
    // an argument that is no double adds nothing
    let mut frame = Frame::new(vec![sb, Value::Int(7)]);
    assert_eq!(builder_append_shown_native(&mut frame, &mut jvm, &shown), Ok(()));
    let (_, st) = run(&mut jvm, Native::Lang(LangNative::StringBuilderToString), vec![sb], &[]);
    assert_eq!(text(&jvm, st[0]), "2.5");
}

#[test]
fn clock_natives_read_the_clock_themselves() {
    let mut jvm = Jvm::new();
    let (r, st) = run(&mut jvm, Native::Lang(LangNative::SystemCurrentTimeMillis), vec![], &[]);
    assert_eq!(r, Ok(()));
    match st[..] {
        // after 2020-01-01
        [Value::Long(ms)] => assert!(ms > 1_577_836_800_000),
        _ => panic!("no millisecond reading: {:?}", st),
    }
    let (_, st) = run(&mut jvm, Native::Util(UtilNative::RandomNextIntBound), vec![], &[Value::Int(10)]);
    match st[..] {
        [Value::Int(x)] => assert!((0..10).contains(&x)),
        _ => panic!("no bounded number: {:?}", st),
    }
    let (r, _) = run(&mut jvm, Native::Util(UtilNative::RandomNextIntBound), vec![], &[Value::Int(0)]);
    assert_eq!(r, Err(JvmError::RuntimeError(RuntimeError::ArithmeticException)));
    let holder = Value::ObjectRef(jvm.allocate(HeapObject::new("java.util.UUID".to_string())));
    let (_, st) = run(&mut jvm, Native::Util(UtilNative::UUIDRandomUUID), vec![holder], &[]);
    let u = text(&jvm, st[0]);
    assert_eq!(u.len(), 36);
    assert_eq!(u.chars().nth(14), Some('4'));
    assert!(matches!(u.chars().nth(19), Some('8' | '9' | 'a' | 'b')));
}

#[test]
fn shuffle_through_the_dispatcher_keeps_the_elements() {
    let mut jvm = Jvm::new();
    let l = Value::ObjectRef(jvm.allocate(HeapObject::new("java.util.ArrayList".to_string())));
    run(&mut jvm, Native::Util(UtilNative::ArrayListInit), vec![l], &[]).0.unwrap();
    for x in 0..20 {
        run(&mut jvm, Native::Util(UtilNative::ArrayListAdd), vec![l], &[Value::Int(x)]).0.unwrap();
    }
    let (r, st) = run(&mut jvm, Native::Util(UtilNative::CollectionsShuffle), vec![], &[l]);
    assert_eq!(r, Ok(()));
    assert!(st.is_empty());
    let mut got: Vec<i32> = (0..20)
        .map(|i| match run(&mut jvm, Native::Util(UtilNative::ArrayListGet), vec![l], &[Value::Int(i)]).1[..] {
            [Value::Int(x)] => x,
            _ => panic!("no element"),
        })
        .collect();
    got.sort();
    assert_eq!(got, (0..20).collect::<Vec<i32>>());
}

fn big(jvm: &mut Jvm, text: &str) -> Value {
    let b = Value::ObjectRef(jvm.allocate(HeapObject::new("java.math.BigInteger".to_string())));
    let t = string(jvm, text);
    run(jvm, Native::Math(MathNative::BigIntegerInitString), vec![b, t], &[]).0.unwrap();
    b
}

fn big_text(jvm: &mut Jvm, v: Value) -> String {
    let (_, s) = run(jvm, Native::Math(MathNative::BigIntegerToString), vec![v], &[]);
    text(jvm, s[0])
}

#[test]
fn big_integer_results_beyond_a_long_are_exact() {
    let mut jvm = Jvm::new();
    let a = Value::ObjectRef(jvm.allocate(HeapObject::new("java.math.BigInteger".to_string())));
    let b = Value::ObjectRef(jvm.allocate(HeapObject::new("java.math.BigInteger".to_string())));
    run(&mut jvm, Native::Math(MathNative::BigIntegerInit), vec![a], &[Value::Long(i64::MAX)]).0.unwrap();
    run(&mut jvm, Native::Math(MathNative::BigIntegerInit), vec![b], &[Value::Long(1)]).0.unwrap();
    let (r, st) = run(&mut jvm, Native::Math(MathNative::BigIntegerAdd), vec![a], &[b]);
    assert_eq!(r, Ok(()));
    assert_eq!(big_text(&mut jvm, st[0]), "9223372036854775808");
    // the low 64 bits of 2^63 read as a long
    let (_, v) = run(&mut jvm, Native::Math(MathNative::BigIntegerLongValue), vec![st[0]], &[]);
    assert_eq!(v, vec![Value::Long(i64::MIN)]);
    let (_, st) = run(&mut jvm, Native::Math(MathNative::BigIntegerMultiply), vec![a], &[a]);
    assert_eq!(big_text(&mut jvm, st[0]), "85070591730234615847396907784232501249");
    let x = big(&mut jvm, "-123456789012345678901234567890");
    let y = big(&mut jvm, "987654321");
    let (_, st) = run(&mut jvm, Native::Math(MathNative::BigIntegerDivide), vec![x], &[y]);
    assert_eq!(big_text(&mut jvm, st[0]), "-124999998873437499901");
    let (_, st) = run(&mut jvm, Native::Math(MathNative::BigIntegerSubtract), vec![y], &[x]);
    assert_eq!(big_text(&mut jvm, st[0]), "123456789012345678902222222211");
    let (_, st) = run(&mut jvm, Native::Math(MathNative::BigIntegerAdd), vec![x], &[x]);
    assert_eq!(big_text(&mut jvm, st[0]), "-246913578024691357802469135780");
    let z = big(&mut jvm, "+000");
    assert_eq!(big_text(&mut jvm, z), "0");
    let (_, st) = run(&mut jvm, Native::Math(MathNative::BigIntegerMultiply), vec![x], &[z]);
    assert_eq!(big_text(&mut jvm, st[0]), "0");
    let (_, v) = run(&mut jvm, Native::Math(MathNative::BigIntegerLongValue), vec![y], &[]);
    assert_eq!(v, vec![Value::Long(987654321)]);
    let m1 = big(&mut jvm, "-1");
    let (_, v) = run(&mut jvm, Native::Math(MathNative::BigIntegerLongValue), vec![m1], &[]);
    assert_eq!(v, vec![Value::Long(-1)]);
    let bad = Value::ObjectRef(jvm.allocate(HeapObject::new("java.math.BigInteger".to_string())));
    let t = string(&mut jvm, "12a");
    let (r, _) = run(&mut jvm, Native::Math(MathNative::BigIntegerInitString), vec![bad, t], &[]);
    assert_eq!(r, Err(JvmError::RuntimeError(RuntimeError::NumberFormatException)));
}

#[test]
fn boolean_parse_boolean_reads_true_ignoring_case() {
    let mut jvm = Jvm::new();
    for (t, want) in [("TRUE", true), ("true", true), ("tRuE", true), ("false", false), ("yes", false), ("", false)] {
        let s = string(&mut jvm, t);
        let (_, st) = run(&mut jvm, Native::Lang(LangNative::BooleanParseBoolean), vec![], &[s]);
        assert_eq!(st, vec![Value::Boolean(want)], "{}", t);
    }
    let (_, st) = run(&mut jvm, Native::Lang(LangNative::BooleanParseBoolean), vec![], &[Value::Null]);
    assert_eq!(st, vec![Value::Boolean(false)]);
}

#[test]
fn integer_value_of_a_string_boxes_its_value() {
    let mut jvm = Jvm::new();
    let s = string(&mut jvm, "42");
    let (r, st) = run(&mut jvm, Native::Lang(LangNative::IntegerValueOfString), vec![s], &[]);
    assert_eq!(r, Ok(()));
    match st[0] {
        Value::ObjectRef(id) => {
            assert_eq!(jvm.heap[id].class_name, "java.lang.Integer");
            assert_eq!(jvm.heap[id].get_field("value:I"), Some(Value::Int(42)));
        },
        v => panic!("not an object: {:?}", v),
    }
    let bad = string(&mut jvm, "4 2");
    let (r, st) = run(&mut jvm, Native::Lang(LangNative::IntegerValueOfString), vec![bad], &[]);
    assert_eq!(r, Err(JvmError::RuntimeError(RuntimeError::NumberFormatException)));
    assert!(st.is_empty());
}

#[test]
fn double_min_value_is_the_least_positive_double() {
    let mut jvm = Jvm::new();
    let (_, st) = run(&mut jvm, Native::Lang(LangNative::DoubleMINVALUE), vec![], &[]);
    assert_eq!(st, vec![Value::Double(1)]);
    assert_eq!(f64::from_bits(1), 4.9e-324);
}

#[test]
fn regex_end_anchor_and_optional_atom() {
    let mut jvm = Jvm::new();
    for (re, input, want) in [
        ("^ab$", "ab", true),
        ("^ab$", "abc", false),
        ("ab$", "ab", true),
        ("ab$", "xab", false),
        ("colou?r", "color", true),
        ("colou?r", "colour", true),
        ("colou?r", "colouur", false),
        ("^a?$", "", true),
    ] {
        let r = string(&mut jvm, re);
        let i = string(&mut jvm, input);
        let (_, st) = run(&mut jvm, Native::Regex(RegexNative::PatternMatches), vec![], &[r, i]);
        assert_eq!(st, vec![Value::Boolean(want)], "{} on {}", re, input);
    }
}

#[test]
fn file_input_stream_read_answers_minus_one_at_the_end() {
    let mut jvm = Jvm::new();
    let path = string(&mut jvm, "data.bin");
    let f = Value::ObjectRef(jvm.allocate(HeapObject::new("java.io.FileInputStream".to_string())));
    jvm.set_field(f, "path", path);
    let arr = Value::ArrayRef(jvm.allocate(HeapObject::new_array("[B".to_string(), 4)));
    let bytes = Some(vec![0xffu8, 0x01]);
    let mut frame = Frame::new(vec![f, arr]);
    minijvm::natives::filestreams::file_read_bytes_native(&mut frame, &mut jvm, &bytes).unwrap();
    assert_eq!(frame.stack, vec![Value::Int(2)]);
    if let Value::ArrayRef(a) = arr {
        assert_eq!(jvm.heap[a].array_elements.clone().unwrap()[0], Value::Byte(-1));
    }
    let mut frame = Frame::new(vec![f, arr]);
    minijvm::natives::filestreams::file_read_bytes_native(&mut frame, &mut jvm, &bytes).unwrap();
    assert_eq!(frame.stack, vec![Value::Int(-1)]);
}

#[test]
fn nested_monitor_enters_then_exits_free_the_monitor() {
    let mut m = Monitor::new();
    for k in 1..=5 {
        assert_eq!(m.enter(3), Ok(()));
        assert_eq!(m.get_entry_count(), k);
        assert_eq!(m.get_owner(), Some(3));
    }
    for k in (0..5).rev() {
        assert_eq!(m.exit(3), Ok(()));
        assert_eq!(m.get_entry_count(), k);
    }
    assert_eq!(m.get_owner(), None);
    assert!(!m.is_owned());
    assert_eq!(m.get_waiters_count(), 0);
}

#[test]
fn byte_array_output_stream_to_byte_array_gives_the_bytes_written() {
    let mut jvm = Jvm::new();
    let out = Value::ObjectRef(jvm.allocate(HeapObject::new("java.io.ByteArrayOutputStream".to_string())));
    run(&mut jvm, Native::Io(IoNative::ByteArrayOutputStreamInit), vec![out], &[]).0.unwrap();
    let written: Vec<i32> = (0..40).map(|i| i * 7 - 20).collect();
    for b in &written {
        run(&mut jvm, Native::Io(IoNative::ByteArrayOutputStreamWrite), vec![out, Value::Int(*b)], &[]).0.unwrap();
    }
    let (_, st) = run(&mut jvm, Native::Io(IoNative::ByteArrayOutputStreamToByteArray), vec![out], &[]);
    match st[0] {
        Value::ArrayRef(a) => {
            let want: Vec<Value> = written.iter().map(|b| Value::Byte(*b as u8 as i8)).collect();
            assert_eq!(jvm.heap[a].array_elements.clone().unwrap(), want);
        },
        v => panic!("not an array: {:?}", v),
    }
}
