use vstd::prelude::*;
use crate::natives::ready;
use crate::runtime::error::JvmError;
use crate::runtime::frame::Frame;
use crate::runtime::jvm::Jvm;
use crate::runtime::value::Value;
use crate::stdlib::lang::LangNative;
use crate::stdlib::util::UtilNative;
use crate::stdlib::io::IoNative;
use crate::stdlib::math::MathNative;
use crate::stdlib::regex::RegexNative;

verus! {

/// What a call of `n` needs so that it runs to its end: the conditions of its native.
pub open spec fn lang_pre(n: LangNative, f0: Frame, j0: Jvm) -> bool {
    match n {
        LangNative::ObjectGetClass => true,
        LangNative::ObjectHashCode => true,
        LangNative::ObjectEquals => true,
        LangNative::ObjectToString => true,
        LangNative::ObjectNotify => true,
        LangNative::ObjectNotifyAll => true,
        LangNative::ObjectWait => true,
        LangNative::ObjectWaitTimeout => true,
        LangNative::ObjectWaitNanos => true,
        LangNative::ObjectInit => true,
        LangNative::StringLength => true,
        LangNative::StringEquals => true,
        LangNative::StringValueOfInt => true,
        LangNative::StringValueOfLong => true,
        LangNative::StringValueOfBool => true,
        LangNative::StringIsEmpty => true,
        LangNative::SystemIdentityHashCode => true,
        LangNative::ThreadRun => true,
        LangNative::ThreadSleep => true,
        LangNative::ThreadJoin => (crate::natives::threads::join_ready(f0, j0)),
        LangNative::ThreadYield => true,
        LangNative::ThreadCurrentThread => true,
        LangNative::ThreadGetName => true,
        LangNative::ThreadSetName => true,
        LangNative::ThreadGetPriority => true,
        LangNative::ThreadSetPriority => true,
        LangNative::ThreadGetId => true,
        LangNative::ThreadInterrupt => true,
        LangNative::ThreadIsInterrupted => true,
        LangNative::ThreadInterrupted => true,
        LangNative::ThreadIsAlive => true,
        LangNative::StringBuilderInit => true,
        LangNative::SystemCurrentTimeMillis => true,
        LangNative::SystemNanoTime => true,
        LangNative::StringBuilderInitWithCapacity => true,
        LangNative::StringBuilderInitWithString => true,
        LangNative::StringBuilderAppendString => true,
        LangNative::StringBuilderAppendInt => true,
        LangNative::StringBuilderAppendLong => true,
        LangNative::StringBuilderAppendBool => true,
        LangNative::StringBuilderAppendChar => true,
        LangNative::StringBuilderAppendObj => true,
        LangNative::StringBuilderToString => true,
        LangNative::StringBuilderLength => true,
        LangNative::IntegerParseInt => true,
        LangNative::IntegerParseIntRadix => true,
        LangNative::IntegerValueOfInt => true,
        LangNative::IntegerValueOfIntObj => true,
        LangNative::IntegerValueOfString => true,
        LangNative::IntegerToString => true,
        LangNative::IntegerToHexString => true,
        LangNative::IntegerMAXVALUE => true,
        LangNative::IntegerMINVALUE => true,
        LangNative::IntegerSIZE => true,
        LangNative::IntegerIntValue => true,
        LangNative::LongParseLong => true,
        LangNative::LongValueOf => true,
        LangNative::LongToString => true,
        LangNative::LongMAXVALUE => true,
        LangNative::LongMINVALUE => true,
        LangNative::LongSIZE => true,
        LangNative::DoubleMAXVALUE => true,
        LangNative::DoubleMINVALUE => true,
        LangNative::MathAbsInt => true,
        LangNative::MathAbsLong => true,
        LangNative::MathAbsFloat => true,
        LangNative::MathAbsDouble => true,
        LangNative::MathMaxInt => true,
        LangNative::MathMaxLong => true,
        LangNative::MathMinInt => true,
        LangNative::MathMinLong => true,
        LangNative::ClassGetName => true,
        LangNative::ClassForName => true,
        LangNative::ClassGetSimpleName => true,
        LangNative::FloatValueOfFloat => true,
        LangNative::FloatFloatValue => true,
        LangNative::BooleanParseBoolean => true,
        LangNative::BooleanBooleanValue => true,
        LangNative::BooleanToString => true,
        LangNative::RunnableRun => true,
        LangNative::ExceptionInitWithMessage => true,
    }
}

/// What a call of `n` does: the contract of its native, from frame `f0` and machine `j0`
/// to frame `f1`, machine `j1` and result `r`.
pub open spec fn lang_post(n: LangNative, f0: Frame, j0: Jvm, f1: Frame, j1: Jvm, r: Result<(), JvmError>) -> bool {
    match n {
        LangNative::ObjectGetClass => {
            &&& crate::runtime::jvm::same_but_heap(j0, j1)
            &&& crate::natives::common::outcome(f0, j0.hv(), f1, j1.hv(), r, crate::natives::lang::object_get_class(f0, j0.hv()))
        },
        LangNative::ObjectHashCode => {
            &&& j1 == j0
            &&& crate::natives::common::outcome(f0, j0.hv(), f1, j1.hv(), r, crate::natives::lang::object_hash_code(f0, j0.hv()))
        },
        LangNative::ObjectEquals => {
            &&& j1 == j0
            &&& crate::natives::common::outcome(f0, j0.hv(), f1, j1.hv(), r, crate::natives::lang::object_equals(f0, j0.hv()))
        },
        LangNative::ObjectToString => {
            &&& crate::runtime::jvm::same_but_heap(j0, j1)
            &&& crate::natives::common::outcome(f0, j0.hv(), f1, j1.hv(), r, crate::natives::lang::object_to_string(f0, j0.hv()))
        },
        LangNative::ObjectNotify => {
            &&& j1 == j0
            &&& crate::natives::common::outcome(f0, j0.hv(), f1, j1.hv(), r, crate::natives::lang::object_monitor_check(f0, j0.hv(), j0.current_thread_id))
        },
        LangNative::ObjectNotifyAll => {
            &&& j1 == j0
            &&& crate::natives::common::outcome(f0, j0.hv(), f1, j1.hv(), r, crate::natives::lang::object_monitor_check(f0, j0.hv(), j0.current_thread_id))
        },
        LangNative::ObjectWait => {
            &&& j1 == j0
            &&& crate::natives::common::outcome(f0, j0.hv(), f1, j1.hv(), r, crate::natives::lang::object_monitor_check(f0, j0.hv(), j0.current_thread_id))
        },
        LangNative::ObjectWaitTimeout => {
            &&& j1 == j0
            &&& crate::natives::common::outcome(f0, j0.hv(), f1, j1.hv(), r, crate::natives::lang::object_monitor_check(f0, j0.hv(), j0.current_thread_id))
        },
        LangNative::ObjectWaitNanos => {
            &&& j1 == j0
            &&& crate::natives::common::outcome(f0, j0.hv(), f1, j1.hv(), r, crate::natives::lang::object_monitor_check(f0, j0.hv(), j0.current_thread_id))
        },
        LangNative::ObjectInit => {
            &&& j1 == j0
            &&& f1 == f0
            &&& r == Ok::<(), crate::runtime::error::JvmError>(())
        },
        LangNative::StringLength => {
            &&& j1 == j0
            &&& crate::natives::common::outcome(f0, j0.hv(), f1, j1.hv(), r, crate::natives::lang::string_length(f0, j0.hv()))
        },
        LangNative::StringEquals => {
            &&& j1 == j0
            &&& crate::natives::common::outcome(f0, j0.hv(), f1, j1.hv(), r, crate::natives::lang::string_equals(f0, j0.hv()))
        },
        LangNative::StringValueOfInt => {
            &&& crate::runtime::jvm::same_but_heap(j0, j1)
            &&& crate::natives::common::outcome(f0, j0.hv(), f1, j1.hv(), r, crate::natives::lang::string_value_of_kind(f0, j0.hv(), 0u8))
        },
        LangNative::StringValueOfLong => {
            &&& crate::runtime::jvm::same_but_heap(j0, j1)
            &&& crate::natives::common::outcome(f0, j0.hv(), f1, j1.hv(), r, crate::natives::lang::string_value_of_kind(f0, j0.hv(), 1u8))
        },
        LangNative::StringValueOfBool => {
            &&& crate::runtime::jvm::same_but_heap(j0, j1)
            &&& crate::natives::common::outcome(f0, j0.hv(), f1, j1.hv(), r, crate::natives::lang::string_value_of_kind(f0, j0.hv(), 2u8))
        },
        LangNative::StringIsEmpty => {
            &&& j1 == j0
            &&& crate::natives::common::outcome(f0, j0.hv(), f1, j1.hv(), r, crate::natives::lang::string_is_empty(f0, j0.hv()))
        },
        LangNative::SystemIdentityHashCode => {
            &&& j1 == j0
            &&& crate::natives::common::outcome(f0, j0.hv(), f1, j1.hv(), r, crate::natives::lang::system_identity_hash_code(f0, j0.hv()))
        },
        LangNative::ThreadRun => {
            &&& j1 == j0
            &&& f1 == f0
            &&& r == Ok::<(), crate::runtime::error::JvmError>(())
        },
        LangNative::ThreadSleep => {
            &&& f1 == f0
            &&& crate::natives::threads::only_scheduler(j0, j1)
            &&& crate::natives::common::local_missing(f0, 0) ==> r == Err::<(), crate::runtime::error::JvmError>(crate::runtime::frame::local_error()) && j1.scheduler == j0.scheduler
            &&& !crate::natives::common::local_missing(f0, 0) ==> crate::threading::scheduler::sleep_post(j0.scheduler, j1.scheduler, j0.current_thread_id, r)
        },
        LangNative::ThreadJoin => {
            &&& f1 == f0
            &&& crate::natives::threads::only_scheduler(j0, j1)
            &&& crate::natives::common::local_missing(f0, 0) ==> r == Err::<(), crate::runtime::error::JvmError>(crate::runtime::frame::local_error()) && j1.scheduler == j0.scheduler
            &&& !crate::natives::common::local_missing(f0, 0) ==> match crate::natives::common::this_of(f0) { crate::runtime::value::Value::ObjectRef(id) => if id >= j0.hv().len() { r == Err::<(), crate::runtime::error::JvmError>(crate::natives::common::npe()) && j1.scheduler == j0.scheduler } else { match crate::natives::threads::join_target(f0, j0.hv()) { Some(t) => crate::threading::scheduler::join_post(j0.scheduler, j1.scheduler, t, r), None => r is Ok && j1.scheduler == j0.scheduler, } }, _ => r is Ok && j1.scheduler == j0.scheduler, }
        },
        LangNative::ThreadYield => {
            &&& f1 == f0
            &&& crate::natives::threads::only_scheduler(j0, j1)
            &&& crate::threading::scheduler::yield_post(j0.scheduler, j1.scheduler, r)
        },
        LangNative::ThreadCurrentThread => {
            &&& j1 == j0
            &&& r == Ok::<(), crate::runtime::error::JvmError>(())
            &&& crate::natives::common::returned(f0, f1, 0, crate::natives::threads::thread_current(j0))
        },
        LangNative::ThreadGetName => {
            &&& crate::runtime::jvm::same_but_heap(j0, j1)
            &&& crate::natives::common::outcome(f0, j0.hv(), f1, j1.hv(), r, crate::natives::threads::thread_get_name(f0, j0.hv()))
        },
        LangNative::ThreadSetName => {
            &&& crate::runtime::jvm::same_but_heap(j0, j1)
            &&& crate::natives::common::outcome(f0, j0.hv(), f1, j1.hv(), r, crate::natives::threads::thread_set_name(f0, j0.hv()))
        },
        LangNative::ThreadGetPriority => {
            &&& j1 == j0
            &&& crate::natives::common::outcome(f0, j0.hv(), f1, j1.hv(), r, crate::natives::threads::thread_get_priority(f0, j0.hv()))
        },
        LangNative::ThreadSetPriority => {
            &&& crate::runtime::jvm::same_but_heap(j0, j1)
            &&& crate::natives::common::outcome(f0, j0.hv(), f1, j1.hv(), r, crate::natives::threads::thread_set_priority(f0, j0.hv()))
        },
        LangNative::ThreadGetId => {
            &&& j1 == j0
            &&& crate::natives::common::outcome(f0, j0.hv(), f1, j1.hv(), r, crate::natives::threads::thread_get_id(f0, j0.hv()))
        },
        LangNative::ThreadInterrupt => {
            &&& f1 == f0
            &&& crate::natives::threads::only_scheduler(j0, j1)
            &&& j1.scheduler.wf()
            &&& crate::natives::common::local_missing(f0, 0) ==> r == Err::<(), crate::runtime::error::JvmError>(crate::runtime::frame::local_error()) && j1.scheduler == j0.scheduler
            &&& !crate::natives::common::local_missing(f0, 0) ==> match crate::natives::common::this_of(f0) { crate::runtime::value::Value::ObjectRef(id) => if id >= j0.hv().len() { r == Err::<(), crate::runtime::error::JvmError>(crate::natives::common::npe()) && j1.scheduler == j0.scheduler } else { r is Ok && match crate::natives::threads::native_id(j0.hv(), id) { Some(n) => crate::threading::scheduler::wake_post(j0.scheduler, j1.scheduler, n as usize), None => j1.scheduler == j0.scheduler, } }, _ => r is Ok && j1.scheduler == j0.scheduler, }
        },
        LangNative::ThreadIsInterrupted => {
            &&& j1 == j0
            &&& crate::natives::common::outcome(f0, j0.hv(), f1, j1.hv(), r, crate::natives::threads::thread_is_interrupted(f0, j0.hv()))
        },
        LangNative::ThreadInterrupted => {
            &&& crate::runtime::jvm::same_but_heap(j0, j1)
            &&& r == Ok::<(), crate::runtime::error::JvmError>(())
            &&& crate::natives::common::returned(f0, f1, 0, crate::natives::threads::thread_interrupted(j0).1)
            &&& j1.hv() == crate::natives::threads::thread_interrupted(j0).0
        },
        LangNative::ThreadIsAlive => {
            &&& j1 == j0
            &&& crate::natives::common::outcome(f0, j0.hv(), f1, j1.hv(), r, crate::natives::threads::thread_is_alive(f0, j0))
        },
        LangNative::StringBuilderInit => {
            &&& crate::runtime::jvm::same_but_heap(j0, j1)
            &&& crate::natives::common::outcome(f0, j0.hv(), f1, j1.hv(), r, crate::natives::lang::builder_init(f0, j0.hv()))
        },
        LangNative::SystemCurrentTimeMillis => {
            &&& j1 == j0
            &&& exists|t: u128| #![trigger crate::natives::clock::millis_of(t)] crate::natives::common::outcome(f0, j0.hv(), f1, j1.hv(), r, Ok((j0.hv(), 0, Some(crate::runtime::value::Value::Long(crate::natives::clock::millis_of(t))))))
        },
        LangNative::SystemNanoTime => {
            &&& j1 == j0
            &&& exists|t: u128| #![trigger crate::natives::clock::nanos_of(t)] crate::natives::common::outcome(f0, j0.hv(), f1, j1.hv(), r, Ok((j0.hv(), 0, Some(crate::runtime::value::Value::Long(crate::natives::clock::nanos_of(t))))))
        },
        LangNative::StringBuilderInitWithCapacity => {
            &&& crate::runtime::jvm::same_but_heap(j0, j1)
            &&& crate::natives::common::outcome(f0, j0.hv(), f1, j1.hv(), r, crate::natives::lang::builder_init(f0, j0.hv()))
        },
        LangNative::StringBuilderInitWithString => {
            &&& crate::runtime::jvm::same_but_heap(j0, j1)
            &&& crate::natives::common::outcome(f0, j0.hv(), f1, j1.hv(), r, crate::natives::lang::builder_init_with_string(f0, j0.hv()))
        },
        LangNative::StringBuilderAppendString => {
            &&& crate::runtime::jvm::same_but_heap(j0, j1)
            &&& crate::natives::common::outcome(f0, j0.hv(), f1, j1.hv(), r, crate::natives::lang::builder_append(f0, j0.hv(), 0u8))
        },
        LangNative::StringBuilderAppendInt => {
            &&& crate::runtime::jvm::same_but_heap(j0, j1)
            &&& crate::natives::common::outcome(f0, j0.hv(), f1, j1.hv(), r, crate::natives::lang::builder_append(f0, j0.hv(), 1u8))
        },
        LangNative::StringBuilderAppendLong => {
            &&& crate::runtime::jvm::same_but_heap(j0, j1)
            &&& crate::natives::common::outcome(f0, j0.hv(), f1, j1.hv(), r, crate::natives::lang::builder_append(f0, j0.hv(), 2u8))
        },
        LangNative::StringBuilderAppendBool => {
            &&& crate::runtime::jvm::same_but_heap(j0, j1)
            &&& crate::natives::common::outcome(f0, j0.hv(), f1, j1.hv(), r, crate::natives::lang::builder_append(f0, j0.hv(), 3u8))
        },
        LangNative::StringBuilderAppendChar => {
            &&& crate::runtime::jvm::same_but_heap(j0, j1)
            &&& crate::natives::common::outcome(f0, j0.hv(), f1, j1.hv(), r, crate::natives::lang::builder_append_char(f0, j0.hv()))
        },
        LangNative::StringBuilderAppendObj => {
            &&& crate::runtime::jvm::same_but_heap(j0, j1)
            &&& crate::natives::common::outcome(f0, j0.hv(), f1, j1.hv(), r, crate::natives::lang::builder_append(f0, j0.hv(), 5u8))
        },
        LangNative::StringBuilderToString => {
            &&& crate::runtime::jvm::same_but_heap(j0, j1)
            &&& crate::natives::common::outcome(f0, j0.hv(), f1, j1.hv(), r, crate::natives::lang::builder_to_string(f0, j0.hv()))
        },
        LangNative::StringBuilderLength => {
            &&& j1 == j0
            &&& crate::natives::common::outcome(f0, j0.hv(), f1, j1.hv(), r, crate::natives::lang::builder_length(f0, j0.hv()))
        },
        LangNative::IntegerParseInt => {
            &&& j1 == j0
            &&& crate::natives::common::outcome(f0, j0.hv(), f1, j1.hv(), r, crate::natives::boxes::integer_parse_int(f0, j0.hv()))
        },
        LangNative::IntegerParseIntRadix => {
            &&& j1 == j0
            &&& crate::natives::common::outcome(f0, j0.hv(), f1, j1.hv(), r, crate::natives::boxes::integer_parse_int_radix(f0, j0.hv()))
        },
        LangNative::IntegerValueOfInt => {
            &&& crate::runtime::jvm::same_but_heap(j0, j1)
            &&& crate::natives::common::outcome(f0, j0.hv(), f1, j1.hv(), r, crate::natives::boxes::number_text(f0, j0.hv(), 0u8))
        },
        LangNative::IntegerValueOfIntObj => {
            &&& crate::runtime::jvm::same_but_heap(j0, j1)
            &&& crate::natives::common::outcome(f0, j0.hv(), f1, j1.hv(), r, crate::natives::boxes::integer_box(f0, j0.hv()))
        },
        LangNative::IntegerValueOfString => {
            &&& crate::runtime::jvm::same_but_heap(j0, j1)
            &&& crate::natives::common::outcome(f0, j0.hv(), f1, j1.hv(), r, crate::natives::boxes::parsed_box(f0, j0.hv(), false))
        },
        LangNative::IntegerToString => {
            &&& crate::runtime::jvm::same_but_heap(j0, j1)
            &&& crate::natives::common::outcome(f0, j0.hv(), f1, j1.hv(), r, crate::natives::boxes::number_text(f0, j0.hv(), 0u8))
        },
        LangNative::IntegerToHexString => {
            &&& crate::runtime::jvm::same_but_heap(j0, j1)
            &&& crate::natives::common::outcome(f0, j0.hv(), f1, j1.hv(), r, crate::natives::boxes::number_text(f0, j0.hv(), 1u8))
        },
        LangNative::IntegerMAXVALUE => {
            &&& j1 == j0
            &&& crate::natives::common::outcome(f0, j0.hv(), f1, j1.hv(), r, Ok((j0.hv(), 0, Some(crate::runtime::value::Value::Int(0x7fff_ffffi32)))))
        },
        LangNative::IntegerMINVALUE => {
            &&& j1 == j0
            &&& crate::natives::common::outcome(f0, j0.hv(), f1, j1.hv(), r, Ok((j0.hv(), 0, Some(crate::runtime::value::Value::Int(-0x8000_0000i32)))))
        },
        LangNative::IntegerSIZE => {
            &&& j1 == j0
            &&& crate::natives::common::outcome(f0, j0.hv(), f1, j1.hv(), r, Ok((j0.hv(), 0, Some(crate::runtime::value::Value::Int(32i32)))))
        },
        LangNative::IntegerIntValue => {
            &&& j1 == j0
            &&& crate::natives::common::outcome(f0, j0.hv(), f1, j1.hv(), r, crate::natives::boxes::integer_int_value(f0, j0.hv()))
        },
        LangNative::LongParseLong => {
            &&& j1 == j0
            &&& crate::natives::common::outcome(f0, j0.hv(), f1, j1.hv(), r, crate::natives::boxes::long_parse_long(f0, j0.hv()))
        },
        LangNative::LongValueOf => {
            &&& crate::runtime::jvm::same_but_heap(j0, j1)
            &&& crate::natives::common::outcome(f0, j0.hv(), f1, j1.hv(), r, crate::natives::boxes::parsed_box(f0, j0.hv(), true))
        },
        LangNative::LongToString => {
            &&& crate::runtime::jvm::same_but_heap(j0, j1)
            &&& crate::natives::common::outcome(f0, j0.hv(), f1, j1.hv(), r, crate::natives::boxes::number_text(f0, j0.hv(), 2u8))
        },
        LangNative::LongMAXVALUE => {
            &&& j1 == j0
            &&& crate::natives::common::outcome(f0, j0.hv(), f1, j1.hv(), r, Ok((j0.hv(), 0, Some(crate::runtime::value::Value::Long(0x7fff_ffff_ffff_ffffi64)))))
        },
        LangNative::LongMINVALUE => {
            &&& j1 == j0
            &&& crate::natives::common::outcome(f0, j0.hv(), f1, j1.hv(), r, Ok((j0.hv(), 0, Some(crate::runtime::value::Value::Long(-0x8000_0000_0000_0000i64)))))
        },
        LangNative::LongSIZE => {
            &&& j1 == j0
            &&& crate::natives::common::outcome(f0, j0.hv(), f1, j1.hv(), r, Ok((j0.hv(), 0, Some(crate::runtime::value::Value::Int(64i32)))))
        },
        LangNative::DoubleMAXVALUE => {
            &&& j1 == j0
            &&& crate::natives::common::outcome(f0, j0.hv(), f1, j1.hv(), r, Ok((j0.hv(), 0, Some(crate::runtime::value::Value::Double(0x7FEF_FFFF_FFFF_FFFFu64)))))
        },
        LangNative::DoubleMINVALUE => {
            &&& j1 == j0
            &&& crate::natives::common::outcome(f0, j0.hv(), f1, j1.hv(), r, Ok((j0.hv(), 0, Some(crate::runtime::value::Value::Double(0x0000_0000_0000_0001u64)))))
        },
        LangNative::MathAbsInt => {
            &&& j1 == j0
            &&& crate::natives::common::outcome(f0, j0.hv(), f1, j1.hv(), r, crate::natives::boxes::math_abs(f0, j0.hv(), 0u8))
        },
        LangNative::MathAbsLong => {
            &&& j1 == j0
            &&& crate::natives::common::outcome(f0, j0.hv(), f1, j1.hv(), r, crate::natives::boxes::math_abs(f0, j0.hv(), 1u8))
        },
        LangNative::MathAbsFloat => {
            &&& j1 == j0
            &&& crate::natives::common::outcome(f0, j0.hv(), f1, j1.hv(), r, crate::natives::boxes::math_abs(f0, j0.hv(), 2u8))
        },
        LangNative::MathAbsDouble => {
            &&& j1 == j0
            &&& crate::natives::common::outcome(f0, j0.hv(), f1, j1.hv(), r, crate::natives::boxes::math_abs(f0, j0.hv(), 3u8))
        },
        LangNative::MathMaxInt => {
            &&& j1 == j0
            &&& crate::natives::common::outcome(f0, j0.hv(), f1, j1.hv(), r, crate::natives::boxes::math_extreme(f0, j0.hv(), false, true))
        },
        LangNative::MathMaxLong => {
            &&& j1 == j0
            &&& crate::natives::common::outcome(f0, j0.hv(), f1, j1.hv(), r, crate::natives::boxes::math_extreme(f0, j0.hv(), true, true))
        },
        LangNative::MathMinInt => {
            &&& j1 == j0
            &&& crate::natives::common::outcome(f0, j0.hv(), f1, j1.hv(), r, crate::natives::boxes::math_extreme(f0, j0.hv(), false, false))
        },
        LangNative::MathMinLong => {
            &&& j1 == j0
            &&& crate::natives::common::outcome(f0, j0.hv(), f1, j1.hv(), r, crate::natives::boxes::math_extreme(f0, j0.hv(), true, false))
        },
        LangNative::ClassGetName => {
            &&& crate::runtime::jvm::same_but_heap(j0, j1)
            &&& crate::natives::common::outcome(f0, j0.hv(), f1, j1.hv(), r, crate::natives::boxes::class_get_name(f0, j0.hv(), false))
        },
        LangNative::ClassForName => {
            &&& crate::runtime::jvm::same_but_heap(j0, j1)
            &&& crate::natives::common::outcome(f0, j0.hv(), f1, j1.hv(), r, crate::natives::boxes::class_for_name(f0, j0.hv(), j0.method_area@.map_values(|e: (Seq<char>, crate::runtime::method::MethodView)| e.0)))
        },
        LangNative::ClassGetSimpleName => {
            &&& crate::runtime::jvm::same_but_heap(j0, j1)
            &&& crate::natives::common::outcome(f0, j0.hv(), f1, j1.hv(), r, crate::natives::boxes::class_get_name(f0, j0.hv(), true))
        },
        LangNative::FloatValueOfFloat => {
            &&& crate::runtime::jvm::same_but_heap(j0, j1)
            &&& crate::natives::common::outcome(f0, j0.hv(), f1, j1.hv(), r, crate::natives::boxes::float_box(f0, j0.hv()))
        },
        LangNative::FloatFloatValue => {
            &&& j1 == j0
            &&& crate::natives::common::outcome(f0, j0.hv(), f1, j1.hv(), r, crate::natives::boxes::float_float_value(f0, j0.hv()))
        },
        LangNative::BooleanParseBoolean => {
            &&& j1 == j0
            &&& crate::natives::common::outcome(f0, j0.hv(), f1, j1.hv(), r, crate::natives::boxes::boolean_parse(f0, j0.hv()))
        },
        LangNative::BooleanBooleanValue => {
            &&& j1 == j0
            &&& crate::natives::common::outcome(f0, j0.hv(), f1, j1.hv(), r, Ok((j0.hv(), 0, Some(crate::runtime::value::Value::Boolean(false)))))
        },
        LangNative::BooleanToString => {
            &&& crate::runtime::jvm::same_but_heap(j0, j1)
            &&& crate::natives::common::outcome(f0, j0.hv(), f1, j1.hv(), r, crate::natives::boxes::boolean_to_string(f0, j0.hv()))
        },
        LangNative::RunnableRun => {
            &&& j1 == j0
            &&& f1 == f0
            &&& r == Ok::<(), crate::runtime::error::JvmError>(())
        },
        LangNative::ExceptionInitWithMessage => {
            &&& crate::runtime::jvm::same_but_heap(j0, j1)
            &&& crate::natives::common::outcome(f0, j0.hv(), f1, j1.hv(), r, crate::natives::boxes::exception_init_with_message(f0, j0.hv()))
        },
    }
}

/// Tests `lang_pre` at run time.
pub fn lang_ready(n: LangNative, frame: &Frame, jvm: &Jvm) -> (b: bool)
    ensures
        b == lang_pre(n, *frame, *jvm),
{
    match n {
        LangNative::ObjectGetClass => true,
        LangNative::ObjectHashCode => true,
        LangNative::ObjectEquals => true,
        LangNative::ObjectToString => true,
        LangNative::ObjectNotify => true,
        LangNative::ObjectNotifyAll => true,
        LangNative::ObjectWait => true,
        LangNative::ObjectWaitTimeout => true,
        LangNative::ObjectWaitNanos => true,
        LangNative::ObjectInit => true,
        LangNative::StringLength => true,
        LangNative::StringEquals => true,
        LangNative::StringValueOfInt => true,
        LangNative::StringValueOfLong => true,
        LangNative::StringValueOfBool => true,
        LangNative::StringIsEmpty => true,
        LangNative::SystemIdentityHashCode => true,
        LangNative::ThreadRun => true,
        LangNative::ThreadSleep => true,
        LangNative::ThreadJoin => ready::join_ready_check(jvm, frame),
        LangNative::ThreadYield => true,
        LangNative::ThreadCurrentThread => true,
        LangNative::ThreadGetName => true,
        LangNative::ThreadSetName => true,
        LangNative::ThreadGetPriority => true,
        LangNative::ThreadSetPriority => true,
        LangNative::ThreadGetId => true,
        LangNative::ThreadInterrupt => true,
        LangNative::ThreadIsInterrupted => true,
        LangNative::ThreadInterrupted => true,
        LangNative::ThreadIsAlive => true,
        LangNative::StringBuilderInit => true,
        LangNative::SystemCurrentTimeMillis => true,
        LangNative::SystemNanoTime => true,
        LangNative::StringBuilderInitWithCapacity => true,
        LangNative::StringBuilderInitWithString => true,
        LangNative::StringBuilderAppendString => true,
        LangNative::StringBuilderAppendInt => true,
        LangNative::StringBuilderAppendLong => true,
        LangNative::StringBuilderAppendBool => true,
        LangNative::StringBuilderAppendChar => true,
        LangNative::StringBuilderAppendObj => true,
        LangNative::StringBuilderToString => true,
        LangNative::StringBuilderLength => true,
        LangNative::IntegerParseInt => true,
        LangNative::IntegerParseIntRadix => true,
        LangNative::IntegerValueOfInt => true,
        LangNative::IntegerValueOfIntObj => true,
        LangNative::IntegerValueOfString => true,
        LangNative::IntegerToString => true,
        LangNative::IntegerToHexString => true,
        LangNative::IntegerMAXVALUE => true,
        LangNative::IntegerMINVALUE => true,
        LangNative::IntegerSIZE => true,
        LangNative::IntegerIntValue => true,
        LangNative::LongParseLong => true,
        LangNative::LongValueOf => true,
        LangNative::LongToString => true,
        LangNative::LongMAXVALUE => true,
        LangNative::LongMINVALUE => true,
        LangNative::LongSIZE => true,
        LangNative::DoubleMAXVALUE => true,
        LangNative::DoubleMINVALUE => true,
        LangNative::MathAbsInt => true,
        LangNative::MathAbsLong => true,
        LangNative::MathAbsFloat => true,
        LangNative::MathAbsDouble => true,
        LangNative::MathMaxInt => true,
        LangNative::MathMaxLong => true,
        LangNative::MathMinInt => true,
        LangNative::MathMinLong => true,
        LangNative::ClassGetName => true,
        LangNative::ClassForName => true,
        LangNative::ClassGetSimpleName => true,
        LangNative::FloatValueOfFloat => true,
        LangNative::FloatFloatValue => true,
        LangNative::BooleanParseBoolean => true,
        LangNative::BooleanBooleanValue => true,
        LangNative::BooleanToString => true,
        LangNative::RunnableRun => true,
        LangNative::ExceptionInitWithMessage => true,
    }
}

/// Runs the native of `n`.
pub fn run_lang(n: LangNative, frame: &mut Frame, jvm: &mut Jvm) -> (r: Result<(), JvmError>)
    requires
        old(jvm).scheduler.wf(),
        lang_pre(n, *old(frame), *old(jvm)),
    ensures
        final(jvm).scheduler.wf(),
        lang_post(n, *old(frame), *old(jvm), *final(frame), *final(jvm), r),
{
    match n {
        LangNative::ObjectGetClass => crate::natives::lang::object_get_class_native(frame, jvm),
        LangNative::ObjectHashCode => crate::natives::lang::object_hash_code_native(frame, jvm),
        LangNative::ObjectEquals => crate::natives::lang::object_equals_native(frame, jvm),
        LangNative::ObjectToString => crate::natives::lang::object_to_string_native(frame, jvm),
        LangNative::ObjectNotify => crate::natives::lang::object_monitor_check_native(frame, jvm),
        LangNative::ObjectNotifyAll => crate::natives::lang::object_monitor_check_native(frame, jvm),
        LangNative::ObjectWait => crate::natives::lang::object_monitor_check_native(frame, jvm),
        LangNative::ObjectWaitTimeout => crate::natives::lang::object_monitor_check_native(frame, jvm),
        LangNative::ObjectWaitNanos => crate::natives::lang::object_monitor_check_native(frame, jvm),
        LangNative::ObjectInit => crate::natives::lang::nothing_native(frame, jvm),
        LangNative::StringLength => crate::natives::lang::string_length_native(frame, jvm),
        LangNative::StringEquals => crate::natives::lang::string_equals_native(frame, jvm),
        LangNative::StringValueOfInt => crate::natives::lang::string_value_of_native(frame, jvm, 0u8),
        LangNative::StringValueOfLong => crate::natives::lang::string_value_of_native(frame, jvm, 1u8),
        LangNative::StringValueOfBool => crate::natives::lang::string_value_of_native(frame, jvm, 2u8),
        LangNative::StringIsEmpty => crate::natives::lang::string_is_empty_native(frame, jvm),
        LangNative::SystemIdentityHashCode => crate::natives::lang::system_identity_hash_code_native(frame, jvm),
        LangNative::ThreadRun => crate::natives::lang::nothing_native(frame, jvm),
        LangNative::ThreadSleep => crate::natives::threads::thread_sleep_native(frame, jvm),
        LangNative::ThreadJoin => crate::natives::threads::thread_join_native(frame, jvm),
        LangNative::ThreadYield => crate::natives::threads::thread_yield_native(frame, jvm),
        LangNative::ThreadCurrentThread => crate::natives::threads::thread_current_native(frame, jvm),
        LangNative::ThreadGetName => crate::natives::threads::thread_get_name_native(frame, jvm),
        LangNative::ThreadSetName => crate::natives::threads::thread_set_name_native(frame, jvm),
        LangNative::ThreadGetPriority => crate::natives::threads::thread_get_priority_native(frame, jvm),
        LangNative::ThreadSetPriority => crate::natives::threads::thread_set_priority_native(frame, jvm),
        LangNative::ThreadGetId => crate::natives::threads::thread_get_id_native(frame, jvm),
        LangNative::ThreadInterrupt => crate::natives::threads::thread_interrupt_native(frame, jvm),
        LangNative::ThreadIsInterrupted => crate::natives::threads::thread_is_interrupted_native(frame, jvm),
        LangNative::ThreadInterrupted => crate::natives::threads::thread_interrupted_native(frame, jvm),
        LangNative::ThreadIsAlive => crate::natives::threads::thread_is_alive_native(frame, jvm),
        LangNative::StringBuilderInit => crate::natives::lang::builder_init_native(frame, jvm),
        LangNative::SystemCurrentTimeMillis => crate::natives::clock::current_time_millis_now(frame, jvm),
        LangNative::SystemNanoTime => crate::natives::clock::nano_time_now(frame, jvm),
        LangNative::StringBuilderInitWithCapacity => crate::natives::lang::builder_init_native(frame, jvm),
        LangNative::StringBuilderInitWithString => crate::natives::lang::builder_init_with_string_native(frame, jvm),
        LangNative::StringBuilderAppendString => crate::natives::lang::builder_append_native(frame, jvm, 0u8),
        LangNative::StringBuilderAppendInt => crate::natives::lang::builder_append_native(frame, jvm, 1u8),
        LangNative::StringBuilderAppendLong => crate::natives::lang::builder_append_native(frame, jvm, 2u8),
        LangNative::StringBuilderAppendBool => crate::natives::lang::builder_append_native(frame, jvm, 3u8),
        LangNative::StringBuilderAppendChar => crate::natives::lang::builder_append_char_native(frame, jvm),
        LangNative::StringBuilderAppendObj => crate::natives::lang::builder_append_native(frame, jvm, 5u8),
        LangNative::StringBuilderToString => crate::natives::lang::builder_to_string_native(frame, jvm),
        LangNative::StringBuilderLength => crate::natives::lang::builder_length_native(frame, jvm),
        LangNative::IntegerParseInt => crate::natives::boxes::integer_parse_int_native(frame, jvm),
        LangNative::IntegerParseIntRadix => crate::natives::boxes::integer_parse_int_radix_native(frame, jvm),
        LangNative::IntegerValueOfInt => crate::natives::boxes::number_text_native(frame, jvm, 0u8),
        LangNative::IntegerValueOfIntObj => crate::natives::boxes::integer_box_native(frame, jvm),
        LangNative::IntegerValueOfString => crate::natives::boxes::parsed_box_native(frame, jvm, false),
        LangNative::IntegerToString => crate::natives::boxes::number_text_native(frame, jvm, 0u8),
        LangNative::IntegerToHexString => crate::natives::boxes::number_text_native(frame, jvm, 1u8),
        LangNative::IntegerMAXVALUE => crate::natives::boxes::push_constant_native(frame, jvm, Value::Int(0x7fff_ffffi32)),
        LangNative::IntegerMINVALUE => crate::natives::boxes::push_constant_native(frame, jvm, Value::Int(-0x8000_0000i32)),
        LangNative::IntegerSIZE => crate::natives::boxes::push_constant_native(frame, jvm, Value::Int(32i32)),
        LangNative::IntegerIntValue => crate::natives::boxes::integer_int_value_native(frame, jvm),
        LangNative::LongParseLong => crate::natives::boxes::long_parse_long_native(frame, jvm),
        LangNative::LongValueOf => crate::natives::boxes::parsed_box_native(frame, jvm, true),
        LangNative::LongToString => crate::natives::boxes::number_text_native(frame, jvm, 2u8),
        LangNative::LongMAXVALUE => crate::natives::boxes::push_constant_native(frame, jvm, Value::Long(0x7fff_ffff_ffff_ffffi64)),
        LangNative::LongMINVALUE => crate::natives::boxes::push_constant_native(frame, jvm, Value::Long(-0x8000_0000_0000_0000i64)),
        LangNative::LongSIZE => crate::natives::boxes::push_constant_native(frame, jvm, Value::Int(64i32)),
        LangNative::DoubleMAXVALUE => crate::natives::boxes::push_constant_native(frame, jvm, Value::Double(0x7FEF_FFFF_FFFF_FFFFu64)),
        LangNative::DoubleMINVALUE => crate::natives::boxes::push_constant_native(frame, jvm, Value::Double(0x0000_0000_0000_0001u64)),
        LangNative::MathAbsInt => crate::natives::boxes::math_abs_native(frame, jvm, 0u8),
        LangNative::MathAbsLong => crate::natives::boxes::math_abs_native(frame, jvm, 1u8),
        LangNative::MathAbsFloat => crate::natives::boxes::math_abs_native(frame, jvm, 2u8),
        LangNative::MathAbsDouble => crate::natives::boxes::math_abs_native(frame, jvm, 3u8),
        LangNative::MathMaxInt => crate::natives::boxes::math_extreme_native(frame, jvm, false, true),
        LangNative::MathMaxLong => crate::natives::boxes::math_extreme_native(frame, jvm, true, true),
        LangNative::MathMinInt => crate::natives::boxes::math_extreme_native(frame, jvm, false, false),
        LangNative::MathMinLong => crate::natives::boxes::math_extreme_native(frame, jvm, true, false),
        LangNative::ClassGetName => crate::natives::boxes::class_get_name_native(frame, jvm, false),
        LangNative::ClassForName => crate::natives::boxes::class_for_name_native(frame, jvm),
        LangNative::ClassGetSimpleName => crate::natives::boxes::class_get_name_native(frame, jvm, true),
        LangNative::FloatValueOfFloat => crate::natives::boxes::float_box_native(frame, jvm),
        LangNative::FloatFloatValue => crate::natives::boxes::float_float_value_native(frame, jvm),
        LangNative::BooleanParseBoolean => crate::natives::boxes::boolean_parse_native(frame, jvm),
        LangNative::BooleanBooleanValue => crate::natives::boxes::push_constant_native(frame, jvm, Value::Boolean(false)),
        LangNative::BooleanToString => crate::natives::boxes::boolean_to_string_native(frame, jvm),
        LangNative::RunnableRun => crate::natives::lang::nothing_native(frame, jvm),
        LangNative::ExceptionInitWithMessage => crate::natives::boxes::exception_init_with_message_native(frame, jvm),
    }
}

/// What a call of `n` needs so that it runs to its end: the conditions of its native.
pub open spec fn util_pre(n: UtilNative, f0: Frame, j0: Jvm) -> bool {
    match n {
        UtilNative::ArrayListInit => true,
        UtilNative::ArrayListInitCapacity => true,
        UtilNative::ArrayListSize => true,
        UtilNative::ArrayListAdd => (crate::natives::list::list_ready(j0.hv(), f0)),
        UtilNative::ArrayListGet => true,
        UtilNative::ArrayListIsEmpty => true,
        UtilNative::ArrayListRemove => (crate::natives::list::list_ready(j0.hv(), f0)),
        UtilNative::ArrayListIndexOf => (crate::natives::list::list_ready(j0.hv(), f0)),
        UtilNative::ArrayListContains => (crate::natives::list::list_ready(j0.hv(), f0)),
        UtilNative::ArrayListClear => true,
        UtilNative::ArrayListSet => true,
        UtilNative::ArrayListForEach => true,
        UtilNative::ArrayListAddAll => (crate::natives::list::add_all_ready(j0.hv(), f0)),
        UtilNative::HashMapInit => true,
        UtilNative::HashMapSize => true,
        UtilNative::HashMapPut => (crate::natives::map::size_ok(j0.hv(), f0)),
        UtilNative::HashMapGet => true,
        UtilNative::HashMapContainsKey => true,
        UtilNative::HashMapIsEmpty => true,
        UtilNative::HashMapKeySet => true,
        UtilNative::HashMapClear => true,
        UtilNative::HashMapComputeIfAbsent => (crate::natives::map::size_ok(j0.hv(), f0)),
        UtilNative::HashMapMerge => (crate::natives::map::size_ok(j0.hv(), f0)),
        UtilNative::HashMapForEach => true,
        UtilNative::HashMapGetOrDefault => (crate::natives::map::size_ok(j0.hv(), f0)),
        UtilNative::HashMapPutIfAbsent => (crate::natives::map::size_ok(j0.hv(), f0)),
        UtilNative::HashMapReplace => (crate::natives::map::size_ok(j0.hv(), f0)),
        UtilNative::HashMapValues => true,
        UtilNative::HashMapEntrySet => true,
        UtilNative::HashSetInit => true,
        UtilNative::HashSetAdd => (crate::natives::set::set_ready(j0.hv(), f0)),
        UtilNative::HashSetSize => true,
        UtilNative::HashSetIsEmpty => true,
        UtilNative::HashSetContains => true,
        UtilNative::ArraysAsList => true,
        UtilNative::ArraysSort => true,
        UtilNative::ArraysBinarySearch => true,
        UtilNative::ArraysCopyOf => true,
        UtilNative::ArraysFill => true,
        UtilNative::CollectionsSingletonList => true,
        UtilNative::CollectionsEmptyList => (0usize <= 1),
        UtilNative::CollectionsSort => (crate::natives::sorting::sort_ready(j0.hv(), f0, false)),
        UtilNative::CollectionsSortWithComparator => (crate::natives::sorting::sort_ready(j0.hv(), f0, true)),
        UtilNative::CollectionsDisjoint => true,
        UtilNative::CollectionsReplaceAll => true,
        UtilNative::CollectionsReverse => (crate::natives::collections::reverse_ready(j0.hv(), f0)),
        UtilNative::CollectionsFill => (f0.stack@.len() >= 2 ==> crate::natives::collections::size_loop_ready(j0.hv(), crate::natives::common::top(f0, 1))),
        UtilNative::CollectionsFrequency => (f0.stack@.len() >= 2 ==> crate::natives::collections::size_loop_ready(j0.hv(), crate::natives::common::top(f0, 1))),
        UtilNative::CollectionsMax => (f0.stack@.len() >= 1 ==> crate::natives::collections::size_loop_ready(j0.hv(), crate::natives::common::top(f0, 0))),
        UtilNative::CollectionsMin => (f0.stack@.len() >= 1 ==> crate::natives::collections::size_loop_ready(j0.hv(), crate::natives::common::top(f0, 0))),
        UtilNative::CollectionsNCopies => true,
        UtilNative::CollectionsSingleton => true,
        UtilNative::CollectionsSingletonMap => true,
        UtilNative::CollectionsUnmodifiableList => true,
        UtilNative::CollectionsUnmodifiableMap => true,
        UtilNative::CollectionsUnmodifiableSet => (1 <= 1usize <= 3),
        UtilNative::CollectionsCheckedList => (1 <= 2usize <= 3),
        UtilNative::CollectionsCheckedMap => (1 <= 3usize <= 3),
        UtilNative::CollectionsCheckedSet => (1 <= 2usize <= 3),
        UtilNative::CollectionsSynchronizedList => true,
        UtilNative::CollectionsSynchronizedMap => true,
        UtilNative::CollectionsSynchronizedSet => (1 <= 1usize <= 3),
        UtilNative::CollectionsNewSetFromMap => true,
        UtilNative::CollectionsReverseOrder => true,
        UtilNative::CollectionsList => (1usize <= 1),
        UtilNative::CollectionsEnumeration => true,
        UtilNative::CollectionsAddAll => (crate::natives::collections::add_all_ready(j0.hv(), f0)),
        UtilNative::CollectionsIndexOfSubList => true,
        UtilNative::CollectionsLastIndexOfSubList => true,
        UtilNative::CollectionsRotate => (crate::natives::collections::rotate_ready(j0.hv(), f0)),
        UtilNative::CollectionsSwap => true,
        UtilNative::CollectionsAsLifoQueue => true,
        UtilNative::CollectionsCopy => true,
        UtilNative::ObjectsEquals => true,
        UtilNative::ObjectsHashCode => true,
        UtilNative::ObjectsRequireNonNull => true,
        UtilNative::ObjectsDeepEquals => true,
        UtilNative::ObjectsHash => true,
        UtilNative::ObjectsCompare => true,
        UtilNative::ObjectsIsNull => true,
        UtilNative::ObjectsNonNull => true,
        UtilNative::OptionalEmpty => true,
        UtilNative::OptionalOf => true,
        UtilNative::OptionalIsPresent => true,
        UtilNative::OptionalGet => true,
        UtilNative::OptionalOrElse => true,
        UtilNative::LinkedListInit => true,
        UtilNative::LinkedListAdd => (crate::natives::seqs::size_ready(j0.hv(), f0)),
        UtilNative::LinkedListAddFirst => (crate::natives::seqs::size_ready(j0.hv(), f0)),
        UtilNative::LinkedListGet => true,
        UtilNative::LinkedListGetFirst => true,
        UtilNative::LinkedListGetLast => true,
        UtilNative::LinkedListSize => true,
        UtilNative::LinkedListIsEmpty => true,
        UtilNative::LinkedListRemove => (crate::natives::seqs::remove_ready(j0.hv(), f0)),
        UtilNative::LinkedListRemoveFirst => (crate::natives::list::list_ready(j0.hv(), f0)),
        UtilNative::LinkedListRemoveLast => (crate::natives::list::list_ready(j0.hv(), f0)),
        UtilNative::TreeMapInit => true,
        UtilNative::TreeMapPut => (crate::natives::map::size_ok(j0.hv(), f0)),
        UtilNative::TreeMapGet => (crate::natives::map::size_ok(j0.hv(), f0)),
        UtilNative::TreeMapSize => true,
        UtilNative::LinkedHashSetInit => true,
        UtilNative::LinkedHashSetAdd => (crate::natives::map::size_ok(j0.hv(), f0)),
        UtilNative::LinkedHashSetSize => true,
        UtilNative::PriorityQueueInit => true,
        UtilNative::PriorityQueueAdd => (crate::natives::map::size_ok(j0.hv(), f0)),
        UtilNative::PriorityQueuePeek => true,
        UtilNative::PriorityQueuePoll => (crate::natives::ordered::queue_ready(j0.hv(), f0)),
        UtilNative::PriorityQueueSize => true,
        UtilNative::UUIDToString => true,
        UtilNative::UUIDFromString => true,
        UtilNative::StackInit => true,
        UtilNative::StackPush => (crate::natives::seqs::size_ready(j0.hv(), f0)),
        UtilNative::StackPop => (crate::natives::list::list_ready(j0.hv(), f0)),
        UtilNative::StackPeek => true,
        UtilNative::StackEmpty => true,
        UtilNative::StackSearch => (crate::natives::seqs::size_ready(j0.hv(), f0)),
        UtilNative::Base64GetEncoder => true,
        UtilNative::Base64GetDecoder => true,
        UtilNative::PropertiesInit => true,
        UtilNative::PropertiesSetProperty => (crate::natives::map::size_ok(j0.hv(), f0)),
        UtilNative::PropertiesGetProperty => (crate::natives::map::size_ok(j0.hv(), f0)),
        UtilNative::ComparatorNaturalOrder => true,
        UtilNative::ComparatorReverseOrder => true,
        UtilNative::ComparatorThenComparing => true,
        UtilNative::ComparatorNullsFirst => true,
        UtilNative::ComparatorNullsLast => true,
        UtilNative::ComparatorReversed => true,
        UtilNative::AtomicIntegerInit => true,
        UtilNative::AtomicIntegerInitValue => true,
        UtilNative::AtomicIntegerGet => true,
        UtilNative::AtomicIntegerSet => true,
        UtilNative::AtomicIntegerIncrementAndGet => (match Some(1i64) { Some(c) => -1 <= c <= 1, None => true, }),
        UtilNative::AtomicIntegerDecrementAndGet => (match Some(-1i64) { Some(c) => -1 <= c <= 1, None => true, }),
        UtilNative::AtomicIntegerAddAndGet => (match None::<i64> { Some(c) => -1 <= c <= 1, None => true, }),
        UtilNative::AtomicIntegerCompareAndSet => true,
        UtilNative::AtomicLongInitValue => true,
        UtilNative::AtomicLongGet => true,
        UtilNative::AtomicLongSet => true,
        UtilNative::AtomicLongIncrementAndGet => (match Some(1i64) { Some(c) => -1 <= c <= 1, None => true, }),
        UtilNative::AtomicLongAddAndGet => (match None::<i64> { Some(c) => -1 <= c <= 1, None => true, }),
        UtilNative::AtomicReferenceInitValue => true,
        UtilNative::AtomicReferenceGet => true,
        UtilNative::AtomicReferenceSet => true,
        UtilNative::AtomicBooleanInitValue => true,
        UtilNative::AtomicBooleanGet => true,
        UtilNative::AtomicBooleanSet => true,
        UtilNative::AtomicBooleanGetAndSet => true,
        UtilNative::AtomicBooleanCompareAndSet => true,
        UtilNative::LinkedHashMapInit => true,
        UtilNative::LinkedHashMapPut => (crate::natives::map::size_ok(j0.hv(), f0)),
        UtilNative::LinkedHashMapGet => (crate::natives::map::size_ok(j0.hv(), f0)),
        UtilNative::LinkedHashMapSize => true,
        UtilNative::LinkedHashMapIsEmpty => true,
        UtilNative::LinkedHashMapContainsKey => (crate::natives::map::size_ok(j0.hv(), f0)),
        UtilNative::ReentrantLockLock => true,
        UtilNative::ReentrantLockUnlock => true,
        UtilNative::ReentrantLockTryLock => true,
        UtilNative::DateInitMillis => true,
        UtilNative::DateGetTime => true,
        UtilNative::DateSetTime => true,
        UtilNative::DateToString => true,
        UtilNative::DateInit => true,
        UtilNative::CollectionsShuffle => (crate::natives::collections::reverse_ready(j0.hv(), f0)),
        UtilNative::RandomNextInt => true,
        UtilNative::RandomNextLong => true,
        UtilNative::RandomNextBoolean => true,
        UtilNative::RandomNextIntBound => true,
        UtilNative::UUIDRandomUUID => true,
        UtilNative::ScannerInit => true,
        UtilNative::ScannerNextInt => true,
        UtilNative::ScannerNextLong => true,
        UtilNative::ScannerNext => true,
        UtilNative::ScannerNextLine => (crate::natives::scanner::scanner_line_ready(j0.hv(), f0)),
        UtilNative::ScannerHasNext => true,
        UtilNative::LocaleGetDefault => true,
        UtilNative::LocaleGetLanguage => true,
        UtilNative::LocaleGetCountry => true,
        UtilNative::BitSetInit => true,
        UtilNative::BitSetGet => true,
        UtilNative::BitSetSet => (crate::natives::bits::bitset_set_ready(j0.hv(), f0)),
        UtilNative::BitSetClear => true,
        UtilNative::BitSetCardinality => true,
        UtilNative::OptionalIntEmpty => (false ==> 0u8 <= 1),
        UtilNative::OptionalIntOf => (true ==> 0u8 <= 1),
        UtilNative::OptionalIntIsPresent => true,
        UtilNative::OptionalIntGetAsInt => true,
        UtilNative::OptionalIntOrElse => true,
        UtilNative::OptionalLongEmpty => (false ==> 1u8 <= 1),
        UtilNative::OptionalLongOf => (true ==> 1u8 <= 1),
        UtilNative::OptionalLongIsPresent => true,
        UtilNative::OptionalLongGetAsLong => true,
        UtilNative::OptionalDoubleEmpty => (false ==> 4u8 <= 1),
        UtilNative::OptionalDoubleIsPresent => true,
        UtilNative::OptionalDoubleGetAsDouble => true,
        UtilNative::Base64EncoderEncodeToString => true,
        UtilNative::Base64DecoderDecode => true,
        UtilNative::ArraysToString => false,
        UtilNative::ObjectsToString => false,
    }
}

/// What a call of `n` does: the contract of its native, from frame `f0` and machine `j0`
/// to frame `f1`, machine `j1` and result `r`.
pub open spec fn util_post(n: UtilNative, f0: Frame, j0: Jvm, f1: Frame, j1: Jvm, r: Result<(), JvmError>) -> bool {
    match n {
        UtilNative::ArrayListInit => {
            &&& crate::runtime::jvm::same_but_heap(j0, j1)
            &&& f1 == f0
            &&& match crate::natives::common::call_error(f0, 0) { Some(e) => r == Err::<(), crate::runtime::error::JvmError>(e) && j1.hv() == j0.hv(), None => r == Ok::<(), crate::runtime::error::JvmError>(()) && j1.hv() == crate::natives::list::list_init(j0.hv(), crate::natives::common::this_of(f0), 0), }
        },
        UtilNative::ArrayListInitCapacity => {
            &&& crate::runtime::jvm::same_but_heap(j0, j1)
            &&& f1 == f0
            &&& f0.locals@.len() < 2 ==> r == Err::<(), crate::runtime::error::JvmError>(crate::runtime::frame::local_error()) && j1.hv() == j0.hv()
            &&& f0.locals@.len() >= 2 ==> r == Ok::<(), crate::runtime::error::JvmError>(()) && j1.hv() == crate::natives::list::list_init( j0.hv(), crate::natives::common::this_of(f0), if crate::runtime::value::spec_as_int(f0.locals@[1]) < 0 { 0 } else { crate::runtime::value::spec_as_int(f0.locals@[1]) as nat }, )
        },
        UtilNative::ArrayListSize => {
            &&& j1 == j0
            &&& crate::natives::common::instance_outcome(f0, j0.hv(), f1, j1.hv(), r, 0, |id: usize| (j0.hv(), Some(crate::runtime::value::Value::Int(crate::natives::map::size_field(j0.hv(), id)))), false, Some(crate::runtime::value::Value::Int(0)))
        },
        UtilNative::ArrayListAdd => {
            &&& crate::runtime::jvm::same_but_heap(j0, j1)
            &&& crate::natives::common::instance_outcome(f0, j0.hv(), f1, j1.hv(), r, 1, |id: usize| (crate::natives::list::list_add(j0.hv(), id, crate::natives::common::top(f0, 0)), Some(crate::runtime::value::Value::Boolean(true))), true, Some(crate::runtime::value::Value::Boolean(true)))
        },
        UtilNative::ArrayListGet => {
            &&& j1 == j0
            &&& crate::natives::common::instance_outcome(f0, j0.hv(), f1, j1.hv(), r, 1, |id: usize| (j0.hv(), Some( match crate::natives::common::array_of(j0.hv(), crate::natives::list::list_array(j0.hv(), id)) { Some(e) => if 0 <= crate::runtime::value::spec_as_int(crate::natives::common::top(f0, 0)) < e.len() { e[crate::runtime::value::spec_as_int(crate::natives::common::top(f0, 0)) as int] } else { crate::runtime::value::Value::Null }, None => crate::runtime::value::Value::Null, })), false, Some(crate::runtime::value::Value::Null))
        },
        UtilNative::ArrayListIsEmpty => {
            &&& j1 == j0
            &&& crate::natives::common::instance_outcome(f0, j0.hv(), f1, j1.hv(), r, 0, |id: usize| (j0.hv(), Some(crate::runtime::value::Value::Boolean(crate::natives::map::size_field(j0.hv(), id) == 0))), false, Some(crate::runtime::value::Value::Boolean(true)))
        },
        UtilNative::ArrayListRemove => {
            &&& crate::runtime::jvm::same_but_heap(j0, j1)
            &&& crate::natives::common::instance_outcome(f0, j0.hv(), f1, j1.hv(), r, 1, |id: usize| crate::natives::list::list_remove(j0.hv(), id, crate::runtime::value::spec_as_int(crate::natives::common::top(f0, 0))), true, Some(crate::runtime::value::Value::Null))
        },
        UtilNative::ArrayListIndexOf => {
            &&& j1 == j0
            &&& crate::natives::common::instance_outcome(f0, j0.hv(), f1, j1.hv(), r, 1, |id: usize| (j0.hv(), Some(crate::runtime::value::Value::Int(crate::natives::list::list_index_of(j0.hv(), id, crate::natives::common::top(f0, 0))))), false, Some(crate::runtime::value::Value::Int(-1i32)))
        },
        UtilNative::ArrayListContains => {
            &&& j1 == j0
            &&& crate::natives::common::instance_outcome(f0, j0.hv(), f1, j1.hv(), r, 1, |id: usize| (j0.hv(), Some(crate::runtime::value::Value::Boolean(crate::natives::list::list_index_of(j0.hv(), id, crate::natives::common::top(f0, 0)) != -1))), false, Some(crate::runtime::value::Value::Boolean(false)))
        },
        UtilNative::ArrayListClear => {
            &&& crate::runtime::jvm::same_but_heap(j0, j1)
            &&& f1 == f0
            &&& match crate::natives::common::call_error(f0, 0) { Some(e) => r == Err::<(), crate::runtime::error::JvmError>(e) && j1.hv() == j0.hv(), None => r == Ok::<(), crate::runtime::error::JvmError>(()) && j1.hv() == match crate::natives::common::this_of(f0) { crate::runtime::value::Value::ObjectRef(id) => crate::natives::arrays::heap_null_fill( crate::runtime::jvm::heap_set_field(j0.hv(), crate::natives::common::this_of(f0), "size"@, crate::runtime::value::Value::Int(0)), crate::natives::list::list_array(j0.hv(), id), ), _ => j0.hv(), }, }
        },
        UtilNative::ArrayListSet => {
            &&& crate::runtime::jvm::same_but_heap(j0, j1)
            &&& crate::natives::common::instance_outcome(f0, j0.hv(), f1, j1.hv(), r, 2, |id: usize| crate::natives::list::list_set(j0.hv(), id, crate::runtime::value::spec_as_int(crate::natives::common::top(f0, 1)), crate::natives::common::top(f0, 0)), true, Some(crate::runtime::value::Value::Null))
        },
        UtilNative::ArrayListForEach => {
            &&& j1 == j0
            &&& f1 == f0
            &&& r == Ok::<(), crate::runtime::error::JvmError>(())
        },
        UtilNative::ArrayListAddAll => {
            &&& crate::runtime::jvm::same_but_heap(j0, j1)
            &&& crate::natives::common::instance_outcome(f0, j0.hv(), f1, j1.hv(), r, 1, |id: usize| crate::natives::list::list_add_all(j0.hv(), id, crate::natives::common::top(f0, 0)), true, Some(crate::runtime::value::Value::Boolean(false)))
        },
        UtilNative::HashMapInit => {
            &&& crate::runtime::jvm::same_but_heap(j0, j1)
            &&& f1 == f0
            &&& match crate::natives::common::call_error(f0, 0) { Some(e) => r == Err::<(), crate::runtime::error::JvmError>(e) && j1.hv() == j0.hv(), None => r == Ok::<(), crate::runtime::error::JvmError>(()) && j1.hv() == crate::natives::map::map_init(j0.hv(), crate::natives::common::this_of(f0)), }
        },
        UtilNative::HashMapSize => {
            &&& j1 == j0
            &&& crate::natives::common::instance_outcome(f0, j0.hv(), f1, j1.hv(), r, 0, |id: usize| (j0.hv(), Some(crate::runtime::value::Value::Int(crate::natives::map::size_field(j0.hv(), id)))), false, Some(crate::runtime::value::Value::Int(0)))
        },
        UtilNative::HashMapPut => {
            &&& crate::runtime::jvm::same_but_heap(j0, j1)
            &&& crate::natives::common::instance_outcome(f0, j0.hv(), f1, j1.hv(), r, 2, |id: usize| crate::natives::map::map_put(j0.hv(), id, crate::natives::common::top(f0, 1), crate::natives::common::top(f0, 0)), true, Some(crate::runtime::value::Value::Null))
        },
        UtilNative::HashMapGet => {
            &&& j1 == j0
            &&& crate::natives::common::instance_outcome(f0, j0.hv(), f1, j1.hv(), r, 1, |id: usize| (j0.hv(), Some(crate::natives::map::map_get(j0.hv(), id, crate::natives::common::top(f0, 0)))), false, Some(crate::runtime::value::Value::Null))
        },
        UtilNative::HashMapContainsKey => {
            &&& j1 == j0
            &&& crate::natives::common::instance_outcome(f0, j0.hv(), f1, j1.hv(), r, 1, |id: usize| (j0.hv(), Some(crate::runtime::value::Value::Boolean( crate::natives::map::map_find(j0.hv(), id, crate::natives::common::top(f0, 0)) is Some))), false, Some(crate::runtime::value::Value::Boolean(false)))
        },
        UtilNative::HashMapIsEmpty => {
            &&& j1 == j0
            &&& crate::natives::common::instance_outcome(f0, j0.hv(), f1, j1.hv(), r, 0, |id: usize| (j0.hv(), Some(crate::runtime::value::Value::Boolean(crate::natives::map::size_field(j0.hv(), id) == 0))), false, Some(crate::runtime::value::Value::Boolean(true)))
        },
        UtilNative::HashMapKeySet => {
            &&& crate::runtime::jvm::same_but_heap(j0, j1)
            &&& crate::natives::common::instance_outcome(f0, j0.hv(), f1, j1.hv(), r, 0, |id: usize| crate::natives::map::map_view_collection(j0.hv(), id, "keys"@, "java.util.HashSet"@, "keys"@), false, Some(crate::runtime::value::Value::Null))
        },
        UtilNative::HashMapClear => {
            &&& crate::runtime::jvm::same_but_heap(j0, j1)
            &&& f1 == f0
            &&& match crate::natives::common::call_error(f0, 0) { Some(e) => r == Err::<(), crate::runtime::error::JvmError>(e) && j1.hv() == j0.hv(), None => r == Ok::<(), crate::runtime::error::JvmError>(()) && j1.hv() == crate::natives::map::map_clear(j0.hv(), crate::natives::common::this_of(f0)), }
        },
        UtilNative::HashMapComputeIfAbsent => {
            &&& j1 == j0
            &&& crate::natives::common::instance_outcome(f0, j0.hv(), f1, j1.hv(), r, 2, |id: usize| (j0.hv(), Some( match crate::natives::map::map_find(j0.hv(), id, crate::natives::common::top(f0, 1)) { Some(i) => match crate::natives::map::map_value_at(j0.hv(), id, i) { Some(v) => v, None => crate::runtime::value::Value::Null, }, None => crate::runtime::value::Value::Null, })), true, Some(crate::runtime::value::Value::Null))
        },
        UtilNative::HashMapMerge => {
            &&& crate::runtime::jvm::same_but_heap(j0, j1)
            &&& crate::natives::common::instance_outcome(f0, j0.hv(), f1, j1.hv(), r, 3, |id: usize| crate::natives::map::map_merge(j0.hv(), id, crate::natives::common::top(f0, 2), crate::natives::common::top(f0, 1)), true, Some(crate::runtime::value::Value::Null))
        },
        UtilNative::HashMapForEach => {
            &&& j1 == j0
            &&& f1 == f0
            &&& r == Ok::<(), crate::runtime::error::JvmError>(())
        },
        UtilNative::HashMapGetOrDefault => {
            &&& j1 == j0
            &&& crate::natives::common::instance_outcome(f0, j0.hv(), f1, j1.hv(), r, 2, |id: usize| (j0.hv(), Some( match crate::natives::map::map_find_with_value(j0.hv(), id, crate::natives::common::top(f0, 1)) { Some(i) => crate::natives::map::map_value_at(j0.hv(), id, i)->0, None => crate::natives::common::top(f0, 0), })), false, Some(crate::natives::common::top(f0, 0)))
        },
        UtilNative::HashMapPutIfAbsent => {
            &&& crate::runtime::jvm::same_but_heap(j0, j1)
            &&& crate::natives::common::instance_outcome(f0, j0.hv(), f1, j1.hv(), r, 2, |id: usize| crate::natives::map::map_put_if_absent(j0.hv(), id, crate::natives::common::top(f0, 1), crate::natives::common::top(f0, 0)), true, Some(crate::runtime::value::Value::Null))
        },
        UtilNative::HashMapReplace => {
            &&& crate::runtime::jvm::same_but_heap(j0, j1)
            &&& crate::natives::common::instance_outcome(f0, j0.hv(), f1, j1.hv(), r, 2, |id: usize| crate::natives::map::map_replace(j0.hv(), id, crate::natives::common::top(f0, 1), crate::natives::common::top(f0, 0)), false, Some(crate::runtime::value::Value::Null))
        },
        UtilNative::HashMapValues => {
            &&& crate::runtime::jvm::same_but_heap(j0, j1)
            &&& crate::natives::common::instance_outcome(f0, j0.hv(), f1, j1.hv(), r, 0, |id: usize| crate::natives::map::map_view_collection(j0.hv(), id, "values"@, "java.util.ArrayList"@, "elementData"@), false, Some(crate::runtime::value::Value::Null))
        },
        UtilNative::HashMapEntrySet => {
            &&& crate::runtime::jvm::same_but_heap(j0, j1)
            &&& match crate::natives::common::call_error(f0, 0) { Some(e) => r == Err::<(), crate::runtime::error::JvmError>(e) && j1.hv() == j0.hv(), None => match crate::natives::common::this_of(f0) { crate::runtime::value::Value::ObjectRef(_) => r == Ok::<(), crate::runtime::error::JvmError>(()) && crate::natives::common::answered(f0, f1, 0, Some(crate::natives::map::map_entry_set(j0.hv(), crate::natives::common::this_of(f0)).1)) && j1.hv() == crate::natives::map::map_entry_set(j0.hv(), crate::natives::common::this_of(f0)).0, _ => r == Ok::<(), crate::runtime::error::JvmError>(()) && crate::natives::common::answered(f0, f1, 0, Some(crate::runtime::value::Value::Null)) && j1.hv() == j0.hv(), }, }
        },
        UtilNative::HashSetInit => {
            &&& crate::runtime::jvm::same_but_heap(j0, j1)
            &&& f1 == f0
            &&& match crate::natives::common::call_error(f0, 0) { Some(e) => r == Err::<(), crate::runtime::error::JvmError>(e) && j1.hv() == j0.hv(), None => r == Ok::<(), crate::runtime::error::JvmError>(()) && j1.hv() == crate::natives::set::set_init(j0.hv(), crate::natives::common::this_of(f0)), }
        },
        UtilNative::HashSetAdd => {
            &&& crate::runtime::jvm::same_but_heap(j0, j1)
            &&& crate::natives::common::instance_outcome_or_err(f0, j0.hv(), f1, j1.hv(), r, 1, |id: usize| crate::natives::set::set_add(j0.hv(), id, crate::natives::common::top(f0, 0)), true, Some(crate::runtime::value::Value::Boolean(true)))
        },
        UtilNative::HashSetSize => {
            &&& j1 == j0
            &&& crate::natives::common::instance_outcome(f0, j0.hv(), f1, j1.hv(), r, 0, |id: usize| (j0.hv(), Some(crate::runtime::value::Value::Int(crate::natives::set::set_size(j0.hv(), id)))), false, Some(crate::runtime::value::Value::Int(0)))
        },
        UtilNative::HashSetIsEmpty => {
            &&& j1 == j0
            &&& crate::natives::common::instance_outcome(f0, j0.hv(), f1, j1.hv(), r, 0, |id: usize| (j0.hv(), Some(crate::runtime::value::Value::Boolean(crate::natives::set::set_size(j0.hv(), id) == 0))), false, Some(crate::runtime::value::Value::Boolean(true)))
        },
        UtilNative::HashSetContains => {
            &&& j1 == j0
            &&& crate::natives::common::instance_outcome(f0, j0.hv(), f1, j1.hv(), r, 1, |id: usize| (j0.hv(), Some(crate::runtime::value::Value::Boolean(crate::natives::set::set_contains(j0.hv(), id, crate::natives::common::top(f0, 0))))), false, Some(crate::runtime::value::Value::Boolean(false)))
        },
        UtilNative::ArraysAsList => {
            &&& crate::runtime::jvm::same_but_heap(j0, j1)
            &&& crate::natives::common::outcome(f0, j0.hv(), f1, j1.hv(), r, crate::natives::objects::arrays_as_list(f0, j0.hv()))
        },
        UtilNative::ArraysSort => {
            &&& crate::runtime::jvm::same_but_heap(j0, j1)
            &&& crate::natives::common::outcome(f0, j0.hv(), f1, j1.hv(), r, crate::natives::objects::arrays_sort(f0, j0.hv()))
        },
        UtilNative::ArraysBinarySearch => {
            &&& j1 == j0
            &&& f1.locals@ == f0.locals@
            &&& r is Err ==> crate::natives::common::failed_frame(f0, f1)
            &&& f0.stack@.len() < 2 ==> r == Err::<(), crate::runtime::error::JvmError>(crate::runtime::frame::underflow_error())
            &&& f0.stack@.len() >= 2 ==> match crate::natives::objects::array_arg(j0.hv(), crate::natives::common::top(f0, 1)) { Some(e) => r == Ok::<(), crate::runtime::error::JvmError>(()) && f1.stack@.len() == f0.stack@.len() - 1 && f1.stack@.drop_last() == crate::natives::common::popped(f0, 2) && f1.stack@.last() is Int && (e.len() < 0x7fff_ffff ==> crate::natives::objects::search_answer(e, crate::natives::sorting::sort_key(crate::natives::common::top(f0, 0)), f1.stack@.last()->Int_0 as int)), None => r == Err::<(), crate::runtime::error::JvmError>(crate::runtime::error::JvmError::RuntimeError(crate::runtime::error::RuntimeError::NullPointerException)), }
        },
        UtilNative::ArraysCopyOf => {
            &&& crate::runtime::jvm::same_but_heap(j0, j1)
            &&& crate::natives::common::outcome(f0, j0.hv(), f1, j1.hv(), r, crate::natives::objects::arrays_copy_of(f0, j0.hv()))
        },
        UtilNative::ArraysFill => {
            &&& crate::runtime::jvm::same_but_heap(j0, j1)
            &&& crate::natives::common::outcome(f0, j0.hv(), f1, j1.hv(), r, crate::natives::objects::arrays_fill(f0, j0.hv()))
        },
        UtilNative::CollectionsSingletonList => {
            &&& crate::runtime::jvm::same_but_heap(j0, j1)
            &&& crate::natives::common::outcome(f0, j0.hv(), f1, j1.hv(), r, crate::natives::collections::coll_made(f0, j0.hv(), 1, "java.util.Collections$SingletonList"@, "elementData"@, seq![crate::natives::common::top(f0, 0)], 1))
        },
        UtilNative::CollectionsEmptyList => {
            &&& crate::runtime::jvm::same_but_heap(j0, j1)
            &&& crate::natives::common::outcome(f0, j0.hv(), f1, j1.hv(), r, crate::natives::collections::coll_made(f0, j0.hv(), 0usize as nat, "java.util.Collections$EmptyList"@, "elementData"@, Seq::<crate::runtime::value::Value>::empty(), 0))
        },
        UtilNative::CollectionsSort => {
            &&& crate::runtime::jvm::same_but_heap(j0, j1)
            &&& crate::natives::common::outcome(f0, j0.hv(), f1, j1.hv(), r, crate::natives::sorting::list_sort(f0, j0.hv(), false))
        },
        UtilNative::CollectionsSortWithComparator => {
            &&& crate::runtime::jvm::same_but_heap(j0, j1)
            &&& crate::natives::common::outcome(f0, j0.hv(), f1, j1.hv(), r, crate::natives::sorting::list_sort(f0, j0.hv(), true))
        },
        UtilNative::CollectionsDisjoint => {
            &&& j1 == j0
            &&& crate::natives::common::outcome(f0, j0.hv(), f1, j1.hv(), r, crate::natives::collections::disjoint(f0, j0.hv()))
        },
        UtilNative::CollectionsReplaceAll => {
            &&& crate::runtime::jvm::same_but_heap(j0, j1)
            &&& crate::natives::common::outcome(f0, j0.hv(), f1, j1.hv(), r, crate::natives::collections::replace_all(f0, j0.hv()))
        },
        UtilNative::CollectionsReverse => {
            &&& crate::runtime::jvm::same_but_heap(j0, j1)
            &&& crate::natives::common::outcome(f0, j0.hv(), f1, j1.hv(), r, crate::natives::collections::reverse(f0, j0.hv()))
        },
        UtilNative::CollectionsFill => {
            &&& crate::runtime::jvm::same_but_heap(j0, j1)
            &&& crate::natives::common::outcome(f0, j0.hv(), f1, j1.hv(), r, crate::natives::collections::fill(f0, j0.hv()))
        },
        UtilNative::CollectionsFrequency => {
            &&& j1 == j0
            &&& crate::natives::common::outcome(f0, j0.hv(), f1, j1.hv(), r, crate::natives::collections::frequency(f0, j0.hv()))
        },
        UtilNative::CollectionsMax => {
            &&& j1 == j0
            &&& crate::natives::common::outcome(f0, j0.hv(), f1, j1.hv(), r, crate::natives::sorting::extreme(f0, j0.hv(), true))
        },
        UtilNative::CollectionsMin => {
            &&& j1 == j0
            &&& crate::natives::common::outcome(f0, j0.hv(), f1, j1.hv(), r, crate::natives::sorting::extreme(f0, j0.hv(), false))
        },
        UtilNative::CollectionsNCopies => {
            &&& crate::runtime::jvm::same_but_heap(j0, j1)
            &&& crate::natives::common::outcome(f0, j0.hv(), f1, j1.hv(), r, crate::natives::collections::coll_made(f0, j0.hv(), 2, "java.util.ArrayList"@, "elementData"@, Seq::new(crate::natives::collections::copies_count(crate::natives::common::top(f0, 1)), |i: int| crate::natives::common::top(f0, 0)), crate::natives::collections::copies_count(crate::natives::common::top(f0, 1)) as i32))
        },
        UtilNative::CollectionsSingleton => {
            &&& crate::runtime::jvm::same_but_heap(j0, j1)
            &&& crate::natives::common::outcome(f0, j0.hv(), f1, j1.hv(), r, crate::natives::collections::coll_made(f0, j0.hv(), 1, "java.util.HashSet"@, "keys"@, seq![crate::natives::common::top(f0, 0)], 1))
        },
        UtilNative::CollectionsSingletonMap => {
            &&& crate::runtime::jvm::same_but_heap(j0, j1)
            &&& crate::natives::common::outcome(f0, j0.hv(), f1, j1.hv(), r, crate::natives::collections::singleton_map(f0, j0.hv()))
        },
        UtilNative::CollectionsUnmodifiableList => {
            &&& crate::runtime::jvm::same_but_heap(j0, j1)
            &&& crate::natives::common::outcome(f0, j0.hv(), f1, j1.hv(), r, crate::natives::collections::wrap_list(f0, j0.hv(), "java.util.Collections$UnmodifiableList"@, false))
        },
        UtilNative::CollectionsUnmodifiableMap => {
            &&& crate::runtime::jvm::same_but_heap(j0, j1)
            &&& crate::natives::common::outcome(f0, j0.hv(), f1, j1.hv(), r, crate::natives::collections::wrap_map(f0, j0.hv(), "java.util.Collections$UnmodifiableMap"@, false))
        },
        UtilNative::CollectionsUnmodifiableSet => {
            &&& j1 == j0
            &&& crate::natives::common::outcome(f0, j0.hv(), f1, j1.hv(), r, crate::natives::collections::first_arg(f0, j0.hv(), 1usize as nat))
        },
        UtilNative::CollectionsCheckedList => {
            &&& j1 == j0
            &&& crate::natives::common::outcome(f0, j0.hv(), f1, j1.hv(), r, crate::natives::collections::first_arg(f0, j0.hv(), 2usize as nat))
        },
        UtilNative::CollectionsCheckedMap => {
            &&& j1 == j0
            &&& crate::natives::common::outcome(f0, j0.hv(), f1, j1.hv(), r, crate::natives::collections::first_arg(f0, j0.hv(), 3usize as nat))
        },
        UtilNative::CollectionsCheckedSet => {
            &&& j1 == j0
            &&& crate::natives::common::outcome(f0, j0.hv(), f1, j1.hv(), r, crate::natives::collections::first_arg(f0, j0.hv(), 2usize as nat))
        },
        UtilNative::CollectionsSynchronizedList => {
            &&& crate::runtime::jvm::same_but_heap(j0, j1)
            &&& crate::natives::common::outcome(f0, j0.hv(), f1, j1.hv(), r, crate::natives::collections::wrap_list(f0, j0.hv(), "java.util.Collections$SynchronizedList"@, true))
        },
        UtilNative::CollectionsSynchronizedMap => {
            &&& crate::runtime::jvm::same_but_heap(j0, j1)
            &&& crate::natives::common::outcome(f0, j0.hv(), f1, j1.hv(), r, crate::natives::collections::wrap_map(f0, j0.hv(), "java.util.Collections$SynchronizedMap"@, true))
        },
        UtilNative::CollectionsSynchronizedSet => {
            &&& j1 == j0
            &&& crate::natives::common::outcome(f0, j0.hv(), f1, j1.hv(), r, crate::natives::collections::first_arg(f0, j0.hv(), 1usize as nat))
        },
        UtilNative::CollectionsNewSetFromMap => {
            &&& crate::runtime::jvm::same_but_heap(j0, j1)
            &&& crate::natives::common::outcome(f0, j0.hv(), f1, j1.hv(), r, crate::natives::collections::set_from_map(f0, j0.hv()))
        },
        UtilNative::CollectionsReverseOrder => {
            &&& j1 == j0
            &&& crate::natives::common::outcome(f0, j0.hv(), f1, j1.hv(), r, Ok((j0.hv(), 0, Some(crate::runtime::value::Value::Null))))
        },
        UtilNative::CollectionsList => {
            &&& crate::runtime::jvm::same_but_heap(j0, j1)
            &&& crate::natives::common::outcome(f0, j0.hv(), f1, j1.hv(), r, crate::natives::collections::coll_made(f0, j0.hv(), 1usize as nat, "java.util.ArrayList"@, "elementData"@, Seq::<crate::runtime::value::Value>::empty(), 0))
        },
        UtilNative::CollectionsEnumeration => {
            &&& crate::runtime::jvm::same_but_heap(j0, j1)
            &&& crate::natives::common::outcome(f0, j0.hv(), f1, j1.hv(), r, crate::natives::collections::enumeration(f0, j0.hv()))
        },
        UtilNative::CollectionsAddAll => {
            &&& crate::runtime::jvm::same_but_heap(j0, j1)
            &&& crate::natives::common::outcome(f0, j0.hv(), f1, j1.hv(), r, crate::natives::collections::coll_add_all(f0, j0.hv()))
        },
        UtilNative::CollectionsIndexOfSubList => {
            &&& j1 == j0
            &&& crate::natives::common::outcome(f0, j0.hv(), f1, j1.hv(), r, crate::natives::collections::no_sub_list(f0, j0.hv()))
        },
        UtilNative::CollectionsLastIndexOfSubList => {
            &&& j1 == j0
            &&& crate::natives::common::outcome(f0, j0.hv(), f1, j1.hv(), r, crate::natives::collections::no_sub_list(f0, j0.hv()))
        },
        UtilNative::CollectionsRotate => {
            &&& crate::runtime::jvm::same_but_heap(j0, j1)
            &&& crate::natives::common::outcome(f0, j0.hv(), f1, j1.hv(), r, crate::natives::collections::rotate(f0, j0.hv()))
        },
        UtilNative::CollectionsSwap => {
            &&& crate::runtime::jvm::same_but_heap(j0, j1)
            &&& crate::natives::common::outcome(f0, j0.hv(), f1, j1.hv(), r, crate::natives::collections::list_swap(f0, j0.hv()))
        },
        UtilNative::CollectionsAsLifoQueue => {
            &&& crate::runtime::jvm::same_but_heap(j0, j1)
            &&& crate::natives::common::outcome(f0, j0.hv(), f1, j1.hv(), r, crate::natives::collections::lifo_queue(f0, j0.hv()))
        },
        UtilNative::CollectionsCopy => {
            &&& crate::runtime::jvm::same_but_heap(j0, j1)
            &&& crate::natives::common::outcome(f0, j0.hv(), f1, j1.hv(), r, crate::natives::collections::list_copy(f0, j0.hv()))
        },
        UtilNative::ObjectsEquals => {
            &&& j1 == j0
            &&& crate::natives::common::outcome(f0, j0.hv(), f1, j1.hv(), r, crate::natives::objects::objects_equals(f0, j0.hv()))
        },
        UtilNative::ObjectsHashCode => {
            &&& j1 == j0
            &&& crate::natives::common::outcome(f0, j0.hv(), f1, j1.hv(), r, crate::natives::objects::objects_hash_code(f0, j0.hv()))
        },
        UtilNative::ObjectsRequireNonNull => {
            &&& j1 == j0
            &&& crate::natives::common::outcome(f0, j0.hv(), f1, j1.hv(), r, crate::natives::objects::objects_require_non_null(f0, j0.hv()))
        },
        UtilNative::ObjectsDeepEquals => {
            &&& j1 == j0
            &&& crate::natives::common::outcome(f0, j0.hv(), f1, j1.hv(), r, crate::natives::objects::objects_deep_equals(f0, j0.hv()))
        },
        UtilNative::ObjectsHash => {
            &&& j1 == j0
            &&& crate::natives::common::outcome(f0, j0.hv(), f1, j1.hv(), r, crate::natives::objects::objects_hash(f0, j0.hv()))
        },
        UtilNative::ObjectsCompare => {
            &&& j1 == j0
            &&& crate::natives::common::outcome(f0, j0.hv(), f1, j1.hv(), r, crate::natives::texts::objects_compare(f0, j0.hv()))
        },
        UtilNative::ObjectsIsNull => {
            &&& j1 == j0
            &&& crate::natives::common::outcome(f0, j0.hv(), f1, j1.hv(), r, crate::natives::objects::objects_null_test(f0, j0.hv(), true))
        },
        UtilNative::ObjectsNonNull => {
            &&& j1 == j0
            &&& crate::natives::common::outcome(f0, j0.hv(), f1, j1.hv(), r, crate::natives::objects::objects_null_test(f0, j0.hv(), false))
        },
        UtilNative::OptionalEmpty => {
            &&& crate::runtime::jvm::same_but_heap(j0, j1)
            &&& crate::natives::common::outcome(f0, j0.hv(), f1, j1.hv(), r, crate::natives::objects::optional_make(f0, j0.hv(), false))
        },
        UtilNative::OptionalOf => {
            &&& crate::runtime::jvm::same_but_heap(j0, j1)
            &&& crate::natives::common::outcome(f0, j0.hv(), f1, j1.hv(), r, crate::natives::objects::optional_make(f0, j0.hv(), true))
        },
        UtilNative::OptionalIsPresent => {
            &&& j1 == j0
            &&& crate::natives::common::outcome(f0, j0.hv(), f1, j1.hv(), r, crate::natives::objects::optional_query(f0, j0.hv(), false))
        },
        UtilNative::OptionalGet => {
            &&& j1 == j0
            &&& crate::natives::common::outcome(f0, j0.hv(), f1, j1.hv(), r, crate::natives::objects::optional_query(f0, j0.hv(), true))
        },
        UtilNative::OptionalOrElse => {
            &&& j1 == j0
            &&& crate::natives::common::outcome(f0, j0.hv(), f1, j1.hv(), r, crate::natives::objects::optional_or_else(f0, j0.hv()))
        },
        UtilNative::LinkedListInit => {
            &&& crate::runtime::jvm::same_but_heap(j0, j1)
            &&& f1 == f0
            &&& match crate::natives::common::call_error(f0, 0) { Some(e) => r == Err::<(), crate::runtime::error::JvmError>(e) && j1.hv() == j0.hv(), None => r == Ok::<(), crate::runtime::error::JvmError>(()) && j1.hv() == crate::natives::list::list_init(j0.hv(), crate::natives::common::this_of(f0), 0), }
        },
        UtilNative::LinkedListAdd => {
            &&& crate::runtime::jvm::same_but_heap(j0, j1)
            &&& crate::natives::common::instance_outcome(f0, j0.hv(), f1, j1.hv(), r, 1, |id: usize| (crate::natives::seqs::seq_append(j0.hv(), id, crate::natives::common::top(f0, 0)), Some(crate::runtime::value::Value::Boolean(true))), true, Some(crate::runtime::value::Value::Boolean(true)))
        },
        UtilNative::LinkedListAddFirst => {
            &&& crate::runtime::jvm::same_but_heap(j0, j1)
            &&& crate::natives::common::instance_outcome(f0, j0.hv(), f1, j1.hv(), r, 1, |id: usize| (crate::natives::seqs::linked_add_first(j0.hv(), id, crate::natives::common::top(f0, 0)), None), true, None)
        },
        UtilNative::LinkedListGet => {
            &&& j1 == j0
            &&& crate::natives::common::instance_outcome(f0, j0.hv(), f1, j1.hv(), r, 1, |id: usize| (j0.hv(), Some( match crate::natives::common::array_of(j0.hv(), crate::natives::list::list_array(j0.hv(), id)) { Some(e) => if 0 <= crate::runtime::value::spec_as_int(crate::natives::common::top(f0, 0)) < e.len() { e[crate::runtime::value::spec_as_int(crate::natives::common::top(f0, 0)) as int] } else { crate::runtime::value::Value::Null }, None => crate::runtime::value::Value::Null, })), false, Some(crate::runtime::value::Value::Null))
        },
        UtilNative::LinkedListGetFirst => {
            &&& j1 == j0
            &&& crate::natives::common::instance_outcome(f0, j0.hv(), f1, j1.hv(), r, 0, |id: usize| (j0.hv(), Some(crate::natives::seqs::linked_end(j0.hv(), id, true))), false, Some(crate::runtime::value::Value::Null))
        },
        UtilNative::LinkedListGetLast => {
            &&& j1 == j0
            &&& crate::natives::common::instance_outcome(f0, j0.hv(), f1, j1.hv(), r, 0, |id: usize| (j0.hv(), Some(crate::natives::seqs::linked_end(j0.hv(), id, false))), false, Some(crate::runtime::value::Value::Null))
        },
        UtilNative::LinkedListSize => {
            &&& j1 == j0
            &&& crate::natives::common::instance_outcome(f0, j0.hv(), f1, j1.hv(), r, 0, |id: usize| (j0.hv(), Some(crate::runtime::value::Value::Int(crate::natives::map::size_field(j0.hv(), id)))), false, Some(crate::runtime::value::Value::Int(0)))
        },
        UtilNative::LinkedListIsEmpty => {
            &&& j1 == j0
            &&& crate::natives::common::instance_outcome(f0, j0.hv(), f1, j1.hv(), r, 0, |id: usize| (j0.hv(), Some(crate::runtime::value::Value::Boolean(crate::natives::map::size_field(j0.hv(), id) == 0))), false, Some(crate::runtime::value::Value::Boolean(true)))
        },
        UtilNative::LinkedListRemove => {
            &&& crate::runtime::jvm::same_but_heap(j0, j1)
            &&& crate::natives::common::instance_outcome(f0, j0.hv(), f1, j1.hv(), r, 1, |id: usize| crate::natives::seqs::linked_remove(j0.hv(), id, crate::runtime::value::spec_as_int(crate::natives::common::top(f0, 0))), true, None)
        },
        UtilNative::LinkedListRemoveFirst => {
            &&& crate::runtime::jvm::same_but_heap(j0, j1)
            &&& crate::natives::common::instance_outcome(f0, j0.hv(), f1, j1.hv(), r, 0, |id: usize| crate::natives::seqs::linked_remove_first(j0.hv(), id), true, Some(crate::runtime::value::Value::Null))
        },
        UtilNative::LinkedListRemoveLast => {
            &&& crate::runtime::jvm::same_but_heap(j0, j1)
            &&& crate::natives::common::instance_outcome(f0, j0.hv(), f1, j1.hv(), r, 0, |id: usize| crate::natives::seqs::pop_last(j0.hv(), id), true, Some(crate::runtime::value::Value::Null))
        },
        UtilNative::TreeMapInit => {
            &&& crate::runtime::jvm::same_but_heap(j0, j1)
            &&& f1 == f0
            &&& match crate::natives::common::call_error(f0, 0) { Some(e) => r == Err::<(), crate::runtime::error::JvmError>(e) && j1.hv() == j0.hv(), None => r == Ok::<(), crate::runtime::error::JvmError>(()) && j1.hv() == crate::natives::map::map_init(j0.hv(), crate::natives::common::this_of(f0)), }
        },
        UtilNative::TreeMapPut => {
            &&& crate::runtime::jvm::same_but_heap(j0, j1)
            &&& crate::natives::common::instance_outcome(f0, j0.hv(), f1, j1.hv(), r, 2, |id: usize| crate::natives::map::map_put(j0.hv(), id, crate::natives::common::top(f0, 1), crate::natives::common::top(f0, 0)), true, Some(crate::runtime::value::Value::Null))
        },
        UtilNative::TreeMapGet => {
            &&& j1 == j0
            &&& crate::natives::common::instance_outcome(f0, j0.hv(), f1, j1.hv(), r, 1, |id: usize| (j0.hv(), Some(crate::natives::ordered::sorted_map_lookup(j0.hv(), id, crate::natives::common::top(f0, 0)))), false, Some(crate::runtime::value::Value::Null))
        },
        UtilNative::TreeMapSize => {
            &&& j1 == j0
            &&& crate::natives::common::instance_outcome(f0, j0.hv(), f1, j1.hv(), r, 0, |id: usize| (j0.hv(), Some(crate::runtime::value::Value::Int(crate::natives::map::size_field(j0.hv(), id)))), false, Some(crate::runtime::value::Value::Int(0)))
        },
        UtilNative::LinkedHashSetInit => {
            &&& crate::runtime::jvm::same_but_heap(j0, j1)
            &&& f1 == f0
            &&& match crate::natives::common::call_error(f0, 0) { Some(e) => r == Err::<(), crate::runtime::error::JvmError>(e) && j1.hv() == j0.hv(), None => r == Ok::<(), crate::runtime::error::JvmError>(()) && j1.hv() == crate::natives::ordered::holder_init(j0.hv(), crate::natives::common::this_of(f0), "keys"@), }
        },
        UtilNative::LinkedHashSetAdd => {
            &&& crate::runtime::jvm::same_but_heap(j0, j1)
            &&& crate::natives::common::instance_outcome(f0, j0.hv(), f1, j1.hv(), r, 1, |id: usize| crate::natives::ordered::linked_set_add(j0.hv(), id, crate::natives::common::top(f0, 0)), true, Some(crate::runtime::value::Value::Boolean(true)))
        },
        UtilNative::LinkedHashSetSize => {
            &&& j1 == j0
            &&& crate::natives::common::instance_outcome(f0, j0.hv(), f1, j1.hv(), r, 0, |id: usize| (j0.hv(), Some(crate::runtime::value::Value::Int(crate::natives::map::size_field(j0.hv(), id)))), false, Some(crate::runtime::value::Value::Int(0)))
        },
        UtilNative::PriorityQueueInit => {
            &&& crate::runtime::jvm::same_but_heap(j0, j1)
            &&& f1 == f0
            &&& match crate::natives::common::call_error(f0, 0) { Some(e) => r == Err::<(), crate::runtime::error::JvmError>(e) && j1.hv() == j0.hv(), None => r == Ok::<(), crate::runtime::error::JvmError>(()) && j1.hv() == crate::natives::ordered::holder_init(j0.hv(), crate::natives::common::this_of(f0), "queue"@), }
        },
        UtilNative::PriorityQueueAdd => {
            &&& crate::runtime::jvm::same_but_heap(j0, j1)
            &&& crate::natives::common::instance_outcome(f0, j0.hv(), f1, j1.hv(), r, 1, |id: usize| (crate::natives::ordered::holder_append(j0.hv(), id, "queue"@, crate::natives::common::top(f0, 0)), Some(crate::runtime::value::Value::Boolean(true))), true, Some(crate::runtime::value::Value::Boolean(true)))
        },
        UtilNative::PriorityQueuePeek => {
            &&& j1 == j0
            &&& crate::natives::common::instance_outcome(f0, j0.hv(), f1, j1.hv(), r, 0, |id: usize| (j0.hv(), Some(crate::natives::ordered::queue_head(j0.hv(), id))), false, Some(crate::runtime::value::Value::Null))
        },
        UtilNative::PriorityQueuePoll => {
            &&& crate::runtime::jvm::same_but_heap(j0, j1)
            &&& crate::natives::common::instance_outcome(f0, j0.hv(), f1, j1.hv(), r, 0, |id: usize| crate::natives::ordered::queue_poll(j0.hv(), id), true, Some(crate::runtime::value::Value::Null))
        },
        UtilNative::PriorityQueueSize => {
            &&& j1 == j0
            &&& crate::natives::common::instance_outcome(f0, j0.hv(), f1, j1.hv(), r, 0, |id: usize| (j0.hv(), Some(crate::runtime::value::Value::Int(crate::natives::map::size_field(j0.hv(), id)))), false, Some(crate::runtime::value::Value::Int(0)))
        },
        UtilNative::UUIDToString => {
            &&& crate::runtime::jvm::same_but_heap(j0, j1)
            &&& crate::natives::common::outcome(f0, j0.hv(), f1, j1.hv(), r, crate::natives::misc::string_field_copy(f0, j0.hv(), "value"@))
        },
        UtilNative::UUIDFromString => {
            &&& crate::runtime::jvm::same_but_heap(j0, j1)
            &&& crate::natives::common::outcome(f0, j0.hv(), f1, j1.hv(), r, crate::natives::misc::uuid_from_string(f0, j0.hv()))
        },
        UtilNative::StackInit => {
            &&& crate::runtime::jvm::same_but_heap(j0, j1)
            &&& f1 == f0
            &&& match crate::natives::common::call_error(f0, 0) { Some(e) => r == Err::<(), crate::runtime::error::JvmError>(e) && j1.hv() == j0.hv(), None => r == Ok::<(), crate::runtime::error::JvmError>(()) && j1.hv() == crate::natives::list::list_init(j0.hv(), crate::natives::common::this_of(f0), 0), }
        },
        UtilNative::StackPush => {
            &&& crate::runtime::jvm::same_but_heap(j0, j1)
            &&& crate::natives::common::instance_outcome(f0, j0.hv(), f1, j1.hv(), r, 1, |id: usize| (crate::natives::seqs::seq_append(j0.hv(), id, crate::natives::common::top(f0, 0)), Some(crate::natives::common::top(f0, 0))), true, Some(crate::natives::common::top(f0, 0)))
        },
        UtilNative::StackPop => {
            &&& crate::runtime::jvm::same_but_heap(j0, j1)
            &&& crate::natives::common::instance_outcome(f0, j0.hv(), f1, j1.hv(), r, 0, |id: usize| crate::natives::seqs::pop_last(j0.hv(), id), true, Some(crate::runtime::value::Value::Null))
        },
        UtilNative::StackPeek => {
            &&& j1 == j0
            &&& crate::natives::common::instance_outcome(f0, j0.hv(), f1, j1.hv(), r, 0, |id: usize| (j0.hv(), Some(crate::natives::seqs::stack_peek(j0.hv(), id))), false, Some(crate::runtime::value::Value::Null))
        },
        UtilNative::StackEmpty => {
            &&& j1 == j0
            &&& crate::natives::common::instance_outcome(f0, j0.hv(), f1, j1.hv(), r, 0, |id: usize| (j0.hv(), Some(crate::runtime::value::Value::Boolean(crate::natives::map::size_field(j0.hv(), id) == 0))), false, Some(crate::runtime::value::Value::Boolean(true)))
        },
        UtilNative::StackSearch => {
            &&& j1 == j0
            &&& crate::natives::common::instance_outcome(f0, j0.hv(), f1, j1.hv(), r, 1, |id: usize| (j0.hv(), Some(crate::runtime::value::Value::Int(crate::natives::seqs::stack_search(j0.hv(), id, crate::natives::common::top(f0, 0))))), false, Some(crate::runtime::value::Value::Int(-1i32)))
        },
        UtilNative::Base64GetEncoder => {
            &&& crate::runtime::jvm::same_but_heap(j0, j1)
            &&& crate::natives::common::outcome(f0, j0.hv(), f1, j1.hv(), r, crate::natives::misc::new_plain(j0.hv(), "java.util.Base64$Encoder"@))
        },
        UtilNative::Base64GetDecoder => {
            &&& crate::runtime::jvm::same_but_heap(j0, j1)
            &&& crate::natives::common::outcome(f0, j0.hv(), f1, j1.hv(), r, crate::natives::misc::new_plain(j0.hv(), "java.util.Base64$Decoder"@))
        },
        UtilNative::PropertiesInit => {
            &&& crate::runtime::jvm::same_but_heap(j0, j1)
            &&& f1 == f0
            &&& match crate::natives::common::call_error(f0, 0) { Some(e) => r == Err::<(), crate::runtime::error::JvmError>(e) && j1.hv() == j0.hv(), None => r == Ok::<(), crate::runtime::error::JvmError>(()) && j1.hv() == crate::natives::map::map_init(j0.hv(), crate::natives::common::this_of(f0)), }
        },
        UtilNative::PropertiesSetProperty => {
            &&& crate::runtime::jvm::same_but_heap(j0, j1)
            &&& crate::natives::common::instance_outcome(f0, j0.hv(), f1, j1.hv(), r, 2, |id: usize| crate::natives::map::map_put(j0.hv(), id, crate::natives::common::top(f0, 1), crate::natives::common::top(f0, 0)), true, Some(crate::runtime::value::Value::Null))
        },
        UtilNative::PropertiesGetProperty => {
            &&& j1 == j0
            &&& crate::natives::common::instance_outcome(f0, j0.hv(), f1, j1.hv(), r, 1, |id: usize| (j0.hv(), Some(crate::natives::ordered::sorted_map_lookup(j0.hv(), id, crate::natives::common::top(f0, 0)))), false, Some(crate::runtime::value::Value::Null))
        },
        UtilNative::ComparatorNaturalOrder => {
            &&& j1 == j0
            &&& crate::natives::common::outcome(f0, j0.hv(), f1, j1.hv(), r, Ok((j0.hv(), 0, Some(crate::runtime::value::Value::Null))))
        },
        UtilNative::ComparatorReverseOrder => {
            &&& j1 == j0
            &&& crate::natives::common::outcome(f0, j0.hv(), f1, j1.hv(), r, Ok((j0.hv(), 0, Some(crate::runtime::value::Value::Null))))
        },
        UtilNative::ComparatorThenComparing => {
            &&& j1 == j0
            &&& crate::natives::common::outcome(f0, j0.hv(), f1, j1.hv(), r, Ok((j0.hv(), 0, Some(crate::runtime::value::Value::Null))))
        },
        UtilNative::ComparatorNullsFirst => {
            &&& j1 == j0
            &&& crate::natives::common::outcome(f0, j0.hv(), f1, j1.hv(), r, Ok((j0.hv(), 0, Some(crate::runtime::value::Value::Null))))
        },
        UtilNative::ComparatorNullsLast => {
            &&& j1 == j0
            &&& crate::natives::common::outcome(f0, j0.hv(), f1, j1.hv(), r, Ok((j0.hv(), 0, Some(crate::runtime::value::Value::Null))))
        },
        UtilNative::ComparatorReversed => {
            &&& j1 == j0
            &&& crate::natives::common::outcome(f0, j0.hv(), f1, j1.hv(), r, Ok((j0.hv(), 0, Some(crate::runtime::value::Value::Null))))
        },
        UtilNative::AtomicIntegerInit => {
            &&& crate::runtime::jvm::same_but_heap(j0, j1)
            &&& crate::natives::common::outcome(f0, j0.hv(), f1, j1.hv(), r, crate::natives::fields::set_field_const(f0, j0.hv(), "value"@, crate::runtime::value::Value::Int(0i32)))
        },
        UtilNative::AtomicIntegerInitValue => {
            &&& crate::runtime::jvm::same_but_heap(j0, j1)
            &&& crate::natives::common::outcome(f0, j0.hv(), f1, j1.hv(), r, crate::natives::fields::set_field_from_local(f0, j0.hv(), "value"@, 0u8))
        },
        UtilNative::AtomicIntegerGet => {
            &&& j1 == j0
            &&& crate::natives::common::outcome(f0, j0.hv(), f1, j1.hv(), r, crate::natives::fields::get_field_kind(f0, j0.hv(), "value"@, 0u8))
        },
        UtilNative::AtomicIntegerSet => {
            &&& crate::runtime::jvm::same_but_heap(j0, j1)
            &&& crate::natives::common::outcome(f0, j0.hv(), f1, j1.hv(), r, crate::natives::fields::set_field_from_local(f0, j0.hv(), "value"@, 0u8))
        },
        UtilNative::AtomicIntegerIncrementAndGet => {
            &&& crate::runtime::jvm::same_but_heap(j0, j1)
            &&& crate::natives::common::outcome(f0, j0.hv(), f1, j1.hv(), r, crate::natives::fields::add_and_get(f0, j0.hv(), false, Some(1i64)))
        },
        UtilNative::AtomicIntegerDecrementAndGet => {
            &&& crate::runtime::jvm::same_but_heap(j0, j1)
            &&& crate::natives::common::outcome(f0, j0.hv(), f1, j1.hv(), r, crate::natives::fields::add_and_get(f0, j0.hv(), false, Some(-1i64)))
        },
        UtilNative::AtomicIntegerAddAndGet => {
            &&& crate::runtime::jvm::same_but_heap(j0, j1)
            &&& crate::natives::common::outcome(f0, j0.hv(), f1, j1.hv(), r, crate::natives::fields::add_and_get(f0, j0.hv(), false, None::<i64>))
        },
        UtilNative::AtomicIntegerCompareAndSet => {
            &&& crate::runtime::jvm::same_but_heap(j0, j1)
            &&& crate::natives::common::outcome(f0, j0.hv(), f1, j1.hv(), r, crate::natives::fields::compare_and_set(f0, j0.hv(), false))
        },
        UtilNative::AtomicLongInitValue => {
            &&& crate::runtime::jvm::same_but_heap(j0, j1)
            &&& crate::natives::common::outcome(f0, j0.hv(), f1, j1.hv(), r, crate::natives::fields::set_field_from_local(f0, j0.hv(), "value"@, 1u8))
        },
        UtilNative::AtomicLongGet => {
            &&& j1 == j0
            &&& crate::natives::common::outcome(f0, j0.hv(), f1, j1.hv(), r, crate::natives::fields::get_field_kind(f0, j0.hv(), "value"@, 1u8))
        },
        UtilNative::AtomicLongSet => {
            &&& crate::runtime::jvm::same_but_heap(j0, j1)
            &&& crate::natives::common::outcome(f0, j0.hv(), f1, j1.hv(), r, crate::natives::fields::set_field_from_local(f0, j0.hv(), "value"@, 1u8))
        },
        UtilNative::AtomicLongIncrementAndGet => {
            &&& crate::runtime::jvm::same_but_heap(j0, j1)
            &&& crate::natives::common::outcome(f0, j0.hv(), f1, j1.hv(), r, crate::natives::fields::add_and_get(f0, j0.hv(), true, Some(1i64)))
        },
        UtilNative::AtomicLongAddAndGet => {
            &&& crate::runtime::jvm::same_but_heap(j0, j1)
            &&& crate::natives::common::outcome(f0, j0.hv(), f1, j1.hv(), r, crate::natives::fields::add_and_get(f0, j0.hv(), true, None::<i64>))
        },
        UtilNative::AtomicReferenceInitValue => {
            &&& crate::runtime::jvm::same_but_heap(j0, j1)
            &&& crate::natives::common::outcome(f0, j0.hv(), f1, j1.hv(), r, crate::natives::fields::set_field_from_local(f0, j0.hv(), "value"@, 3u8))
        },
        UtilNative::AtomicReferenceGet => {
            &&& j1 == j0
            &&& crate::natives::common::outcome(f0, j0.hv(), f1, j1.hv(), r, crate::natives::fields::get_field_kind(f0, j0.hv(), "value"@, 3u8))
        },
        UtilNative::AtomicReferenceSet => {
            &&& crate::runtime::jvm::same_but_heap(j0, j1)
            &&& crate::natives::common::outcome(f0, j0.hv(), f1, j1.hv(), r, crate::natives::fields::set_field_popped(f0, j0.hv(), "value"@))
        },
        UtilNative::AtomicBooleanInitValue => {
            &&& crate::runtime::jvm::same_but_heap(j0, j1)
            &&& crate::natives::common::outcome(f0, j0.hv(), f1, j1.hv(), r, crate::natives::fields::set_field_from_local(f0, j0.hv(), "value"@, 2u8))
        },
        UtilNative::AtomicBooleanGet => {
            &&& j1 == j0
            &&& crate::natives::common::outcome(f0, j0.hv(), f1, j1.hv(), r, crate::natives::fields::get_field_kind(f0, j0.hv(), "value"@, 2u8))
        },
        UtilNative::AtomicBooleanSet => {
            &&& crate::runtime::jvm::same_but_heap(j0, j1)
            &&& crate::natives::common::outcome(f0, j0.hv(), f1, j1.hv(), r, crate::natives::fields::set_field_from_local(f0, j0.hv(), "value"@, 2u8))
        },
        UtilNative::AtomicBooleanGetAndSet => {
            &&& crate::runtime::jvm::same_but_heap(j0, j1)
            &&& crate::natives::common::outcome(f0, j0.hv(), f1, j1.hv(), r, crate::natives::fields::get_and_set_bool(f0, j0.hv()))
        },
        UtilNative::AtomicBooleanCompareAndSet => {
            &&& crate::runtime::jvm::same_but_heap(j0, j1)
            &&& crate::natives::common::outcome(f0, j0.hv(), f1, j1.hv(), r, crate::natives::fields::compare_and_set(f0, j0.hv(), true))
        },
        UtilNative::LinkedHashMapInit => {
            &&& crate::runtime::jvm::same_but_heap(j0, j1)
            &&& f1 == f0
            &&& match crate::natives::common::call_error(f0, 0) { Some(e) => r == Err::<(), crate::runtime::error::JvmError>(e) && j1.hv() == j0.hv(), None => r == Ok::<(), crate::runtime::error::JvmError>(()) && j1.hv() == crate::natives::map::map_init(j0.hv(), crate::natives::common::this_of(f0)), }
        },
        UtilNative::LinkedHashMapPut => {
            &&& crate::runtime::jvm::same_but_heap(j0, j1)
            &&& crate::natives::common::instance_outcome(f0, j0.hv(), f1, j1.hv(), r, 2, |id: usize| crate::natives::map::map_put(j0.hv(), id, crate::natives::common::top(f0, 1), crate::natives::common::top(f0, 0)), true, Some(crate::runtime::value::Value::Null))
        },
        UtilNative::LinkedHashMapGet => {
            &&& j1 == j0
            &&& crate::natives::common::instance_outcome(f0, j0.hv(), f1, j1.hv(), r, 1, |id: usize| (j0.hv(), Some(crate::natives::ordered::sorted_map_lookup(j0.hv(), id, crate::natives::common::top(f0, 0)))), false, Some(crate::runtime::value::Value::Null))
        },
        UtilNative::LinkedHashMapSize => {
            &&& j1 == j0
            &&& crate::natives::common::instance_outcome(f0, j0.hv(), f1, j1.hv(), r, 0, |id: usize| (j0.hv(), Some(crate::runtime::value::Value::Int(crate::natives::map::size_field(j0.hv(), id)))), false, Some(crate::runtime::value::Value::Int(0)))
        },
        UtilNative::LinkedHashMapIsEmpty => {
            &&& j1 == j0
            &&& crate::natives::common::instance_outcome(f0, j0.hv(), f1, j1.hv(), r, 0, |id: usize| (j0.hv(), Some(crate::runtime::value::Value::Boolean(crate::natives::map::size_field(j0.hv(), id) == 0))), false, Some(crate::runtime::value::Value::Boolean(true)))
        },
        UtilNative::LinkedHashMapContainsKey => {
            &&& j1 == j0
            &&& crate::natives::common::instance_outcome(f0, j0.hv(), f1, j1.hv(), r, 1, |id: usize| (j0.hv(), Some(crate::runtime::value::Value::Boolean(crate::natives::map::map_find(j0.hv(), id, crate::natives::common::top(f0, 0)) is Some))), false, Some(crate::runtime::value::Value::Boolean(false)))
        },
        UtilNative::ReentrantLockLock => {
            &&& crate::runtime::jvm::same_but_heap(j0, j1)
            &&& crate::natives::common::outcome(f0, j0.hv(), f1, j1.hv(), r, crate::natives::fields::lock_lock(f0, j0))
        },
        UtilNative::ReentrantLockUnlock => {
            &&& crate::runtime::jvm::same_but_heap(j0, j1)
            &&& crate::natives::common::outcome(f0, j0.hv(), f1, j1.hv(), r, crate::natives::fields::lock_unlock(f0, j0.hv()))
        },
        UtilNative::ReentrantLockTryLock => {
            &&& crate::runtime::jvm::same_but_heap(j0, j1)
            &&& crate::natives::common::outcome(f0, j0.hv(), f1, j1.hv(), r, crate::natives::fields::lock_try(f0, j0))
        },
        UtilNative::DateInitMillis => {
            &&& crate::runtime::jvm::same_but_heap(j0, j1)
            &&& crate::natives::common::outcome(f0, j0.hv(), f1, j1.hv(), r, crate::natives::fields::set_field_from_local(f0, j0.hv(), "fastTime"@, 1u8))
        },
        UtilNative::DateGetTime => {
            &&& j1 == j0
            &&& crate::natives::common::outcome(f0, j0.hv(), f1, j1.hv(), r, crate::natives::fields::get_field_kind(f0, j0.hv(), "fastTime"@, 1u8))
        },
        UtilNative::DateSetTime => {
            &&& crate::runtime::jvm::same_but_heap(j0, j1)
            &&& crate::natives::common::outcome(f0, j0.hv(), f1, j1.hv(), r, crate::natives::fields::set_field_from_local(f0, j0.hv(), "fastTime"@, 1u8))
        },
        UtilNative::DateToString => {
            &&& crate::runtime::jvm::same_but_heap(j0, j1)
            &&& crate::natives::common::outcome(f0, j0.hv(), f1, j1.hv(), r, crate::natives::texts::date_to_string(f0, j0.hv()))
        },
        UtilNative::DateInit => {
            &&& crate::runtime::jvm::same_but_heap(j0, j1)
            &&& exists|t: u128| #![trigger crate::natives::clock::date_now(f0, j0.hv(), t)] crate::natives::common::outcome(f0, j0.hv(), f1, j1.hv(), r, crate::natives::clock::date_now(f0, j0.hv(), t))
        },
        UtilNative::CollectionsShuffle => {
            &&& crate::runtime::jvm::same_but_heap(j0, j1)
            &&& exists|stamps: Seq<u128>| #![trigger crate::natives::shuffle::shuffle(f0, j0.hv(), stamps)] crate::natives::common::outcome(f0, j0.hv(), f1, j1.hv(), r, crate::natives::shuffle::shuffle(f0, j0.hv(), stamps))
        },
        UtilNative::RandomNextInt => {
            &&& j1 == j0
            &&& exists|t: u128| #![trigger crate::natives::clock::random_value(t, 0u8)] crate::natives::common::outcome(f0, j0.hv(), f1, j1.hv(), r, Ok((j0.hv(), 0, Some(crate::natives::clock::random_value(t, 0u8)))))
        },
        UtilNative::RandomNextLong => {
            &&& j1 == j0
            &&& exists|t: u128| #![trigger crate::natives::clock::random_value(t, 1u8)] crate::natives::common::outcome(f0, j0.hv(), f1, j1.hv(), r, Ok((j0.hv(), 0, Some(crate::natives::clock::random_value(t, 1u8)))))
        },
        UtilNative::RandomNextBoolean => {
            &&& j1 == j0
            &&& exists|t: u128| #![trigger crate::natives::clock::random_value(t, 2u8)] crate::natives::common::outcome(f0, j0.hv(), f1, j1.hv(), r, Ok((j0.hv(), 0, Some(crate::natives::clock::random_value(t, 2u8)))))
        },
        UtilNative::RandomNextIntBound => {
            &&& j1 == j0
            &&& exists|t: u128| #![trigger crate::natives::clock::random_bounded(f0, j0.hv(), t)] crate::natives::common::outcome(f0, j0.hv(), f1, j1.hv(), r, crate::natives::clock::random_bounded(f0, j0.hv(), t))
        },
        UtilNative::UUIDRandomUUID => {
            &&& crate::runtime::jvm::same_but_heap(j0, j1)
            &&& exists|t: u128| #![trigger crate::natives::clock::uuid_random(f0, j0.hv(), t)] crate::natives::clock::uuid_outcome(f0, j0.hv(), f1, j1.hv(), r, t)
        },
        UtilNative::ScannerInit => {
            &&& crate::runtime::jvm::same_but_heap(j0, j1)
            &&& crate::natives::common::outcome(f0, j0.hv(), f1, j1.hv(), r, crate::natives::scanner::scanner_init(f0, j0.hv()))
        },
        UtilNative::ScannerNextInt => {
            &&& crate::runtime::jvm::same_but_heap(j0, j1)
            &&& crate::natives::common::outcome(f0, j0.hv(), f1, j1.hv(), r, crate::natives::scanner::scanner_next_number(f0, j0.hv(), false))
        },
        UtilNative::ScannerNextLong => {
            &&& crate::runtime::jvm::same_but_heap(j0, j1)
            &&& crate::natives::common::outcome(f0, j0.hv(), f1, j1.hv(), r, crate::natives::scanner::scanner_next_number(f0, j0.hv(), true))
        },
        UtilNative::ScannerNext => {
            &&& crate::runtime::jvm::same_but_heap(j0, j1)
            &&& crate::natives::common::outcome(f0, j0.hv(), f1, j1.hv(), r, crate::natives::scanner::scanner_next(f0, j0.hv()))
        },
        UtilNative::ScannerNextLine => {
            &&& crate::runtime::jvm::same_but_heap(j0, j1)
            &&& crate::natives::common::outcome(f0, j0.hv(), f1, j1.hv(), r, crate::natives::scanner::scanner_next_line(f0, j0.hv()))
        },
        UtilNative::ScannerHasNext => {
            &&& crate::runtime::jvm::same_but_heap(j0, j1)
            &&& crate::natives::common::outcome(f0, j0.hv(), f1, j1.hv(), r, crate::natives::scanner::scanner_has_next(f0, j0.hv()))
        },
        UtilNative::LocaleGetDefault => {
            &&& crate::runtime::jvm::same_but_heap(j0, j1)
            &&& crate::natives::common::outcome(f0, j0.hv(), f1, j1.hv(), r, crate::natives::misc::locale_default(j0.hv()))
        },
        UtilNative::LocaleGetLanguage => {
            &&& crate::runtime::jvm::same_but_heap(j0, j1)
            &&& crate::natives::common::outcome(f0, j0.hv(), f1, j1.hv(), r, crate::natives::misc::string_field_copy(f0, j0.hv(), "language"@))
        },
        UtilNative::LocaleGetCountry => {
            &&& crate::runtime::jvm::same_but_heap(j0, j1)
            &&& crate::natives::common::outcome(f0, j0.hv(), f1, j1.hv(), r, crate::natives::misc::string_field_copy(f0, j0.hv(), "country"@))
        },
        UtilNative::BitSetInit => {
            &&& crate::runtime::jvm::same_but_heap(j0, j1)
            &&& f1 == f0
            &&& match crate::natives::common::call_error(f0, 0) { Some(e) => r == Err::<(), crate::runtime::error::JvmError>(e) && j1.hv() == j0.hv(), None => r == Ok::<(), crate::runtime::error::JvmError>(()) && j1.hv() == crate::natives::bits::bitset_init(j0.hv(), crate::natives::common::this_of(f0)), }
        },
        UtilNative::BitSetGet => {
            &&& j1 == j0
            &&& crate::natives::common::instance_outcome(f0, j0.hv(), f1, j1.hv(), r, 1, |id: usize| (j0.hv(), Some(crate::runtime::value::Value::Boolean(crate::natives::bits::bitset_get(j0.hv(), id, crate::runtime::value::spec_as_int(crate::natives::common::top(f0, 0)))))), false, Some(crate::runtime::value::Value::Boolean(false)))
        },
        UtilNative::BitSetSet => {
            &&& crate::runtime::jvm::same_but_heap(j0, j1)
            &&& crate::natives::common::outcome(f0, j0.hv(), f1, j1.hv(), r, crate::natives::bits::bitset_set_effect(f0, j0.hv()))
        },
        UtilNative::BitSetClear => {
            &&& crate::runtime::jvm::same_but_heap(j0, j1)
            &&& crate::natives::common::instance_outcome(f0, j0.hv(), f1, j1.hv(), r, 1, |id: usize| (crate::natives::bits::bitset_clear(j0.hv(), id, crate::runtime::value::spec_as_int(crate::natives::common::top(f0, 0))), None), false, None)
        },
        UtilNative::BitSetCardinality => {
            &&& j1 == j0
            &&& crate::natives::common::instance_outcome(f0, j0.hv(), f1, j1.hv(), r, 0, |id: usize| (j0.hv(), Some(crate::runtime::value::Value::Int(crate::natives::bits::bitset_cardinality(j0.hv(), id)))), false, Some(crate::runtime::value::Value::Int(0)))
        },
        UtilNative::OptionalIntEmpty => {
            &&& crate::runtime::jvm::same_but_heap(j0, j1)
            &&& crate::natives::common::outcome(f0, j0.hv(), f1, j1.hv(), r, crate::natives::fields::optional_number(f0, j0.hv(), "java.util.OptionalInt"@, 0u8, false))
        },
        UtilNative::OptionalIntOf => {
            &&& crate::runtime::jvm::same_but_heap(j0, j1)
            &&& crate::natives::common::outcome(f0, j0.hv(), f1, j1.hv(), r, crate::natives::fields::optional_number(f0, j0.hv(), "java.util.OptionalInt"@, 0u8, true))
        },
        UtilNative::OptionalIntIsPresent => {
            &&& j1 == j0
            &&& crate::natives::common::outcome(f0, j0.hv(), f1, j1.hv(), r, crate::natives::fields::get_field_kind(f0, j0.hv(), "isPresent"@, 2u8))
        },
        UtilNative::OptionalIntGetAsInt => {
            &&& j1 == j0
            &&& crate::natives::common::outcome(f0, j0.hv(), f1, j1.hv(), r, crate::natives::fields::get_field_kind(f0, j0.hv(), "value"@, 0u8))
        },
        UtilNative::OptionalIntOrElse => {
            &&& j1 == j0
            &&& crate::natives::common::outcome(f0, j0.hv(), f1, j1.hv(), r, crate::natives::fields::optional_int_or_else(f0, j0.hv()))
        },
        UtilNative::OptionalLongEmpty => {
            &&& crate::runtime::jvm::same_but_heap(j0, j1)
            &&& crate::natives::common::outcome(f0, j0.hv(), f1, j1.hv(), r, crate::natives::fields::optional_number(f0, j0.hv(), "java.util.OptionalLong"@, 1u8, false))
        },
        UtilNative::OptionalLongOf => {
            &&& crate::runtime::jvm::same_but_heap(j0, j1)
            &&& crate::natives::common::outcome(f0, j0.hv(), f1, j1.hv(), r, crate::natives::fields::optional_number(f0, j0.hv(), "java.util.OptionalLong"@, 1u8, true))
        },
        UtilNative::OptionalLongIsPresent => {
            &&& j1 == j0
            &&& crate::natives::common::outcome(f0, j0.hv(), f1, j1.hv(), r, crate::natives::fields::get_field_kind(f0, j0.hv(), "isPresent"@, 2u8))
        },
        UtilNative::OptionalLongGetAsLong => {
            &&& j1 == j0
            &&& crate::natives::common::outcome(f0, j0.hv(), f1, j1.hv(), r, crate::natives::fields::get_field_kind(f0, j0.hv(), "value"@, 1u8))
        },
        UtilNative::OptionalDoubleEmpty => {
            &&& crate::runtime::jvm::same_but_heap(j0, j1)
            &&& crate::natives::common::outcome(f0, j0.hv(), f1, j1.hv(), r, crate::natives::fields::optional_number(f0, j0.hv(), "java.util.OptionalDouble"@, 4u8, false))
        },
        UtilNative::OptionalDoubleIsPresent => {
            &&& j1 == j0
            &&& crate::natives::common::outcome(f0, j0.hv(), f1, j1.hv(), r, crate::natives::fields::get_field_kind(f0, j0.hv(), "isPresent"@, 2u8))
        },
        UtilNative::OptionalDoubleGetAsDouble => {
            &&& j1 == j0
            &&& crate::natives::common::outcome(f0, j0.hv(), f1, j1.hv(), r, crate::natives::fields::get_field_kind(f0, j0.hv(), "value"@, 4u8))
        },
        UtilNative::Base64EncoderEncodeToString => {
            &&& crate::runtime::jvm::same_but_heap(j0, j1)
            &&& crate::natives::common::outcome(f0, j0.hv(), f1, j1.hv(), r, crate::natives::misc::base64_encode_to_string(f0, j0.hv()))
        },
        UtilNative::Base64DecoderDecode => {
            &&& crate::runtime::jvm::same_but_heap(j0, j1)
            &&& crate::natives::common::outcome(f0, j0.hv(), f1, j1.hv(), r, crate::natives::misc::base64_decode_array(f0, j0.hv()))
        },
        UtilNative::ArraysToString => false,
        UtilNative::ObjectsToString => false,
    }
}

/// Tests `util_pre` at run time.
pub fn util_ready(n: UtilNative, frame: &Frame, jvm: &Jvm) -> (b: bool)
    ensures
        b == util_pre(n, *frame, *jvm),
{
    match n {
        UtilNative::ArrayListInit => true,
        UtilNative::ArrayListInitCapacity => true,
        UtilNative::ArrayListSize => true,
        UtilNative::ArrayListAdd => ready::list_ready_check(jvm, frame),
        UtilNative::ArrayListGet => true,
        UtilNative::ArrayListIsEmpty => true,
        UtilNative::ArrayListRemove => ready::list_ready_check(jvm, frame),
        UtilNative::ArrayListIndexOf => ready::list_ready_check(jvm, frame),
        UtilNative::ArrayListContains => ready::list_ready_check(jvm, frame),
        UtilNative::ArrayListClear => true,
        UtilNative::ArrayListSet => true,
        UtilNative::ArrayListForEach => true,
        UtilNative::ArrayListAddAll => ready::add_all_ready_check(jvm, frame),
        UtilNative::HashMapInit => true,
        UtilNative::HashMapSize => true,
        UtilNative::HashMapPut => ready::size_ok_check(jvm, frame),
        UtilNative::HashMapGet => true,
        UtilNative::HashMapContainsKey => true,
        UtilNative::HashMapIsEmpty => true,
        UtilNative::HashMapKeySet => true,
        UtilNative::HashMapClear => true,
        UtilNative::HashMapComputeIfAbsent => ready::size_ok_check(jvm, frame),
        UtilNative::HashMapMerge => ready::size_ok_check(jvm, frame),
        UtilNative::HashMapForEach => true,
        UtilNative::HashMapGetOrDefault => ready::size_ok_check(jvm, frame),
        UtilNative::HashMapPutIfAbsent => ready::size_ok_check(jvm, frame),
        UtilNative::HashMapReplace => ready::size_ok_check(jvm, frame),
        UtilNative::HashMapValues => true,
        UtilNative::HashMapEntrySet => true,
        UtilNative::HashSetInit => true,
        UtilNative::HashSetAdd => ready::set_ready_check(jvm, frame),
        UtilNative::HashSetSize => true,
        UtilNative::HashSetIsEmpty => true,
        UtilNative::HashSetContains => true,
        UtilNative::ArraysAsList => true,
        UtilNative::ArraysSort => true,
        UtilNative::ArraysBinarySearch => true,
        UtilNative::ArraysCopyOf => true,
        UtilNative::ArraysFill => true,
        UtilNative::CollectionsSingletonList => true,
        UtilNative::CollectionsEmptyList => true,
        UtilNative::CollectionsSort => ready::sort_ready_check(jvm, frame, false),
        UtilNative::CollectionsSortWithComparator => ready::sort_ready_check(jvm, frame, true),
        UtilNative::CollectionsDisjoint => true,
        UtilNative::CollectionsReplaceAll => true,
        UtilNative::CollectionsReverse => ready::reverse_ready_check(jvm, frame),
        UtilNative::CollectionsFill => (frame.stack.len() < 2 || ready::size_loop_ready_check(jvm, frame.stack[frame.stack.len() - 2])),
        UtilNative::CollectionsFrequency => (frame.stack.len() < 2 || ready::size_loop_ready_check(jvm, frame.stack[frame.stack.len() - 2])),
        UtilNative::CollectionsMax => (frame.stack.len() < 1 || ready::size_loop_ready_check(jvm, frame.stack[frame.stack.len() - 1])),
        UtilNative::CollectionsMin => (frame.stack.len() < 1 || ready::size_loop_ready_check(jvm, frame.stack[frame.stack.len() - 1])),
        UtilNative::CollectionsNCopies => true,
        UtilNative::CollectionsSingleton => true,
        UtilNative::CollectionsSingletonMap => true,
        UtilNative::CollectionsUnmodifiableList => true,
        UtilNative::CollectionsUnmodifiableMap => true,
        UtilNative::CollectionsUnmodifiableSet => true,
        UtilNative::CollectionsCheckedList => true,
        UtilNative::CollectionsCheckedMap => true,
        UtilNative::CollectionsCheckedSet => true,
        UtilNative::CollectionsSynchronizedList => true,
        UtilNative::CollectionsSynchronizedMap => true,
        UtilNative::CollectionsSynchronizedSet => true,
        UtilNative::CollectionsNewSetFromMap => true,
        UtilNative::CollectionsReverseOrder => true,
        UtilNative::CollectionsList => true,
        UtilNative::CollectionsEnumeration => true,
        UtilNative::CollectionsAddAll => ready::coll_add_all_ready_check(jvm, frame),
        UtilNative::CollectionsIndexOfSubList => true,
        UtilNative::CollectionsLastIndexOfSubList => true,
        UtilNative::CollectionsRotate => ready::rotate_ready_check(jvm, frame),
        UtilNative::CollectionsSwap => true,
        UtilNative::CollectionsAsLifoQueue => true,
        UtilNative::CollectionsCopy => true,
        UtilNative::ObjectsEquals => true,
        UtilNative::ObjectsHashCode => true,
        UtilNative::ObjectsRequireNonNull => true,
        UtilNative::ObjectsDeepEquals => true,
        UtilNative::ObjectsHash => true,
        UtilNative::ObjectsCompare => true,
        UtilNative::ObjectsIsNull => true,
        UtilNative::ObjectsNonNull => true,
        UtilNative::OptionalEmpty => true,
        UtilNative::OptionalOf => true,
        UtilNative::OptionalIsPresent => true,
        UtilNative::OptionalGet => true,
        UtilNative::OptionalOrElse => true,
        UtilNative::LinkedListInit => true,
        UtilNative::LinkedListAdd => ready::size_ready_check(jvm, frame),
        UtilNative::LinkedListAddFirst => ready::size_ready_check(jvm, frame),
        UtilNative::LinkedListGet => true,
        UtilNative::LinkedListGetFirst => true,
        UtilNative::LinkedListGetLast => true,
        UtilNative::LinkedListSize => true,
        UtilNative::LinkedListIsEmpty => true,
        UtilNative::LinkedListRemove => ready::remove_ready_check(jvm, frame),
        UtilNative::LinkedListRemoveFirst => ready::list_ready_check(jvm, frame),
        UtilNative::LinkedListRemoveLast => ready::list_ready_check(jvm, frame),
        UtilNative::TreeMapInit => true,
        UtilNative::TreeMapPut => ready::size_ok_check(jvm, frame),
        UtilNative::TreeMapGet => ready::size_ok_check(jvm, frame),
        UtilNative::TreeMapSize => true,
        UtilNative::LinkedHashSetInit => true,
        UtilNative::LinkedHashSetAdd => ready::size_ok_check(jvm, frame),
        UtilNative::LinkedHashSetSize => true,
        UtilNative::PriorityQueueInit => true,
        UtilNative::PriorityQueueAdd => ready::size_ok_check(jvm, frame),
        UtilNative::PriorityQueuePeek => true,
        UtilNative::PriorityQueuePoll => ready::queue_ready_check(jvm, frame),
        UtilNative::PriorityQueueSize => true,
        UtilNative::UUIDToString => true,
        UtilNative::UUIDFromString => true,
        UtilNative::StackInit => true,
        UtilNative::StackPush => ready::size_ready_check(jvm, frame),
        UtilNative::StackPop => ready::list_ready_check(jvm, frame),
        UtilNative::StackPeek => true,
        UtilNative::StackEmpty => true,
        UtilNative::StackSearch => ready::size_ready_check(jvm, frame),
        UtilNative::Base64GetEncoder => true,
        UtilNative::Base64GetDecoder => true,
        UtilNative::PropertiesInit => true,
        UtilNative::PropertiesSetProperty => ready::size_ok_check(jvm, frame),
        UtilNative::PropertiesGetProperty => ready::size_ok_check(jvm, frame),
        UtilNative::ComparatorNaturalOrder => true,
        UtilNative::ComparatorReverseOrder => true,
        UtilNative::ComparatorThenComparing => true,
        UtilNative::ComparatorNullsFirst => true,
        UtilNative::ComparatorNullsLast => true,
        UtilNative::ComparatorReversed => true,
        UtilNative::AtomicIntegerInit => true,
        UtilNative::AtomicIntegerInitValue => true,
        UtilNative::AtomicIntegerGet => true,
        UtilNative::AtomicIntegerSet => true,
        UtilNative::AtomicIntegerIncrementAndGet => true,
        UtilNative::AtomicIntegerDecrementAndGet => true,
        UtilNative::AtomicIntegerAddAndGet => true,
        UtilNative::AtomicIntegerCompareAndSet => true,
        UtilNative::AtomicLongInitValue => true,
        UtilNative::AtomicLongGet => true,
        UtilNative::AtomicLongSet => true,
        UtilNative::AtomicLongIncrementAndGet => true,
        UtilNative::AtomicLongAddAndGet => true,
        UtilNative::AtomicReferenceInitValue => true,
        UtilNative::AtomicReferenceGet => true,
        UtilNative::AtomicReferenceSet => true,
        UtilNative::AtomicBooleanInitValue => true,
        UtilNative::AtomicBooleanGet => true,
        UtilNative::AtomicBooleanSet => true,
        UtilNative::AtomicBooleanGetAndSet => true,
        UtilNative::AtomicBooleanCompareAndSet => true,
        UtilNative::LinkedHashMapInit => true,
        UtilNative::LinkedHashMapPut => ready::size_ok_check(jvm, frame),
        UtilNative::LinkedHashMapGet => ready::size_ok_check(jvm, frame),
        UtilNative::LinkedHashMapSize => true,
        UtilNative::LinkedHashMapIsEmpty => true,
        UtilNative::LinkedHashMapContainsKey => ready::size_ok_check(jvm, frame),
        UtilNative::ReentrantLockLock => true,
        UtilNative::ReentrantLockUnlock => true,
        UtilNative::ReentrantLockTryLock => true,
        UtilNative::DateInitMillis => true,
        UtilNative::DateGetTime => true,
        UtilNative::DateSetTime => true,
        UtilNative::DateToString => true,
        UtilNative::DateInit => true,
        UtilNative::CollectionsShuffle => ready::reverse_ready_check(jvm, frame),
        UtilNative::RandomNextInt => true,
        UtilNative::RandomNextLong => true,
        UtilNative::RandomNextBoolean => true,
        UtilNative::RandomNextIntBound => true,
        UtilNative::UUIDRandomUUID => true,
        UtilNative::ScannerInit => true,
        UtilNative::ScannerNextInt => true,
        UtilNative::ScannerNextLong => true,
        UtilNative::ScannerNext => true,
        UtilNative::ScannerNextLine => crate::natives::scanner::scanner_line_ready_check(jvm, frame),
        UtilNative::ScannerHasNext => true,
        UtilNative::LocaleGetDefault => true,
        UtilNative::LocaleGetLanguage => true,
        UtilNative::LocaleGetCountry => true,
        UtilNative::BitSetInit => true,
        UtilNative::BitSetGet => true,
        UtilNative::BitSetSet => ready::bitset_set_ready_check(jvm, frame),
        UtilNative::BitSetClear => true,
        UtilNative::BitSetCardinality => true,
        UtilNative::OptionalIntEmpty => true,
        UtilNative::OptionalIntOf => true,
        UtilNative::OptionalIntIsPresent => true,
        UtilNative::OptionalIntGetAsInt => true,
        UtilNative::OptionalIntOrElse => true,
        UtilNative::OptionalLongEmpty => true,
        UtilNative::OptionalLongOf => true,
        UtilNative::OptionalLongIsPresent => true,
        UtilNative::OptionalLongGetAsLong => true,
        UtilNative::OptionalDoubleEmpty => true,
        UtilNative::OptionalDoubleIsPresent => true,
        UtilNative::OptionalDoubleGetAsDouble => true,
        UtilNative::Base64EncoderEncodeToString => true,
        UtilNative::Base64DecoderDecode => true,
        UtilNative::ArraysToString => false,
        UtilNative::ObjectsToString => false,
    }
}

/// Runs the native of `n`.
pub fn run_util(n: UtilNative, frame: &mut Frame, jvm: &mut Jvm) -> (r: Result<(), JvmError>)
    requires
        old(jvm).scheduler.wf(),
        util_pre(n, *old(frame), *old(jvm)),
    ensures
        final(jvm).scheduler.wf(),
        util_post(n, *old(frame), *old(jvm), *final(frame), *final(jvm), r),
{
    match n {
        UtilNative::ArrayListInit => crate::natives::list::arraylist_init(frame, jvm),
        UtilNative::ArrayListInitCapacity => crate::natives::list::arraylist_init_capacity(frame, jvm),
        UtilNative::ArrayListSize => crate::natives::list::arraylist_size(frame, jvm),
        UtilNative::ArrayListAdd => crate::natives::list::arraylist_add(frame, jvm),
        UtilNative::ArrayListGet => crate::natives::list::arraylist_get(frame, jvm),
        UtilNative::ArrayListIsEmpty => crate::natives::list::arraylist_is_empty(frame, jvm),
        UtilNative::ArrayListRemove => crate::natives::list::arraylist_remove(frame, jvm),
        UtilNative::ArrayListIndexOf => crate::natives::list::arraylist_index_of(frame, jvm),
        UtilNative::ArrayListContains => crate::natives::list::arraylist_contains(frame, jvm),
        UtilNative::ArrayListClear => crate::natives::list::arraylist_clear(frame, jvm),
        UtilNative::ArrayListSet => crate::natives::list::arraylist_set(frame, jvm),
        UtilNative::ArrayListForEach => crate::natives::list::arraylist_for_each(frame, jvm),
        UtilNative::ArrayListAddAll => crate::natives::list::arraylist_add_all(frame, jvm),
        UtilNative::HashMapInit => crate::natives::map::hashmap_init(frame, jvm),
        UtilNative::HashMapSize => crate::natives::map::hashmap_size(frame, jvm),
        UtilNative::HashMapPut => crate::natives::map::hashmap_put(frame, jvm),
        UtilNative::HashMapGet => crate::natives::map::hashmap_get(frame, jvm),
        UtilNative::HashMapContainsKey => crate::natives::map::hashmap_contains_key(frame, jvm),
        UtilNative::HashMapIsEmpty => crate::natives::map::hashmap_is_empty(frame, jvm),
        UtilNative::HashMapKeySet => crate::natives::map::hashmap_key_set(frame, jvm),
        UtilNative::HashMapClear => crate::natives::map::hashmap_clear(frame, jvm),
        UtilNative::HashMapComputeIfAbsent => crate::natives::map::hashmap_compute_if_absent(frame, jvm),
        UtilNative::HashMapMerge => crate::natives::map::hashmap_merge(frame, jvm),
        UtilNative::HashMapForEach => crate::natives::map::hashmap_for_each(frame, jvm),
        UtilNative::HashMapGetOrDefault => crate::natives::map::hashmap_get_or_default(frame, jvm),
        UtilNative::HashMapPutIfAbsent => crate::natives::map::hashmap_put_if_absent(frame, jvm),
        UtilNative::HashMapReplace => crate::natives::map::hashmap_replace(frame, jvm),
        UtilNative::HashMapValues => crate::natives::map::hashmap_values(frame, jvm),
        UtilNative::HashMapEntrySet => crate::natives::map::hashmap_entry_set(frame, jvm),
        UtilNative::HashSetInit => crate::natives::set::hashset_init(frame, jvm),
        UtilNative::HashSetAdd => crate::natives::set::hashset_add(frame, jvm),
        UtilNative::HashSetSize => crate::natives::set::hashset_size(frame, jvm),
        UtilNative::HashSetIsEmpty => crate::natives::set::hashset_is_empty(frame, jvm),
        UtilNative::HashSetContains => crate::natives::set::hashset_contains(frame, jvm),
        UtilNative::ArraysAsList => crate::natives::objects::arrays_as_list_native(frame, jvm),
        UtilNative::ArraysSort => crate::natives::objects::arrays_sort_native(frame, jvm),
        UtilNative::ArraysBinarySearch => crate::natives::objects::arrays_binary_search_native(frame, jvm),
        UtilNative::ArraysCopyOf => crate::natives::objects::arrays_copy_of_native(frame, jvm),
        UtilNative::ArraysFill => crate::natives::objects::arrays_fill_native(frame, jvm),
        UtilNative::CollectionsSingletonList => crate::natives::collections::singleton_list_native(frame, jvm),
        UtilNative::CollectionsEmptyList => crate::natives::collections::empty_list_native(frame, jvm, "java.util.Collections$EmptyList", 0usize),
        UtilNative::CollectionsSort => crate::natives::sorting::list_sort_native(frame, jvm, false),
        UtilNative::CollectionsSortWithComparator => crate::natives::sorting::list_sort_native(frame, jvm, true),
        UtilNative::CollectionsDisjoint => crate::natives::collections::disjoint_native(frame, jvm),
        UtilNative::CollectionsReplaceAll => crate::natives::collections::replace_all_native(frame, jvm),
        UtilNative::CollectionsReverse => crate::natives::collections::reverse_native(frame, jvm),
        UtilNative::CollectionsFill => crate::natives::collections::fill_native(frame, jvm),
        UtilNative::CollectionsFrequency => crate::natives::collections::frequency_native(frame, jvm),
        UtilNative::CollectionsMax => crate::natives::sorting::extreme_native(frame, jvm, true),
        UtilNative::CollectionsMin => crate::natives::sorting::extreme_native(frame, jvm, false),
        UtilNative::CollectionsNCopies => crate::natives::collections::n_copies_native(frame, jvm),
        UtilNative::CollectionsSingleton => crate::natives::collections::singleton_set_native(frame, jvm),
        UtilNative::CollectionsSingletonMap => crate::natives::collections::singleton_map_native(frame, jvm),
        UtilNative::CollectionsUnmodifiableList => crate::natives::collections::wrap_list_native(frame, jvm, "java.util.Collections$UnmodifiableList", false),
        UtilNative::CollectionsUnmodifiableMap => crate::natives::collections::wrap_map_native(frame, jvm, "java.util.Collections$UnmodifiableMap", false),
        UtilNative::CollectionsUnmodifiableSet => crate::natives::collections::first_arg_native(frame, jvm, 1usize),
        UtilNative::CollectionsCheckedList => crate::natives::collections::first_arg_native(frame, jvm, 2usize),
        UtilNative::CollectionsCheckedMap => crate::natives::collections::first_arg_native(frame, jvm, 3usize),
        UtilNative::CollectionsCheckedSet => crate::natives::collections::first_arg_native(frame, jvm, 2usize),
        UtilNative::CollectionsSynchronizedList => crate::natives::collections::wrap_list_native(frame, jvm, "java.util.Collections$SynchronizedList", true),
        UtilNative::CollectionsSynchronizedMap => crate::natives::collections::wrap_map_native(frame, jvm, "java.util.Collections$SynchronizedMap", true),
        UtilNative::CollectionsSynchronizedSet => crate::natives::collections::first_arg_native(frame, jvm, 1usize),
        UtilNative::CollectionsNewSetFromMap => crate::natives::collections::set_from_map_native(frame, jvm),
        UtilNative::CollectionsReverseOrder => crate::natives::boxes::push_constant_native(frame, jvm, Value::Null),
        UtilNative::CollectionsList => crate::natives::collections::empty_list_native(frame, jvm, "java.util.ArrayList", 1usize),
        UtilNative::CollectionsEnumeration => crate::natives::collections::enumeration_native(frame, jvm),
        UtilNative::CollectionsAddAll => crate::natives::collections::coll_add_all_native(frame, jvm),
        UtilNative::CollectionsIndexOfSubList => crate::natives::collections::no_sub_list_native(frame, jvm),
        UtilNative::CollectionsLastIndexOfSubList => crate::natives::collections::no_sub_list_native(frame, jvm),
        UtilNative::CollectionsRotate => crate::natives::collections::rotate_native(frame, jvm),
        UtilNative::CollectionsSwap => crate::natives::collections::list_swap_native(frame, jvm),
        UtilNative::CollectionsAsLifoQueue => crate::natives::collections::lifo_queue_native(frame, jvm),
        UtilNative::CollectionsCopy => crate::natives::collections::list_copy_native(frame, jvm),
        UtilNative::ObjectsEquals => crate::natives::objects::objects_equals_native(frame, jvm),
        UtilNative::ObjectsHashCode => crate::natives::objects::objects_hash_code_native(frame, jvm),
        UtilNative::ObjectsRequireNonNull => crate::natives::objects::objects_require_non_null_native(frame, jvm),
        UtilNative::ObjectsDeepEquals => crate::natives::objects::objects_deep_equals_native(frame, jvm),
        UtilNative::ObjectsHash => crate::natives::objects::objects_hash_native(frame, jvm),
        UtilNative::ObjectsCompare => crate::natives::texts::objects_compare_native(frame, jvm),
        UtilNative::ObjectsIsNull => crate::natives::objects::objects_null_test_native(frame, jvm, true),
        UtilNative::ObjectsNonNull => crate::natives::objects::objects_null_test_native(frame, jvm, false),
        UtilNative::OptionalEmpty => crate::natives::objects::optional_make_native(frame, jvm, false),
        UtilNative::OptionalOf => crate::natives::objects::optional_make_native(frame, jvm, true),
        UtilNative::OptionalIsPresent => crate::natives::objects::optional_query_native(frame, jvm, false),
        UtilNative::OptionalGet => crate::natives::objects::optional_query_native(frame, jvm, true),
        UtilNative::OptionalOrElse => crate::natives::objects::optional_or_else_native(frame, jvm),
        UtilNative::LinkedListInit => crate::natives::list::arraylist_init(frame, jvm),
        UtilNative::LinkedListAdd => crate::natives::seqs::linked_list_add(frame, jvm),
        UtilNative::LinkedListAddFirst => crate::natives::seqs::linked_list_add_first(frame, jvm),
        UtilNative::LinkedListGet => crate::natives::list::arraylist_get(frame, jvm),
        UtilNative::LinkedListGetFirst => crate::natives::seqs::linked_list_get_end(frame, jvm, true),
        UtilNative::LinkedListGetLast => crate::natives::seqs::linked_list_get_end(frame, jvm, false),
        UtilNative::LinkedListSize => crate::natives::list::arraylist_size(frame, jvm),
        UtilNative::LinkedListIsEmpty => crate::natives::list::arraylist_is_empty(frame, jvm),
        UtilNative::LinkedListRemove => crate::natives::seqs::linked_list_remove(frame, jvm),
        UtilNative::LinkedListRemoveFirst => crate::natives::seqs::linked_list_remove_first(frame, jvm),
        UtilNative::LinkedListRemoveLast => crate::natives::seqs::pop_last_native(frame, jvm),
        UtilNative::TreeMapInit => crate::natives::map::hashmap_init(frame, jvm),
        UtilNative::TreeMapPut => crate::natives::ordered::sorted_map_put(frame, jvm),
        UtilNative::TreeMapGet => crate::natives::ordered::sorted_map_get(frame, jvm),
        UtilNative::TreeMapSize => crate::natives::map::hashmap_size(frame, jvm),
        UtilNative::LinkedHashSetInit => crate::natives::ordered::holder_init_native(frame, jvm, "keys"),
        UtilNative::LinkedHashSetAdd => crate::natives::ordered::linked_set_add_native(frame, jvm),
        UtilNative::LinkedHashSetSize => crate::natives::map::hashmap_size(frame, jvm),
        UtilNative::PriorityQueueInit => crate::natives::ordered::holder_init_native(frame, jvm, "queue"),
        UtilNative::PriorityQueueAdd => crate::natives::ordered::queue_add_native(frame, jvm),
        UtilNative::PriorityQueuePeek => crate::natives::ordered::queue_peek_native(frame, jvm),
        UtilNative::PriorityQueuePoll => crate::natives::ordered::queue_poll_native(frame, jvm),
        UtilNative::PriorityQueueSize => crate::natives::map::hashmap_size(frame, jvm),
        UtilNative::UUIDToString => crate::natives::misc::string_field_copy_native(frame, jvm, "value"),
        UtilNative::UUIDFromString => crate::natives::misc::uuid_from_string_native(frame, jvm),
        UtilNative::StackInit => crate::natives::list::arraylist_init(frame, jvm),
        UtilNative::StackPush => crate::natives::seqs::stack_push(frame, jvm),
        UtilNative::StackPop => crate::natives::seqs::pop_last_native(frame, jvm),
        UtilNative::StackPeek => crate::natives::seqs::stack_peek_native(frame, jvm),
        UtilNative::StackEmpty => crate::natives::list::arraylist_is_empty(frame, jvm),
        UtilNative::StackSearch => crate::natives::seqs::stack_search_native(frame, jvm),
        UtilNative::Base64GetEncoder => crate::natives::misc::new_plain_native(frame, jvm, "java.util.Base64$Encoder"),
        UtilNative::Base64GetDecoder => crate::natives::misc::new_plain_native(frame, jvm, "java.util.Base64$Decoder"),
        UtilNative::PropertiesInit => crate::natives::map::hashmap_init(frame, jvm),
        UtilNative::PropertiesSetProperty => crate::natives::misc::props_set_native(frame, jvm),
        UtilNative::PropertiesGetProperty => crate::natives::ordered::sorted_map_get(frame, jvm),
        UtilNative::ComparatorNaturalOrder => crate::natives::boxes::push_constant_native(frame, jvm, Value::Null),
        UtilNative::ComparatorReverseOrder => crate::natives::boxes::push_constant_native(frame, jvm, Value::Null),
        UtilNative::ComparatorThenComparing => crate::natives::boxes::push_constant_native(frame, jvm, Value::Null),
        UtilNative::ComparatorNullsFirst => crate::natives::boxes::push_constant_native(frame, jvm, Value::Null),
        UtilNative::ComparatorNullsLast => crate::natives::boxes::push_constant_native(frame, jvm, Value::Null),
        UtilNative::ComparatorReversed => crate::natives::boxes::push_constant_native(frame, jvm, Value::Null),
        UtilNative::AtomicIntegerInit => crate::natives::fields::set_field_const_native(frame, jvm, "value", Value::Int(0i32)),
        UtilNative::AtomicIntegerInitValue => crate::natives::fields::set_field_from_local_native(frame, jvm, "value", 0u8),
        UtilNative::AtomicIntegerGet => crate::natives::fields::get_field_kind_native(frame, jvm, "value", 0u8),
        UtilNative::AtomicIntegerSet => crate::natives::fields::set_field_from_local_native(frame, jvm, "value", 0u8),
        UtilNative::AtomicIntegerIncrementAndGet => crate::natives::fields::add_and_get_native(frame, jvm, false, Some(1i64)),
        UtilNative::AtomicIntegerDecrementAndGet => crate::natives::fields::add_and_get_native(frame, jvm, false, Some(-1i64)),
        UtilNative::AtomicIntegerAddAndGet => crate::natives::fields::add_and_get_native(frame, jvm, false, None::<i64>),
        UtilNative::AtomicIntegerCompareAndSet => crate::natives::fields::compare_and_set_native(frame, jvm, false),
        UtilNative::AtomicLongInitValue => crate::natives::fields::set_field_from_local_native(frame, jvm, "value", 1u8),
        UtilNative::AtomicLongGet => crate::natives::fields::get_field_kind_native(frame, jvm, "value", 1u8),
        UtilNative::AtomicLongSet => crate::natives::fields::set_field_from_local_native(frame, jvm, "value", 1u8),
        UtilNative::AtomicLongIncrementAndGet => crate::natives::fields::add_and_get_native(frame, jvm, true, Some(1i64)),
        UtilNative::AtomicLongAddAndGet => crate::natives::fields::add_and_get_native(frame, jvm, true, None::<i64>),
        UtilNative::AtomicReferenceInitValue => crate::natives::fields::set_field_from_local_native(frame, jvm, "value", 3u8),
        UtilNative::AtomicReferenceGet => crate::natives::fields::get_field_kind_native(frame, jvm, "value", 3u8),
        UtilNative::AtomicReferenceSet => crate::natives::fields::set_field_popped_native(frame, jvm, "value"),
        UtilNative::AtomicBooleanInitValue => crate::natives::fields::set_field_from_local_native(frame, jvm, "value", 2u8),
        UtilNative::AtomicBooleanGet => crate::natives::fields::get_field_kind_native(frame, jvm, "value", 2u8),
        UtilNative::AtomicBooleanSet => crate::natives::fields::set_field_from_local_native(frame, jvm, "value", 2u8),
        UtilNative::AtomicBooleanGetAndSet => crate::natives::fields::get_and_set_bool_native(frame, jvm),
        UtilNative::AtomicBooleanCompareAndSet => crate::natives::fields::compare_and_set_native(frame, jvm, true),
        UtilNative::LinkedHashMapInit => crate::natives::map::hashmap_init(frame, jvm),
        UtilNative::LinkedHashMapPut => crate::natives::ordered::sorted_map_put(frame, jvm),
        UtilNative::LinkedHashMapGet => crate::natives::ordered::sorted_map_get(frame, jvm),
        UtilNative::LinkedHashMapSize => crate::natives::map::hashmap_size(frame, jvm),
        UtilNative::LinkedHashMapIsEmpty => crate::natives::map::hashmap_is_empty(frame, jvm),
        UtilNative::LinkedHashMapContainsKey => crate::natives::ordered::sorted_map_contains_key(frame, jvm),
        UtilNative::ReentrantLockLock => crate::natives::fields::lock_lock_native(frame, jvm),
        UtilNative::ReentrantLockUnlock => crate::natives::fields::lock_unlock_native(frame, jvm),
        UtilNative::ReentrantLockTryLock => crate::natives::fields::lock_try_native(frame, jvm),
        UtilNative::DateInitMillis => crate::natives::fields::set_field_from_local_native(frame, jvm, "fastTime", 1u8),
        UtilNative::DateGetTime => crate::natives::fields::get_field_kind_native(frame, jvm, "fastTime", 1u8),
        UtilNative::DateSetTime => crate::natives::fields::set_field_from_local_native(frame, jvm, "fastTime", 1u8),
        UtilNative::DateToString => crate::natives::texts::date_to_string_native(frame, jvm),
        UtilNative::DateInit => crate::natives::clock::date_now_now(frame, jvm),
        UtilNative::CollectionsShuffle => crate::natives::shuffle::shuffle_now(frame, jvm),
        UtilNative::RandomNextInt => crate::natives::clock::random_now(frame, jvm, 0u8),
        UtilNative::RandomNextLong => crate::natives::clock::random_now(frame, jvm, 1u8),
        UtilNative::RandomNextBoolean => crate::natives::clock::random_now(frame, jvm, 2u8),
        UtilNative::RandomNextIntBound => crate::natives::clock::random_bounded_now(frame, jvm),
        UtilNative::UUIDRandomUUID => crate::natives::clock::uuid_random_now(frame, jvm),
        UtilNative::ScannerInit => crate::natives::scanner::scanner_init_native(frame, jvm),
        UtilNative::ScannerNextInt => crate::natives::scanner::scanner_next_number_native(frame, jvm, false),
        UtilNative::ScannerNextLong => crate::natives::scanner::scanner_next_number_native(frame, jvm, true),
        UtilNative::ScannerNext => crate::natives::scanner::scanner_next_native(frame, jvm),
        UtilNative::ScannerNextLine => crate::natives::scanner::scanner_next_line_native(frame, jvm),
        UtilNative::ScannerHasNext => crate::natives::scanner::scanner_has_next_native(frame, jvm),
        UtilNative::LocaleGetDefault => crate::natives::misc::locale_default_native(frame, jvm),
        UtilNative::LocaleGetLanguage => crate::natives::misc::string_field_copy_native(frame, jvm, "language"),
        UtilNative::LocaleGetCountry => crate::natives::misc::string_field_copy_native(frame, jvm, "country"),
        UtilNative::BitSetInit => crate::natives::bits::bitset_init_native(frame, jvm),
        UtilNative::BitSetGet => crate::natives::bits::bitset_get_native(frame, jvm),
        UtilNative::BitSetSet => crate::natives::bits::bitset_set_native(frame, jvm),
        UtilNative::BitSetClear => crate::natives::bits::bitset_clear_native(frame, jvm),
        UtilNative::BitSetCardinality => crate::natives::bits::bitset_cardinality_native(frame, jvm),
        UtilNative::OptionalIntEmpty => crate::natives::fields::optional_number_native(frame, jvm, "java.util.OptionalInt", 0u8, false),
        UtilNative::OptionalIntOf => crate::natives::fields::optional_number_native(frame, jvm, "java.util.OptionalInt", 0u8, true),
        UtilNative::OptionalIntIsPresent => crate::natives::fields::get_field_kind_native(frame, jvm, "isPresent", 2u8),
        UtilNative::OptionalIntGetAsInt => crate::natives::fields::get_field_kind_native(frame, jvm, "value", 0u8),
        UtilNative::OptionalIntOrElse => crate::natives::fields::optional_int_or_else_native(frame, jvm),
        UtilNative::OptionalLongEmpty => crate::natives::fields::optional_number_native(frame, jvm, "java.util.OptionalLong", 1u8, false),
        UtilNative::OptionalLongOf => crate::natives::fields::optional_number_native(frame, jvm, "java.util.OptionalLong", 1u8, true),
        UtilNative::OptionalLongIsPresent => crate::natives::fields::get_field_kind_native(frame, jvm, "isPresent", 2u8),
        UtilNative::OptionalLongGetAsLong => crate::natives::fields::get_field_kind_native(frame, jvm, "value", 1u8),
        UtilNative::OptionalDoubleEmpty => crate::natives::fields::optional_number_native(frame, jvm, "java.util.OptionalDouble", 4u8, false),
        UtilNative::OptionalDoubleIsPresent => crate::natives::fields::get_field_kind_native(frame, jvm, "isPresent", 2u8),
        UtilNative::OptionalDoubleGetAsDouble => crate::natives::fields::get_field_kind_native(frame, jvm, "value", 4u8),
        UtilNative::Base64EncoderEncodeToString => crate::natives::misc::base64_encode_to_string_native(frame, jvm),
        UtilNative::Base64DecoderDecode => crate::natives::misc::base64_decode_array_native(frame, jvm),
        _ => Ok(()),
    }
}

/// What a call of `n` needs so that it runs to its end: the conditions of its native.
pub open spec fn io_pre(n: IoNative, f0: Frame, j0: Jvm) -> bool {
    match n {
        IoNative::ByteArrayInputStreamInit => true,
        IoNative::ByteArrayInputStreamRead => true,
        IoNative::ByteArrayInputStreamAvailable => true,
        IoNative::ByteArrayOutputStreamInit => true,
        IoNative::ByteArrayOutputStreamWrite => (crate::natives::streams::baos_ready(j0.hv(), f0)),
        IoNative::ByteArrayOutputStreamToByteArray => (crate::natives::streams::baos_ready(j0.hv(), f0)),
        IoNative::ByteArrayOutputStreamSize => true,
        IoNative::ByteArrayOutputStreamToString => true,
        IoNative::BufferedInputStreamInit => true,
        IoNative::BufferedInputStreamRead => true,
        IoNative::BufferedOutputStreamInit => true,
        IoNative::BufferedOutputStreamWrite => true,
        IoNative::FileInit => true,
        IoNative::FileGetPath => true,
        IoNative::FileGetName => true,
    }
}

/// What a call of `n` does: the contract of its native, from frame `f0` and machine `j0`
/// to frame `f1`, machine `j1` and result `r`.
pub open spec fn io_post(n: IoNative, f0: Frame, j0: Jvm, f1: Frame, j1: Jvm, r: Result<(), JvmError>) -> bool {
    match n {
        IoNative::ByteArrayInputStreamInit => {
            &&& crate::runtime::jvm::same_but_heap(j0, j1)
            &&& crate::natives::common::outcome(f0, j0.hv(), f1, j1.hv(), r, crate::natives::streams::stream_init(f0, j0.hv(), "buf"@, false, true))
        },
        IoNative::ByteArrayInputStreamRead => {
            &&& crate::runtime::jvm::same_but_heap(j0, j1)
            &&& crate::natives::common::outcome(f0, j0.hv(), f1, j1.hv(), r, crate::natives::streams::stream_read(f0, j0.hv(), false))
        },
        IoNative::ByteArrayInputStreamAvailable => {
            &&& j1 == j0
            &&& crate::natives::common::outcome(f0, j0.hv(), f1, j1.hv(), r, crate::natives::streams::stream_available(f0, j0.hv()))
        },
        IoNative::ByteArrayOutputStreamInit => {
            &&& crate::runtime::jvm::same_but_heap(j0, j1)
            &&& crate::natives::common::outcome(f0, j0.hv(), f1, j1.hv(), r, crate::natives::streams::baos_init(f0, j0.hv()))
        },
        IoNative::ByteArrayOutputStreamWrite => {
            &&& crate::runtime::jvm::same_but_heap(j0, j1)
            &&& crate::natives::common::outcome(f0, j0.hv(), f1, j1.hv(), r, crate::natives::streams::baos_write(f0, j0.hv()))
        },
        IoNative::ByteArrayOutputStreamToByteArray => {
            &&& crate::runtime::jvm::same_but_heap(j0, j1)
            &&& crate::natives::common::outcome(f0, j0.hv(), f1, j1.hv(), r, crate::natives::streams::baos_to_byte_array(f0, j0.hv()))
        },
        IoNative::ByteArrayOutputStreamSize => {
            &&& j1 == j0
            &&& crate::natives::common::outcome(f0, j0.hv(), f1, j1.hv(), r, crate::natives::fields::get_field_kind(f0, j0.hv(), "count"@, 0u8))
        },
        IoNative::ByteArrayOutputStreamToString => {
            &&& crate::runtime::jvm::same_but_heap(j0, j1)
            &&& crate::natives::common::outcome(f0, j0.hv(), f1, j1.hv(), r, crate::natives::streams::baos_to_string(f0, j0.hv()))
        },
        IoNative::BufferedInputStreamInit => {
            &&& crate::runtime::jvm::same_but_heap(j0, j1)
            &&& crate::natives::common::outcome(f0, j0.hv(), f1, j1.hv(), r, crate::natives::streams::stream_init(f0, j0.hv(), "in"@, true, true))
        },
        IoNative::BufferedInputStreamRead => {
            &&& crate::runtime::jvm::same_but_heap(j0, j1)
            &&& crate::natives::common::outcome(f0, j0.hv(), f1, j1.hv(), r, crate::natives::streams::stream_read(f0, j0.hv(), true))
        },
        IoNative::BufferedOutputStreamInit => {
            &&& crate::runtime::jvm::same_but_heap(j0, j1)
            &&& crate::natives::common::outcome(f0, j0.hv(), f1, j1.hv(), r, crate::natives::streams::stream_init(f0, j0.hv(), "out"@, true, false))
        },
        IoNative::BufferedOutputStreamWrite => {
            &&& j1 == j0
            &&& f1 == f0
            &&& r == Ok::<(), crate::runtime::error::JvmError>(())
        },
        IoNative::FileInit => {
            &&& crate::runtime::jvm::same_but_heap(j0, j1)
            &&& crate::natives::common::outcome(f0, j0.hv(), f1, j1.hv(), r, crate::natives::files::file_init(f0, j0.hv()))
        },
        IoNative::FileGetPath => {
            &&& crate::runtime::jvm::same_but_heap(j0, j1)
            &&& crate::natives::common::outcome(f0, j0.hv(), f1, j1.hv(), r, crate::natives::files::file_path_text(f0, j0.hv(), false))
        },
        IoNative::FileGetName => {
            &&& crate::runtime::jvm::same_but_heap(j0, j1)
            &&& crate::natives::common::outcome(f0, j0.hv(), f1, j1.hv(), r, crate::natives::files::file_path_text(f0, j0.hv(), true))
        },
    }
}

/// Tests `io_pre` at run time.
pub fn io_ready(n: IoNative, frame: &Frame, jvm: &Jvm) -> (b: bool)
    ensures
        b == io_pre(n, *frame, *jvm),
{
    match n {
        IoNative::ByteArrayInputStreamInit => true,
        IoNative::ByteArrayInputStreamRead => true,
        IoNative::ByteArrayInputStreamAvailable => true,
        IoNative::ByteArrayOutputStreamInit => true,
        IoNative::ByteArrayOutputStreamWrite => ready::baos_ready_check(jvm, frame),
        IoNative::ByteArrayOutputStreamToByteArray => ready::baos_ready_check(jvm, frame),
        IoNative::ByteArrayOutputStreamSize => true,
        IoNative::ByteArrayOutputStreamToString => true,
        IoNative::BufferedInputStreamInit => true,
        IoNative::BufferedInputStreamRead => true,
        IoNative::BufferedOutputStreamInit => true,
        IoNative::BufferedOutputStreamWrite => true,
        IoNative::FileInit => true,
        IoNative::FileGetPath => true,
        IoNative::FileGetName => true,
    }
}

/// Runs the native of `n`.
pub fn run_io(n: IoNative, frame: &mut Frame, jvm: &mut Jvm) -> (r: Result<(), JvmError>)
    requires
        old(jvm).scheduler.wf(),
        io_pre(n, *old(frame), *old(jvm)),
    ensures
        final(jvm).scheduler.wf(),
        io_post(n, *old(frame), *old(jvm), *final(frame), *final(jvm), r),
{
    match n {
        IoNative::ByteArrayInputStreamInit => crate::natives::streams::stream_init_native(frame, jvm, "buf", false, true),
        IoNative::ByteArrayInputStreamRead => crate::natives::streams::stream_read_native(frame, jvm, false),
        IoNative::ByteArrayInputStreamAvailable => crate::natives::streams::stream_available_native(frame, jvm),
        IoNative::ByteArrayOutputStreamInit => crate::natives::streams::baos_init_native(frame, jvm),
        IoNative::ByteArrayOutputStreamWrite => crate::natives::streams::baos_write_native(frame, jvm),
        IoNative::ByteArrayOutputStreamToByteArray => crate::natives::streams::baos_to_byte_array_native(frame, jvm),
        IoNative::ByteArrayOutputStreamSize => crate::natives::fields::get_field_kind_native(frame, jvm, "count", 0u8),
        IoNative::ByteArrayOutputStreamToString => crate::natives::streams::baos_to_string_native(frame, jvm),
        IoNative::BufferedInputStreamInit => crate::natives::streams::stream_init_native(frame, jvm, "in", true, true),
        IoNative::BufferedInputStreamRead => crate::natives::streams::stream_read_native(frame, jvm, true),
        IoNative::BufferedOutputStreamInit => crate::natives::streams::stream_init_native(frame, jvm, "out", true, false),
        IoNative::BufferedOutputStreamWrite => crate::natives::lang::nothing_native(frame, jvm),
        IoNative::FileInit => crate::natives::files::file_init_native(frame, jvm),
        IoNative::FileGetPath => crate::natives::files::file_path_text_native(frame, jvm, false),
        IoNative::FileGetName => crate::natives::files::file_path_text_native(frame, jvm, true),
    }
}

/// What a call of `n` needs so that it runs to its end: the conditions of its native.
pub open spec fn math_pre(n: MathNative, f0: Frame, j0: Jvm) -> bool {
    match n {
        MathNative::BigIntegerInit => true,
        MathNative::BigIntegerInitString => true,
        MathNative::BigIntegerAdd => true,
        MathNative::BigIntegerSubtract => true,
        MathNative::BigIntegerMultiply => true,
        MathNative::BigIntegerDivide => true,
        MathNative::BigIntegerToString => true,
        MathNative::BigIntegerLongValue => true,
    }
}

/// What a call of `n` does: the contract of its native, from frame `f0` and machine `j0`
/// to frame `f1`, machine `j1` and result `r`.
pub open spec fn math_post(n: MathNative, f0: Frame, j0: Jvm, f1: Frame, j1: Jvm, r: Result<(), JvmError>) -> bool {
    match n {
        MathNative::BigIntegerInit => {
            &&& crate::runtime::jvm::same_but_heap(j0, j1)
            &&& crate::natives::common::outcome(f0, j0.hv(), f1, j1.hv(), r, crate::natives::bignum::big_init(f0, j0.hv()))
        },
        MathNative::BigIntegerInitString => {
            &&& crate::runtime::jvm::same_but_heap(j0, j1)
            &&& crate::natives::common::outcome(f0, j0.hv(), f1, j1.hv(), r, crate::natives::bignum::big_init_string(f0, j0.hv()))
        },
        MathNative::BigIntegerAdd => {
            &&& crate::runtime::jvm::same_but_heap(j0, j1)
            &&& crate::natives::common::outcome(f0, j0.hv(), f1, j1.hv(), r, crate::natives::bignum::big_binary(f0, j0.hv(), 0u8))
        },
        MathNative::BigIntegerSubtract => {
            &&& crate::runtime::jvm::same_but_heap(j0, j1)
            &&& crate::natives::common::outcome(f0, j0.hv(), f1, j1.hv(), r, crate::natives::bignum::big_binary(f0, j0.hv(), 1u8))
        },
        MathNative::BigIntegerMultiply => {
            &&& crate::runtime::jvm::same_but_heap(j0, j1)
            &&& crate::natives::common::outcome(f0, j0.hv(), f1, j1.hv(), r, crate::natives::bignum::big_binary(f0, j0.hv(), 2u8))
        },
        MathNative::BigIntegerDivide => {
            &&& crate::runtime::jvm::same_but_heap(j0, j1)
            &&& crate::natives::common::outcome(f0, j0.hv(), f1, j1.hv(), r, crate::natives::bignum::big_binary(f0, j0.hv(), 3u8))
        },
        MathNative::BigIntegerToString => {
            &&& crate::runtime::jvm::same_but_heap(j0, j1)
            &&& crate::natives::common::outcome(f0, j0.hv(), f1, j1.hv(), r, crate::natives::bignum::big_to_string(f0, j0.hv()))
        },
        MathNative::BigIntegerLongValue => {
            &&& j1 == j0
            &&& crate::natives::common::outcome(f0, j0.hv(), f1, j1.hv(), r, crate::natives::bignum::big_long_value(f0, j0.hv()))
        },
    }
}

/// Tests `math_pre` at run time.
pub fn math_ready(n: MathNative, frame: &Frame, jvm: &Jvm) -> (b: bool)
    ensures
        b == math_pre(n, *frame, *jvm),
{
    match n {
        MathNative::BigIntegerInit => true,
        MathNative::BigIntegerInitString => true,
        MathNative::BigIntegerAdd => true,
        MathNative::BigIntegerSubtract => true,
        MathNative::BigIntegerMultiply => true,
        MathNative::BigIntegerDivide => true,
        MathNative::BigIntegerToString => true,
        MathNative::BigIntegerLongValue => true,
    }
}

/// Runs the native of `n`.
pub fn run_math(n: MathNative, frame: &mut Frame, jvm: &mut Jvm) -> (r: Result<(), JvmError>)
    requires
        old(jvm).scheduler.wf(),
        math_pre(n, *old(frame), *old(jvm)),
    ensures
        final(jvm).scheduler.wf(),
        math_post(n, *old(frame), *old(jvm), *final(frame), *final(jvm), r),
{
    match n {
        MathNative::BigIntegerInit => crate::natives::bignum::big_init_native(frame, jvm),
        MathNative::BigIntegerInitString => crate::natives::bignum::big_init_string_native(frame, jvm),
        MathNative::BigIntegerAdd => crate::natives::bignum::big_binary_native(frame, jvm, 0u8),
        MathNative::BigIntegerSubtract => crate::natives::bignum::big_binary_native(frame, jvm, 1u8),
        MathNative::BigIntegerMultiply => crate::natives::bignum::big_binary_native(frame, jvm, 2u8),
        MathNative::BigIntegerDivide => crate::natives::bignum::big_binary_native(frame, jvm, 3u8),
        MathNative::BigIntegerToString => crate::natives::bignum::big_to_string_native(frame, jvm),
        MathNative::BigIntegerLongValue => crate::natives::bignum::big_long_value_native(frame, jvm),
    }
}

/// What a call of `n` needs so that it runs to its end: the conditions of its native.
pub open spec fn regex_pre(n: RegexNative, f0: Frame, j0: Jvm) -> bool {
    match n {
        RegexNative::PatternCompile => true,
        RegexNative::PatternMatches => true,
        RegexNative::PatternMatcher => true,
        RegexNative::MatcherMatches => true,
        RegexNative::MatcherFind => true,
        RegexNative::MatcherGroup => true,
    }
}

/// What a call of `n` does: the contract of its native, from frame `f0` and machine `j0`
/// to frame `f1`, machine `j1` and result `r`.
pub open spec fn regex_post(n: RegexNative, f0: Frame, j0: Jvm, f1: Frame, j1: Jvm, r: Result<(), JvmError>) -> bool {
    match n {
        RegexNative::PatternCompile => {
            &&& crate::runtime::jvm::same_but_heap(j0, j1)
            &&& crate::natives::common::outcome(f0, j0.hv(), f1, j1.hv(), r, crate::natives::pattern::pattern_compile(f0, j0.hv()))
        },
        RegexNative::PatternMatches => {
            &&& j1 == j0
            &&& crate::natives::common::outcome(f0, j0.hv(), f1, j1.hv(), r, crate::natives::pattern::pattern_matches(f0, j0.hv()))
        },
        RegexNative::PatternMatcher => {
            &&& r is Err ==> crate::natives::common::failed_frame(f0, f1)
            &&& crate::runtime::jvm::same_but_heap(j0, j1)
            &&& f0.stack@.len() == 0 ==> r == Err::<(), crate::runtime::error::JvmError>(crate::runtime::frame::underflow_error()) && j1.hv() == j0.hv()
            &&& f0.stack@.len() > 0 && crate::natives::common::local_missing(f0, 0) ==> r == Err::<(), crate::runtime::error::JvmError>(crate::runtime::frame::local_error()) && j1.hv() == j0.hv()
            &&& f0.stack@.len() > 0 && !crate::natives::common::local_missing(f0, 0) ==> { &&& j1.hv() == crate::natives::pattern::pattern_matcher_heap(f0, j0.hv()) &&& match crate::natives::common::this_of(f0) { crate::runtime::value::Value::ObjectRef(id) => if id < j0.hv().len() { r == Ok::<(), crate::runtime::error::JvmError>(()) && crate::natives::common::returned(f0, f1, 1, crate::natives::lang::new_ref(j0.hv())) } else { r == Err::<(), crate::runtime::error::JvmError>(crate::natives::common::npe()) }, _ => r == Ok::<(), crate::runtime::error::JvmError>(()) && crate::natives::common::returned(f0, f1, 1, crate::natives::lang::new_ref(j0.hv())), } }
        },
        RegexNative::MatcherMatches => {
            &&& j1 == j0
            &&& crate::natives::common::outcome(f0, j0.hv(), f1, j1.hv(), r, crate::natives::pattern::matcher_matches(f0, j0.hv()))
        },
        RegexNative::MatcherFind => {
            &&& j1 == j0
            &&& crate::natives::common::outcome(f0, j0.hv(), f1, j1.hv(), r, crate::natives::pattern::matcher_matches(f0, j0.hv()))
        },
        RegexNative::MatcherGroup => {
            &&& crate::runtime::jvm::same_but_heap(j0, j1)
            &&& crate::natives::common::outcome(f0, j0.hv(), f1, j1.hv(), r, crate::natives::pattern::matcher_group(f0, j0.hv()))
        },
    }
}

/// Tests `regex_pre` at run time.
pub fn regex_ready(n: RegexNative, frame: &Frame, jvm: &Jvm) -> (b: bool)
    ensures
        b == regex_pre(n, *frame, *jvm),
{
    match n {
        RegexNative::PatternCompile => true,
        RegexNative::PatternMatches => true,
        RegexNative::PatternMatcher => true,
        RegexNative::MatcherMatches => true,
        RegexNative::MatcherFind => true,
        RegexNative::MatcherGroup => true,
    }
}

/// Runs the native of `n`.
pub fn run_regex(n: RegexNative, frame: &mut Frame, jvm: &mut Jvm) -> (r: Result<(), JvmError>)
    requires
        old(jvm).scheduler.wf(),
        regex_pre(n, *old(frame), *old(jvm)),
    ensures
        final(jvm).scheduler.wf(),
        regex_post(n, *old(frame), *old(jvm), *final(frame), *final(jvm), r),
{
    match n {
        RegexNative::PatternCompile => crate::natives::pattern::pattern_compile_native(frame, jvm),
        RegexNative::PatternMatches => crate::natives::pattern::pattern_matches_native(frame, jvm),
        RegexNative::PatternMatcher => crate::natives::pattern::pattern_matcher_native(frame, jvm),
        RegexNative::MatcherMatches => crate::natives::pattern::matcher_matches_native(frame, jvm),
        RegexNative::MatcherFind => crate::natives::pattern::matcher_matches_native(frame, jvm),
        RegexNative::MatcherGroup => crate::natives::pattern::matcher_group_native(frame, jvm),
    }
}

} // verus!
