use vstd::prelude::*;
use crate::natives::dispatch::{
    io_post, io_pre, io_ready, lang_post, lang_pre, lang_ready, math_post, math_pre, math_ready, regex_post,
    regex_pre, regex_ready, run_io, run_lang, run_math, run_regex, run_util, util_post, util_pre, util_ready,
};
use crate::runtime::error::JvmError;
use crate::runtime::frame::Frame;
use crate::runtime::jvm::Jvm;
use crate::runtime::method::Native;
use crate::stdlib::util::UtilNative;

verus! {

/// How a native call went.
pub enum NativeCall {
    /// The native ran, with this result.
    Done(Result<(), JvmError>),
    /// The arguments are ones on which the native stops the program; nothing ran.
    Unmet,
    /// The native needs what only the embedding application has (input and output,
    /// the text of a floating-point value, an operating-system thread); nothing ran.
    External,
}

/// The natives that the embedding application runs.
pub open spec fn external(n: Native) -> bool {
    ||| n is Host
    ||| n == Native::Util(UtilNative::ArraysToString)
    ||| n == Native::Util(UtilNative::ObjectsToString)
}

/// What a library native needs so that it runs to its end.
pub open spec fn native_pre(n: Native, f0: Frame, j0: Jvm) -> bool {
    match n {
        Native::Lang(x) => lang_pre(x, f0, j0),
        Native::Util(x) => util_pre(x, f0, j0),
        Native::Io(x) => io_pre(x, f0, j0),
        Native::Math(x) => math_pre(x, f0, j0),
        Native::Regex(x) => regex_pre(x, f0, j0),
        Native::Host(_) => false,
    }
}

/// What a library native does.
pub open spec fn native_post(n: Native, f0: Frame, j0: Jvm, f1: Frame, j1: Jvm, r: Result<(), JvmError>) -> bool {
    match n {
        Native::Lang(x) => lang_post(x, f0, j0, f1, j1, r),
        Native::Util(x) => util_post(x, f0, j0, f1, j1, r),
        Native::Io(x) => io_post(x, f0, j0, f1, j1, r),
        Native::Math(x) => math_post(x, f0, j0, f1, j1, r),
        Native::Regex(x) => regex_post(x, f0, j0, f1, j1, r),
        Native::Host(_) => false,
    }
}

/// Calls native `n` on `frame`: an external native, or one whose arguments would stop
/// the program, is not run and the call says so; any other runs as its contract says.
pub fn run_native(n: Native, frame: &mut Frame, jvm: &mut Jvm) -> (c: NativeCall)
    requires
        old(jvm).scheduler.wf(),
    ensures
        final(jvm).scheduler.wf(),
        match c {
            NativeCall::Done(r) => !external(n) && native_pre(n, *old(frame), *old(jvm)) && native_post(
                n,
                *old(frame),
                *old(jvm),
                *final(frame),
                *final(jvm),
                r,
            ),
            NativeCall::Unmet => !external(n) && !native_pre(n, *old(frame), *old(jvm)) && *final(frame)
                == *old(frame) && *final(jvm) == *old(jvm),
            NativeCall::External => external(n) && *final(frame) == *old(frame) && *final(jvm) == *old(jvm),
        },
{
    match n {
        Native::Lang(x) => {
            if !lang_ready(x, frame, jvm) {
                return NativeCall::Unmet;
            }
            NativeCall::Done(run_lang(x, frame, jvm))
        },
        Native::Util(x) => {
            if x == UtilNative::ArraysToString || x == UtilNative::ObjectsToString {
                return NativeCall::External;
            }
            if !util_ready(x, frame, jvm) {
                return NativeCall::Unmet;
            }
            NativeCall::Done(run_util(x, frame, jvm))
        },
        Native::Io(x) => {
            if !io_ready(x, frame, jvm) {
                return NativeCall::Unmet;
            }
            NativeCall::Done(run_io(x, frame, jvm))
        },
        Native::Math(x) => {
            if !math_ready(x, frame, jvm) {
                return NativeCall::Unmet;
            }
            NativeCall::Done(run_math(x, frame, jvm))
        },
        Native::Regex(x) => {
            if !regex_ready(x, frame, jvm) {
                return NativeCall::Unmet;
            }
            NativeCall::Done(run_regex(x, frame, jvm))
        },
        Native::Host(_) => NativeCall::External,
    }
}

} // verus!
