use vstd::prelude::*;
use crate::runtime::jvm::{Jvm, only_methods_added};
use crate::runtime::method::{method_view, static_view, Method, MethodView, Native};
use crate::stdlib::host::HostNative;

verus! {

/// The native implementations this library provides for these classes.
#[derive(Clone, Copy, Debug, PartialEq, Eq, Structural)]
pub enum IoNative {
    FileInit,
    FileGetPath,
    FileGetName,
    ByteArrayInputStreamInit,
    ByteArrayInputStreamRead,
    ByteArrayInputStreamAvailable,
    ByteArrayOutputStreamInit,
    ByteArrayOutputStreamWrite,
    ByteArrayOutputStreamToByteArray,
    ByteArrayOutputStreamSize,
    ByteArrayOutputStreamToString,
    BufferedInputStreamInit,
    BufferedInputStreamRead,
    BufferedOutputStreamInit,
    BufferedOutputStreamWrite,
}

pub struct InputStream;

impl InputStream {
    /// The method `java.io.InputStream.read()I`.
    pub fn read() -> (m: Method)
        ensures
            m@ == method_view("java.io.InputStream"@, "read"@, "()I"@, false, None),
    {
        Method::new_native("java.io.InputStream", "read", "()I", false, None)
    }

    /// The method `java.io.InputStream.read([B)I`.
    pub fn read_bytes() -> (m: Method)
        ensures
            m@ == method_view("java.io.InputStream"@, "read"@, "([B)I"@, false, None),
    {
        Method::new_native("java.io.InputStream", "read", "([B)I", false, None)
    }

    /// The method `java.io.InputStream.read([BII)I`.
    pub fn read_bytes_offset() -> (m: Method)
        ensures
            m@ == method_view("java.io.InputStream"@, "read"@, "([BII)I"@, false, None),
    {
        Method::new_native("java.io.InputStream", "read", "([BII)I", false, None)
    }

    /// The method `java.io.InputStream.skip(J)J`.
    pub fn skip() -> (m: Method)
        ensures
            m@ == method_view("java.io.InputStream"@, "skip"@, "(J)J"@, false, None),
    {
        Method::new_native("java.io.InputStream", "skip", "(J)J", false, None)
    }

    /// The method `java.io.InputStream.available()I`.
    pub fn available() -> (m: Method)
        ensures
            m@ == method_view("java.io.InputStream"@, "available"@, "()I"@, false, None),
    {
        Method::new_native("java.io.InputStream", "available", "()I", false, None)
    }

    /// The method `java.io.InputStream.close()V`.
    pub fn close() -> (m: Method)
        ensures
            m@ == method_view("java.io.InputStream"@, "close"@, "()V"@, false, None),
    {
        Method::new_native("java.io.InputStream", "close", "()V", false, None)
    }

    /// The method `java.io.InputStream.mark(I)V`.
    pub fn mark() -> (m: Method)
        ensures
            m@ == method_view("java.io.InputStream"@, "mark"@, "(I)V"@, false, None),
    {
        Method::new_native("java.io.InputStream", "mark", "(I)V", false, None)
    }

    /// The method `java.io.InputStream.reset()V`.
    pub fn reset() -> (m: Method)
        ensures
            m@ == method_view("java.io.InputStream"@, "reset"@, "()V"@, false, None),
    {
        Method::new_native("java.io.InputStream", "reset", "()V", false, None)
    }

    /// The method `java.io.InputStream.markSupported()Z`.
    pub fn markSupported() -> (m: Method)
        ensures
            m@ == method_view("java.io.InputStream"@, "markSupported"@, "()Z"@, false, None),
    {
        Method::new_native("java.io.InputStream", "markSupported", "()Z", false, None)
    }

}

pub struct OutputStream;

impl OutputStream {
    /// The method `java.io.OutputStream.write(I)V`.
    pub fn write() -> (m: Method)
        ensures
            m@ == method_view("java.io.OutputStream"@, "write"@, "(I)V"@, false, None),
    {
        Method::new_native("java.io.OutputStream", "write", "(I)V", false, None)
    }

    /// The method `java.io.OutputStream.write([B)V`.
    pub fn write_bytes() -> (m: Method)
        ensures
            m@ == method_view("java.io.OutputStream"@, "write"@, "([B)V"@, false, None),
    {
        Method::new_native("java.io.OutputStream", "write", "([B)V", false, None)
    }

    /// The method `java.io.OutputStream.write([BII)V`.
    pub fn write_bytes_offset() -> (m: Method)
        ensures
            m@ == method_view("java.io.OutputStream"@, "write"@, "([BII)V"@, false, None),
    {
        Method::new_native("java.io.OutputStream", "write", "([BII)V", false, None)
    }

    /// The method `java.io.OutputStream.flush()V`.
    pub fn flush() -> (m: Method)
        ensures
            m@ == method_view("java.io.OutputStream"@, "flush"@, "()V"@, false, None),
    {
        Method::new_native("java.io.OutputStream", "flush", "()V", false, None)
    }

    /// The method `java.io.OutputStream.close()V`.
    pub fn close() -> (m: Method)
        ensures
            m@ == method_view("java.io.OutputStream"@, "close"@, "()V"@, false, None),
    {
        Method::new_native("java.io.OutputStream", "close", "()V", false, None)
    }

}

pub struct PrintStream;

impl PrintStream {
    /// The method `java.io.PrintStream.print(Z)V`.
    pub fn print_bool() -> (m: Method)
        ensures
            m@ == method_view("java.io.PrintStream"@, "print"@, "(Z)V"@, false, None),
    {
        Method::new_native("java.io.PrintStream", "print", "(Z)V", false, None)
    }

    /// The method `java.io.PrintStream.print(C)V`.
    pub fn print_char() -> (m: Method)
        ensures
            m@ == method_view("java.io.PrintStream"@, "print"@, "(C)V"@, false, None),
    {
        Method::new_native("java.io.PrintStream", "print", "(C)V", false, None)
    }

    /// The method `java.io.PrintStream.print(I)V`.
    pub fn print_int() -> (m: Method)
        ensures
            m@ == method_view("java.io.PrintStream"@, "print"@, "(I)V"@, false, None),
    {
        Method::new_native("java.io.PrintStream", "print", "(I)V", false, None)
    }

    /// The method `java.io.PrintStream.print(J)V`.
    pub fn print_long() -> (m: Method)
        ensures
            m@ == method_view("java.io.PrintStream"@, "print"@, "(J)V"@, false, None),
    {
        Method::new_native("java.io.PrintStream", "print", "(J)V", false, None)
    }

    /// The method `java.io.PrintStream.print(F)V`.
    pub fn print_float() -> (m: Method)
        ensures
            m@ == method_view("java.io.PrintStream"@, "print"@, "(F)V"@, false, None),
    {
        Method::new_native("java.io.PrintStream", "print", "(F)V", false, None)
    }

    /// The method `java.io.PrintStream.print(D)V`.
    pub fn print_double() -> (m: Method)
        ensures
            m@ == method_view("java.io.PrintStream"@, "print"@, "(D)V"@, false, None),
    {
        Method::new_native("java.io.PrintStream", "print", "(D)V", false, None)
    }

    /// The method `java.io.PrintStream.print([C)V`.
    pub fn print_char_array() -> (m: Method)
        ensures
            m@ == method_view("java.io.PrintStream"@, "print"@, "([C)V"@, false, None),
    {
        Method::new_native("java.io.PrintStream", "print", "([C)V", false, None)
    }

    /// The method `java.io.PrintStream.print(Ljava/lang/String;)V`.
    pub fn print_string() -> (m: Method)
        ensures
            m@ == method_view("java.io.PrintStream"@, "print"@, "(Ljava/lang/String;)V"@, false, Some(Native::Host(HostNative::PrintStreamPrintString))),
    {
        Method::new_native("java.io.PrintStream", "print", "(Ljava/lang/String;)V", false, Some(Native::Host(HostNative::PrintStreamPrintString)))
    }

    /// The method `java.io.PrintStream.print(Ljava/lang/Object;)V`.
    pub fn print_object() -> (m: Method)
        ensures
            m@ == method_view("java.io.PrintStream"@, "print"@, "(Ljava/lang/Object;)V"@, false, None),
    {
        Method::new_native("java.io.PrintStream", "print", "(Ljava/lang/Object;)V", false, None)
    }

    /// The method `java.io.PrintStream.println(Z)V`.
    pub fn println_bool() -> (m: Method)
        ensures
            m@ == method_view("java.io.PrintStream"@, "println"@, "(Z)V"@, false, None),
    {
        Method::new_native("java.io.PrintStream", "println", "(Z)V", false, None)
    }

    /// The method `java.io.PrintStream.println(C)V`.
    pub fn println_char() -> (m: Method)
        ensures
            m@ == method_view("java.io.PrintStream"@, "println"@, "(C)V"@, false, None),
    {
        Method::new_native("java.io.PrintStream", "println", "(C)V", false, None)
    }

    /// The method `java.io.PrintStream.println(I)V`.
    pub fn println_int() -> (m: Method)
        ensures
            m@ == method_view("java.io.PrintStream"@, "println"@, "(I)V"@, false, None),
    {
        Method::new_native("java.io.PrintStream", "println", "(I)V", false, None)
    }

    /// The method `java.io.PrintStream.println(J)V`.
    pub fn println_long() -> (m: Method)
        ensures
            m@ == method_view("java.io.PrintStream"@, "println"@, "(J)V"@, false, None),
    {
        Method::new_native("java.io.PrintStream", "println", "(J)V", false, None)
    }

    /// The method `java.io.PrintStream.println(F)V`.
    pub fn println_float() -> (m: Method)
        ensures
            m@ == method_view("java.io.PrintStream"@, "println"@, "(F)V"@, false, None),
    {
        Method::new_native("java.io.PrintStream", "println", "(F)V", false, None)
    }

    /// The method `java.io.PrintStream.println(D)V`.
    pub fn println_double() -> (m: Method)
        ensures
            m@ == method_view("java.io.PrintStream"@, "println"@, "(D)V"@, false, None),
    {
        Method::new_native("java.io.PrintStream", "println", "(D)V", false, None)
    }

    /// The method `java.io.PrintStream.println([C)V`.
    pub fn println_char_array() -> (m: Method)
        ensures
            m@ == method_view("java.io.PrintStream"@, "println"@, "([C)V"@, false, None),
    {
        Method::new_native("java.io.PrintStream", "println", "([C)V", false, None)
    }

    /// The method `java.io.PrintStream.println(Ljava/lang/String;)V`.
    pub fn println_string() -> (m: Method)
        ensures
            m@ == method_view("java.io.PrintStream"@, "println"@, "(Ljava/lang/String;)V"@, false, Some(Native::Host(HostNative::PrintStreamPrintlnString))),
    {
        Method::new_native("java.io.PrintStream", "println", "(Ljava/lang/String;)V", false, Some(Native::Host(HostNative::PrintStreamPrintlnString)))
    }

    /// The method `java.io.PrintStream.println(Ljava/lang/Object;)V`.
    pub fn println_object() -> (m: Method)
        ensures
            m@ == method_view("java.io.PrintStream"@, "println"@, "(Ljava/lang/Object;)V"@, false, None),
    {
        Method::new_native("java.io.PrintStream", "println", "(Ljava/lang/Object;)V", false, None)
    }

    /// The method `java.io.PrintStream.println()V`.
    pub fn println() -> (m: Method)
        ensures
            m@ == method_view("java.io.PrintStream"@, "println"@, "()V"@, false, Some(Native::Host(HostNative::PrintStreamPrintln))),
    {
        Method::new_native("java.io.PrintStream", "println", "()V", false, Some(Native::Host(HostNative::PrintStreamPrintln)))
    }

    /// The method `java.io.PrintStream.printf(Ljava/lang/String;[Ljava/lang/Object;)Ljava/io/PrintStream;`.
    pub fn printf() -> (m: Method)
        ensures
            m@ == method_view("java.io.PrintStream"@, "printf"@, "(Ljava/lang/String;[Ljava/lang/Object;)Ljava/io/PrintStream;"@, false, None),
    {
        Method::new_native("java.io.PrintStream", "printf", "(Ljava/lang/String;[Ljava/lang/Object;)Ljava/io/PrintStream;", false, None)
    }

    /// The method `java.io.PrintStream.format(Ljava/lang/String;[Ljava/lang/Object;)Ljava/io/PrintStream;`.
    pub fn format() -> (m: Method)
        ensures
            m@ == method_view("java.io.PrintStream"@, "format"@, "(Ljava/lang/String;[Ljava/lang/Object;)Ljava/io/PrintStream;"@, false, None),
    {
        Method::new_native("java.io.PrintStream", "format", "(Ljava/lang/String;[Ljava/lang/Object;)Ljava/io/PrintStream;", false, None)
    }

    /// The method `java.io.PrintStream.flush()V`.
    pub fn flush() -> (m: Method)
        ensures
            m@ == method_view("java.io.PrintStream"@, "flush"@, "()V"@, false, None),
    {
        Method::new_native("java.io.PrintStream", "flush", "()V", false, None)
    }

    /// The method `java.io.PrintStream.close()V`.
    pub fn close() -> (m: Method)
        ensures
            m@ == method_view("java.io.PrintStream"@, "close"@, "()V"@, false, None),
    {
        Method::new_native("java.io.PrintStream", "close", "()V", false, None)
    }

    /// What `register` adds to the method area, in order.
    pub open spec fn registered() -> Seq<(Seq<char>, MethodView)> {
        seq![
            ("java.io.PrintStream"@, method_view("java.io.PrintStream"@, "print"@, "(Z)V"@, false, None)),
            ("java.io.PrintStream"@, method_view("java.io.PrintStream"@, "print"@, "(C)V"@, false, None)),
            ("java.io.PrintStream"@, method_view("java.io.PrintStream"@, "print"@, "(I)V"@, false, None)),
            ("java.io.PrintStream"@, method_view("java.io.PrintStream"@, "print"@, "(J)V"@, false, None)),
            ("java.io.PrintStream"@, method_view("java.io.PrintStream"@, "print"@, "(F)V"@, false, None)),
            ("java.io.PrintStream"@, method_view("java.io.PrintStream"@, "print"@, "(D)V"@, false, None)),
            ("java.io.PrintStream"@, method_view("java.io.PrintStream"@, "print"@, "([C)V"@, false, None)),
            ("java.io.PrintStream"@, method_view("java.io.PrintStream"@, "print"@, "(Ljava/lang/String;)V"@, false, Some(Native::Host(HostNative::PrintStreamPrintString)))),
            ("java.io.PrintStream"@, method_view("java.io.PrintStream"@, "print"@, "(Ljava/lang/Object;)V"@, false, None)),
            ("java.io.PrintStream"@, method_view("java.io.PrintStream"@, "println"@, "(Z)V"@, false, None)),
            ("java.io.PrintStream"@, method_view("java.io.PrintStream"@, "println"@, "(C)V"@, false, None)),
            ("java.io.PrintStream"@, method_view("java.io.PrintStream"@, "println"@, "(I)V"@, false, None)),
            ("java.io.PrintStream"@, method_view("java.io.PrintStream"@, "println"@, "(J)V"@, false, None)),
            ("java.io.PrintStream"@, method_view("java.io.PrintStream"@, "println"@, "(F)V"@, false, None)),
            ("java.io.PrintStream"@, method_view("java.io.PrintStream"@, "println"@, "(D)V"@, false, None)),
            ("java.io.PrintStream"@, method_view("java.io.PrintStream"@, "println"@, "([C)V"@, false, None)),
            ("java.io.PrintStream"@, method_view("java.io.PrintStream"@, "println"@, "(Ljava/lang/String;)V"@, false, Some(Native::Host(HostNative::PrintStreamPrintlnString)))),
            ("java.io.PrintStream"@, method_view("java.io.PrintStream"@, "println"@, "(Ljava/lang/Object;)V"@, false, None)),
            ("java.io.PrintStream"@, method_view("java.io.PrintStream"@, "println"@, "()V"@, false, Some(Native::Host(HostNative::PrintStreamPrintln)))),
            ("java.io.PrintStream"@, method_view("java.io.PrintStream"@, "printf"@, "(Ljava/lang/String;[Ljava/lang/Object;)Ljava/io/PrintStream;"@, false, None)),
            ("java.io.PrintStream"@, method_view("java.io.PrintStream"@, "format"@, "(Ljava/lang/String;[Ljava/lang/Object;)Ljava/io/PrintStream;"@, false, None)),
            ("java.io.PrintStream"@, method_view("java.io.PrintStream"@, "flush"@, "()V"@, false, None)),
            ("java.io.PrintStream"@, method_view("java.io.PrintStream"@, "close"@, "()V"@, false, None)),
        ]
    }

    pub fn register(jvm: &mut Jvm)
        ensures
            only_methods_added(*old(jvm), *final(jvm), Self::registered()),
    {
        jvm.method_area.add_native_method("java.io.PrintStream", PrintStream::print_bool());
        jvm.method_area.add_native_method("java.io.PrintStream", PrintStream::print_char());
        jvm.method_area.add_native_method("java.io.PrintStream", PrintStream::print_int());
        jvm.method_area.add_native_method("java.io.PrintStream", PrintStream::print_long());
        jvm.method_area.add_native_method("java.io.PrintStream", PrintStream::print_float());
        jvm.method_area.add_native_method("java.io.PrintStream", PrintStream::print_double());
        jvm.method_area.add_native_method("java.io.PrintStream", PrintStream::print_char_array());
        jvm.method_area.add_native_method("java.io.PrintStream", PrintStream::print_string());
        jvm.method_area.add_native_method("java.io.PrintStream", PrintStream::print_object());
        jvm.method_area.add_native_method("java.io.PrintStream", PrintStream::println_bool());
        jvm.method_area.add_native_method("java.io.PrintStream", PrintStream::println_char());
        jvm.method_area.add_native_method("java.io.PrintStream", PrintStream::println_int());
        jvm.method_area.add_native_method("java.io.PrintStream", PrintStream::println_long());
        jvm.method_area.add_native_method("java.io.PrintStream", PrintStream::println_float());
        jvm.method_area.add_native_method("java.io.PrintStream", PrintStream::println_double());
        jvm.method_area.add_native_method("java.io.PrintStream", PrintStream::println_char_array());
        jvm.method_area.add_native_method("java.io.PrintStream", PrintStream::println_string());
        jvm.method_area.add_native_method("java.io.PrintStream", PrintStream::println_object());
        jvm.method_area.add_native_method("java.io.PrintStream", PrintStream::println());
        jvm.method_area.add_native_method("java.io.PrintStream", PrintStream::printf());
        jvm.method_area.add_native_method("java.io.PrintStream", PrintStream::format());
        jvm.method_area.add_native_method("java.io.PrintStream", PrintStream::flush());
        jvm.method_area.add_native_method("java.io.PrintStream", PrintStream::close());
        assert(jvm.method_area@ =~= old(jvm).method_area@ + Self::registered());
    }
}

pub struct FileInputStream;

impl FileInputStream {
    /// The method `java.io.FileInputStream.<init>(Ljava/lang/String;)V`.
    pub fn init() -> (m: Method)
        ensures
            m@ == method_view("java.io.FileInputStream"@, "<init>"@, "(Ljava/lang/String;)V"@, false, Some(Native::Host(HostNative::FileInputStreamInit))),
    {
        Method::new_native("java.io.FileInputStream", "<init>", "(Ljava/lang/String;)V", false, Some(Native::Host(HostNative::FileInputStreamInit)))
    }

    /// The method `java.io.FileInputStream.read()I`.
    pub fn read() -> (m: Method)
        ensures
            m@ == method_view("java.io.FileInputStream"@, "read"@, "()I"@, false, Some(Native::Host(HostNative::FileInputStreamRead))),
    {
        Method::new_native("java.io.FileInputStream", "read", "()I", false, Some(Native::Host(HostNative::FileInputStreamRead)))
    }

    /// The method `java.io.FileInputStream.read([B)I`.
    pub fn read_bytes() -> (m: Method)
        ensures
            m@ == method_view("java.io.FileInputStream"@, "read"@, "([B)I"@, false, Some(Native::Host(HostNative::FileInputStreamReadBytes))),
    {
        Method::new_native("java.io.FileInputStream", "read", "([B)I", false, Some(Native::Host(HostNative::FileInputStreamReadBytes)))
    }

    /// The method `java.io.FileInputStream.close()V`.
    pub fn close() -> (m: Method)
        ensures
            m@ == method_view("java.io.FileInputStream"@, "close"@, "()V"@, false, Some(Native::Host(HostNative::FileInputStreamClose))),
    {
        Method::new_native("java.io.FileInputStream", "close", "()V", false, Some(Native::Host(HostNative::FileInputStreamClose)))
    }

    /// What `register` adds to the method area, in order.
    pub open spec fn registered() -> Seq<(Seq<char>, MethodView)> {
        seq![
            ("java.io.FileInputStream"@, method_view("java.io.FileInputStream"@, "<init>"@, "(Ljava/lang/String;)V"@, false, Some(Native::Host(HostNative::FileInputStreamInit)))),
            ("java.io.FileInputStream"@, method_view("java.io.FileInputStream"@, "read"@, "()I"@, false, Some(Native::Host(HostNative::FileInputStreamRead)))),
            ("java.io.FileInputStream"@, method_view("java.io.FileInputStream"@, "read"@, "([B)I"@, false, Some(Native::Host(HostNative::FileInputStreamReadBytes)))),
            ("java.io.FileInputStream"@, method_view("java.io.FileInputStream"@, "close"@, "()V"@, false, Some(Native::Host(HostNative::FileInputStreamClose)))),
        ]
    }

    pub fn register(jvm: &mut Jvm)
        ensures
            only_methods_added(*old(jvm), *final(jvm), Self::registered()),
    {
        jvm.method_area.add_native_method("java.io.FileInputStream", FileInputStream::init());
        jvm.method_area.add_native_method("java.io.FileInputStream", FileInputStream::read());
        jvm.method_area.add_native_method("java.io.FileInputStream", FileInputStream::read_bytes());
        jvm.method_area.add_native_method("java.io.FileInputStream", FileInputStream::close());
        assert(jvm.method_area@ =~= old(jvm).method_area@ + Self::registered());
    }
}

pub struct FileOutputStream;

impl FileOutputStream {
    /// The method `java.io.FileOutputStream.<init>(Ljava/lang/String;)V`.
    pub fn init() -> (m: Method)
        ensures
            m@ == method_view("java.io.FileOutputStream"@, "<init>"@, "(Ljava/lang/String;)V"@, false, Some(Native::Host(HostNative::FileOutputStreamInit))),
    {
        Method::new_native("java.io.FileOutputStream", "<init>", "(Ljava/lang/String;)V", false, Some(Native::Host(HostNative::FileOutputStreamInit)))
    }

    /// The method `java.io.FileOutputStream.write(I)V`.
    pub fn write() -> (m: Method)
        ensures
            m@ == method_view("java.io.FileOutputStream"@, "write"@, "(I)V"@, false, Some(Native::Host(HostNative::FileOutputStreamWrite))),
    {
        Method::new_native("java.io.FileOutputStream", "write", "(I)V", false, Some(Native::Host(HostNative::FileOutputStreamWrite)))
    }

    /// The method `java.io.FileOutputStream.write([B)V`.
    pub fn write_bytes() -> (m: Method)
        ensures
            m@ == method_view("java.io.FileOutputStream"@, "write"@, "([B)V"@, false, Some(Native::Host(HostNative::FileOutputStreamWriteBytes))),
    {
        Method::new_native("java.io.FileOutputStream", "write", "([B)V", false, Some(Native::Host(HostNative::FileOutputStreamWriteBytes)))
    }

    /// The method `java.io.FileOutputStream.close()V`.
    pub fn close() -> (m: Method)
        ensures
            m@ == method_view("java.io.FileOutputStream"@, "close"@, "()V"@, false, Some(Native::Host(HostNative::FileOutputStreamClose))),
    {
        Method::new_native("java.io.FileOutputStream", "close", "()V", false, Some(Native::Host(HostNative::FileOutputStreamClose)))
    }

    /// What `register` adds to the method area, in order.
    pub open spec fn registered() -> Seq<(Seq<char>, MethodView)> {
        seq![
            ("java.io.FileOutputStream"@, method_view("java.io.FileOutputStream"@, "<init>"@, "(Ljava/lang/String;)V"@, false, Some(Native::Host(HostNative::FileOutputStreamInit)))),
            ("java.io.FileOutputStream"@, method_view("java.io.FileOutputStream"@, "write"@, "(I)V"@, false, Some(Native::Host(HostNative::FileOutputStreamWrite)))),
            ("java.io.FileOutputStream"@, method_view("java.io.FileOutputStream"@, "write"@, "([B)V"@, false, Some(Native::Host(HostNative::FileOutputStreamWriteBytes)))),
            ("java.io.FileOutputStream"@, method_view("java.io.FileOutputStream"@, "close"@, "()V"@, false, Some(Native::Host(HostNative::FileOutputStreamClose)))),
        ]
    }

    pub fn register(jvm: &mut Jvm)
        ensures
            only_methods_added(*old(jvm), *final(jvm), Self::registered()),
    {
        jvm.method_area.add_native_method("java.io.FileOutputStream", FileOutputStream::init());
        jvm.method_area.add_native_method("java.io.FileOutputStream", FileOutputStream::write());
        jvm.method_area.add_native_method("java.io.FileOutputStream", FileOutputStream::write_bytes());
        jvm.method_area.add_native_method("java.io.FileOutputStream", FileOutputStream::close());
        assert(jvm.method_area@ =~= old(jvm).method_area@ + Self::registered());
    }
}

pub struct File_;

impl File_ {
    /// The method `java.io.File.<init>(Ljava/lang/String;)V`.
    pub fn init() -> (m: Method)
        ensures
            m@ == method_view("java.io.File"@, "<init>"@, "(Ljava/lang/String;)V"@, false, Some(Native::Io(IoNative::FileInit))),
    {
        Method::new_native("java.io.File", "<init>", "(Ljava/lang/String;)V", false, Some(Native::Io(IoNative::FileInit)))
    }

    /// The method `java.io.File.getPath()Ljava/lang/String;`.
    pub fn getPath() -> (m: Method)
        ensures
            m@ == method_view("java.io.File"@, "getPath"@, "()Ljava/lang/String;"@, false, Some(Native::Io(IoNative::FileGetPath))),
    {
        Method::new_native("java.io.File", "getPath", "()Ljava/lang/String;", false, Some(Native::Io(IoNative::FileGetPath)))
    }

    /// The method `java.io.File.exists()Z`.
    pub fn file_exists() -> (m: Method)
        ensures
            m@ == method_view("java.io.File"@, "exists"@, "()Z"@, false, Some(Native::Host(HostNative::FileExists))),
    {
        Method::new_native("java.io.File", "exists", "()Z", false, Some(Native::Host(HostNative::FileExists)))
    }

    /// The method `java.io.File.isFile()Z`.
    pub fn isFile() -> (m: Method)
        ensures
            m@ == method_view("java.io.File"@, "isFile"@, "()Z"@, false, Some(Native::Host(HostNative::FileIsFile))),
    {
        Method::new_native("java.io.File", "isFile", "()Z", false, Some(Native::Host(HostNative::FileIsFile)))
    }

    /// The method `java.io.File.isDirectory()Z`.
    pub fn isDirectory() -> (m: Method)
        ensures
            m@ == method_view("java.io.File"@, "isDirectory"@, "()Z"@, false, Some(Native::Host(HostNative::FileIsDirectory))),
    {
        Method::new_native("java.io.File", "isDirectory", "()Z", false, Some(Native::Host(HostNative::FileIsDirectory)))
    }

    /// The method `java.io.File.length()J`.
    pub fn length() -> (m: Method)
        ensures
            m@ == method_view("java.io.File"@, "length"@, "()J"@, false, Some(Native::Host(HostNative::FileLength))),
    {
        Method::new_native("java.io.File", "length", "()J", false, Some(Native::Host(HostNative::FileLength)))
    }

    /// The method `java.io.File.getName()Ljava/lang/String;`.
    pub fn getName() -> (m: Method)
        ensures
            m@ == method_view("java.io.File"@, "getName"@, "()Ljava/lang/String;"@, false, Some(Native::Io(IoNative::FileGetName))),
    {
        Method::new_native("java.io.File", "getName", "()Ljava/lang/String;", false, Some(Native::Io(IoNative::FileGetName)))
    }

    /// What `register` adds to the method area, in order.
    pub open spec fn registered() -> Seq<(Seq<char>, MethodView)> {
        seq![
            ("java.io.File"@, method_view("java.io.File"@, "<init>"@, "(Ljava/lang/String;)V"@, false, Some(Native::Io(IoNative::FileInit)))),
            ("java.io.File"@, method_view("java.io.File"@, "getPath"@, "()Ljava/lang/String;"@, false, Some(Native::Io(IoNative::FileGetPath)))),
            ("java.io.File"@, method_view("java.io.File"@, "exists"@, "()Z"@, false, Some(Native::Host(HostNative::FileExists)))),
            ("java.io.File"@, method_view("java.io.File"@, "isFile"@, "()Z"@, false, Some(Native::Host(HostNative::FileIsFile)))),
            ("java.io.File"@, method_view("java.io.File"@, "isDirectory"@, "()Z"@, false, Some(Native::Host(HostNative::FileIsDirectory)))),
            ("java.io.File"@, method_view("java.io.File"@, "length"@, "()J"@, false, Some(Native::Host(HostNative::FileLength)))),
            ("java.io.File"@, method_view("java.io.File"@, "getName"@, "()Ljava/lang/String;"@, false, Some(Native::Io(IoNative::FileGetName)))),
        ]
    }

    pub fn register(jvm: &mut Jvm)
        ensures
            only_methods_added(*old(jvm), *final(jvm), Self::registered()),
    {
        jvm.method_area.add_native_method("java.io.File", File_::init());
        jvm.method_area.add_native_method("java.io.File", File_::getPath());
        jvm.method_area.add_native_method("java.io.File", File_::file_exists());
        jvm.method_area.add_native_method("java.io.File", File_::isFile());
        jvm.method_area.add_native_method("java.io.File", File_::isDirectory());
        jvm.method_area.add_native_method("java.io.File", File_::length());
        jvm.method_area.add_native_method("java.io.File", File_::getName());
        assert(jvm.method_area@ =~= old(jvm).method_area@ + Self::registered());
    }
}

pub struct ByteArrayInputStream;

impl ByteArrayInputStream {
    /// The method `java.io.ByteArrayInputStream.<init>([B)V`.
    pub fn init() -> (m: Method)
        ensures
            m@ == method_view("java.io.ByteArrayInputStream"@, "<init>"@, "([B)V"@, false, Some(Native::Io(IoNative::ByteArrayInputStreamInit))),
    {
        Method::new_native("java.io.ByteArrayInputStream", "<init>", "([B)V", false, Some(Native::Io(IoNative::ByteArrayInputStreamInit)))
    }

    /// The method `java.io.ByteArrayInputStream.read()I`.
    pub fn read() -> (m: Method)
        ensures
            m@ == method_view("java.io.ByteArrayInputStream"@, "read"@, "()I"@, false, Some(Native::Io(IoNative::ByteArrayInputStreamRead))),
    {
        Method::new_native("java.io.ByteArrayInputStream", "read", "()I", false, Some(Native::Io(IoNative::ByteArrayInputStreamRead)))
    }

    /// The method `java.io.ByteArrayInputStream.available()I`.
    pub fn available() -> (m: Method)
        ensures
            m@ == method_view("java.io.ByteArrayInputStream"@, "available"@, "()I"@, false, Some(Native::Io(IoNative::ByteArrayInputStreamAvailable))),
    {
        Method::new_native("java.io.ByteArrayInputStream", "available", "()I", false, Some(Native::Io(IoNative::ByteArrayInputStreamAvailable)))
    }

    /// What `register` adds to the method area, in order.
    pub open spec fn registered() -> Seq<(Seq<char>, MethodView)> {
        seq![
            ("java.io.ByteArrayInputStream"@, method_view("java.io.ByteArrayInputStream"@, "<init>"@, "([B)V"@, false, Some(Native::Io(IoNative::ByteArrayInputStreamInit)))),
            ("java.io.ByteArrayInputStream"@, method_view("java.io.ByteArrayInputStream"@, "read"@, "()I"@, false, Some(Native::Io(IoNative::ByteArrayInputStreamRead)))),
            ("java.io.ByteArrayInputStream"@, method_view("java.io.ByteArrayInputStream"@, "available"@, "()I"@, false, Some(Native::Io(IoNative::ByteArrayInputStreamAvailable)))),
        ]
    }

    pub fn register(jvm: &mut Jvm)
        ensures
            only_methods_added(*old(jvm), *final(jvm), Self::registered()),
    {
        jvm.method_area.add_native_method("java.io.ByteArrayInputStream", ByteArrayInputStream::init());
        jvm.method_area.add_native_method("java.io.ByteArrayInputStream", ByteArrayInputStream::read());
        jvm.method_area.add_native_method("java.io.ByteArrayInputStream", ByteArrayInputStream::available());
        assert(jvm.method_area@ =~= old(jvm).method_area@ + Self::registered());
    }
}

pub struct ByteArrayOutputStream;

impl ByteArrayOutputStream {
    /// The method `java.io.ByteArrayOutputStream.<init>()V`.
    pub fn init() -> (m: Method)
        ensures
            m@ == method_view("java.io.ByteArrayOutputStream"@, "<init>"@, "()V"@, false, Some(Native::Io(IoNative::ByteArrayOutputStreamInit))),
    {
        Method::new_native("java.io.ByteArrayOutputStream", "<init>", "()V", false, Some(Native::Io(IoNative::ByteArrayOutputStreamInit)))
    }

    /// The method `java.io.ByteArrayOutputStream.write(I)V`.
    pub fn write() -> (m: Method)
        ensures
            m@ == method_view("java.io.ByteArrayOutputStream"@, "write"@, "(I)V"@, false, Some(Native::Io(IoNative::ByteArrayOutputStreamWrite))),
    {
        Method::new_native("java.io.ByteArrayOutputStream", "write", "(I)V", false, Some(Native::Io(IoNative::ByteArrayOutputStreamWrite)))
    }

    /// The method `java.io.ByteArrayOutputStream.toByteArray()[B`.
    pub fn toByteArray() -> (m: Method)
        ensures
            m@ == method_view("java.io.ByteArrayOutputStream"@, "toByteArray"@, "()[B"@, false, Some(Native::Io(IoNative::ByteArrayOutputStreamToByteArray))),
    {
        Method::new_native("java.io.ByteArrayOutputStream", "toByteArray", "()[B", false, Some(Native::Io(IoNative::ByteArrayOutputStreamToByteArray)))
    }

    /// The method `java.io.ByteArrayOutputStream.size()I`.
    pub fn size() -> (m: Method)
        ensures
            m@ == method_view("java.io.ByteArrayOutputStream"@, "size"@, "()I"@, false, Some(Native::Io(IoNative::ByteArrayOutputStreamSize))),
    {
        Method::new_native("java.io.ByteArrayOutputStream", "size", "()I", false, Some(Native::Io(IoNative::ByteArrayOutputStreamSize)))
    }

    /// The method `java.io.ByteArrayOutputStream.toString()Ljava/lang/String;`.
    pub fn toString() -> (m: Method)
        ensures
            m@ == method_view("java.io.ByteArrayOutputStream"@, "toString"@, "()Ljava/lang/String;"@, false, Some(Native::Io(IoNative::ByteArrayOutputStreamToString))),
    {
        Method::new_native("java.io.ByteArrayOutputStream", "toString", "()Ljava/lang/String;", false, Some(Native::Io(IoNative::ByteArrayOutputStreamToString)))
    }

    /// What `register` adds to the method area, in order.
    pub open spec fn registered() -> Seq<(Seq<char>, MethodView)> {
        seq![
            ("java.io.ByteArrayOutputStream"@, method_view("java.io.ByteArrayOutputStream"@, "<init>"@, "()V"@, false, Some(Native::Io(IoNative::ByteArrayOutputStreamInit)))),
            ("java.io.ByteArrayOutputStream"@, method_view("java.io.ByteArrayOutputStream"@, "write"@, "(I)V"@, false, Some(Native::Io(IoNative::ByteArrayOutputStreamWrite)))),
            ("java.io.ByteArrayOutputStream"@, method_view("java.io.ByteArrayOutputStream"@, "toByteArray"@, "()[B"@, false, Some(Native::Io(IoNative::ByteArrayOutputStreamToByteArray)))),
            ("java.io.ByteArrayOutputStream"@, method_view("java.io.ByteArrayOutputStream"@, "size"@, "()I"@, false, Some(Native::Io(IoNative::ByteArrayOutputStreamSize)))),
            ("java.io.ByteArrayOutputStream"@, method_view("java.io.ByteArrayOutputStream"@, "toString"@, "()Ljava/lang/String;"@, false, Some(Native::Io(IoNative::ByteArrayOutputStreamToString)))),
        ]
    }

    pub fn register(jvm: &mut Jvm)
        ensures
            only_methods_added(*old(jvm), *final(jvm), Self::registered()),
    {
        jvm.method_area.add_native_method("java.io.ByteArrayOutputStream", ByteArrayOutputStream::init());
        jvm.method_area.add_native_method("java.io.ByteArrayOutputStream", ByteArrayOutputStream::write());
        jvm.method_area.add_native_method("java.io.ByteArrayOutputStream", ByteArrayOutputStream::toByteArray());
        jvm.method_area.add_native_method("java.io.ByteArrayOutputStream", ByteArrayOutputStream::size());
        jvm.method_area.add_native_method("java.io.ByteArrayOutputStream", ByteArrayOutputStream::toString());
        assert(jvm.method_area@ =~= old(jvm).method_area@ + Self::registered());
    }
}

pub struct BufferedInputStream;

impl BufferedInputStream {
    /// The method `java.io.BufferedInputStream.<init>(Ljava/io/InputStream;)V`.
    pub fn init() -> (m: Method)
        ensures
            m@ == method_view("java.io.BufferedInputStream"@, "<init>"@, "(Ljava/io/InputStream;)V"@, false, Some(Native::Io(IoNative::BufferedInputStreamInit))),
    {
        Method::new_native("java.io.BufferedInputStream", "<init>", "(Ljava/io/InputStream;)V", false, Some(Native::Io(IoNative::BufferedInputStreamInit)))
    }

    /// The method `java.io.BufferedInputStream.read()I`.
    pub fn read() -> (m: Method)
        ensures
            m@ == method_view("java.io.BufferedInputStream"@, "read"@, "()I"@, false, Some(Native::Io(IoNative::BufferedInputStreamRead))),
    {
        Method::new_native("java.io.BufferedInputStream", "read", "()I", false, Some(Native::Io(IoNative::BufferedInputStreamRead)))
    }

    /// The method `java.io.BufferedInputStream.close()V`.
    pub fn close() -> (m: Method)
        ensures
            m@ == method_view("java.io.BufferedInputStream"@, "close"@, "()V"@, false, None),
    {
        Method::new_native("java.io.BufferedInputStream", "close", "()V", false, None)
    }

    /// What `register` adds to the method area, in order.
    pub open spec fn registered() -> Seq<(Seq<char>, MethodView)> {
        seq![
            ("java.io.BufferedInputStream"@, method_view("java.io.BufferedInputStream"@, "<init>"@, "(Ljava/io/InputStream;)V"@, false, Some(Native::Io(IoNative::BufferedInputStreamInit)))),
            ("java.io.BufferedInputStream"@, method_view("java.io.BufferedInputStream"@, "read"@, "()I"@, false, Some(Native::Io(IoNative::BufferedInputStreamRead)))),
            ("java.io.BufferedInputStream"@, method_view("java.io.BufferedInputStream"@, "close"@, "()V"@, false, None)),
        ]
    }

    pub fn register(jvm: &mut Jvm)
        ensures
            only_methods_added(*old(jvm), *final(jvm), Self::registered()),
    {
        jvm.method_area.add_native_method("java.io.BufferedInputStream", BufferedInputStream::init());
        jvm.method_area.add_native_method("java.io.BufferedInputStream", BufferedInputStream::read());
        jvm.method_area.add_native_method("java.io.BufferedInputStream", BufferedInputStream::close());
        assert(jvm.method_area@ =~= old(jvm).method_area@ + Self::registered());
    }
}

pub struct BufferedOutputStream;

impl BufferedOutputStream {
    /// The method `java.io.BufferedOutputStream.<init>(Ljava/io/OutputStream;)V`.
    pub fn init() -> (m: Method)
        ensures
            m@ == method_view("java.io.BufferedOutputStream"@, "<init>"@, "(Ljava/io/OutputStream;)V"@, false, Some(Native::Io(IoNative::BufferedOutputStreamInit))),
    {
        Method::new_native("java.io.BufferedOutputStream", "<init>", "(Ljava/io/OutputStream;)V", false, Some(Native::Io(IoNative::BufferedOutputStreamInit)))
    }

    /// The method `java.io.BufferedOutputStream.write(I)V`.
    pub fn write() -> (m: Method)
        ensures
            m@ == method_view("java.io.BufferedOutputStream"@, "write"@, "(I)V"@, false, Some(Native::Io(IoNative::BufferedOutputStreamWrite))),
    {
        Method::new_native("java.io.BufferedOutputStream", "write", "(I)V", false, Some(Native::Io(IoNative::BufferedOutputStreamWrite)))
    }

    /// The method `java.io.BufferedOutputStream.flush()V`.
    pub fn flush() -> (m: Method)
        ensures
            m@ == method_view("java.io.BufferedOutputStream"@, "flush"@, "()V"@, false, None),
    {
        Method::new_native("java.io.BufferedOutputStream", "flush", "()V", false, None)
    }

    /// The method `java.io.BufferedOutputStream.close()V`.
    pub fn close() -> (m: Method)
        ensures
            m@ == method_view("java.io.BufferedOutputStream"@, "close"@, "()V"@, false, None),
    {
        Method::new_native("java.io.BufferedOutputStream", "close", "()V", false, None)
    }

    /// What `register` adds to the method area, in order.
    pub open spec fn registered() -> Seq<(Seq<char>, MethodView)> {
        seq![
            ("java.io.BufferedOutputStream"@, method_view("java.io.BufferedOutputStream"@, "<init>"@, "(Ljava/io/OutputStream;)V"@, false, Some(Native::Io(IoNative::BufferedOutputStreamInit)))),
            ("java.io.BufferedOutputStream"@, method_view("java.io.BufferedOutputStream"@, "write"@, "(I)V"@, false, Some(Native::Io(IoNative::BufferedOutputStreamWrite)))),
            ("java.io.BufferedOutputStream"@, method_view("java.io.BufferedOutputStream"@, "flush"@, "()V"@, false, None)),
            ("java.io.BufferedOutputStream"@, method_view("java.io.BufferedOutputStream"@, "close"@, "()V"@, false, None)),
        ]
    }

    pub fn register(jvm: &mut Jvm)
        ensures
            only_methods_added(*old(jvm), *final(jvm), Self::registered()),
    {
        jvm.method_area.add_native_method("java.io.BufferedOutputStream", BufferedOutputStream::init());
        jvm.method_area.add_native_method("java.io.BufferedOutputStream", BufferedOutputStream::write());
        jvm.method_area.add_native_method("java.io.BufferedOutputStream", BufferedOutputStream::flush());
        jvm.method_area.add_native_method("java.io.BufferedOutputStream", BufferedOutputStream::close());
        assert(jvm.method_area@ =~= old(jvm).method_area@ + Self::registered());
    }
}

pub struct PrintWriter;

impl PrintWriter {
    /// The method `java.io.PrintWriter.<init>(Ljava/io/OutputStream;)V`.
    pub fn init() -> (m: Method)
        ensures
            m@ == method_view("java.io.PrintWriter"@, "<init>"@, "(Ljava/io/OutputStream;)V"@, false, None),
    {
        Method::new_native("java.io.PrintWriter", "<init>", "(Ljava/io/OutputStream;)V", false, None)
    }

    /// The method `java.io.PrintWriter.print(Ljava/lang/String;)V`.
    pub fn print() -> (m: Method)
        ensures
            m@ == method_view("java.io.PrintWriter"@, "print"@, "(Ljava/lang/String;)V"@, false, None),
    {
        Method::new_native("java.io.PrintWriter", "print", "(Ljava/lang/String;)V", false, None)
    }

    /// The method `java.io.PrintWriter.print(I)V`.
    pub fn print_int() -> (m: Method)
        ensures
            m@ == method_view("java.io.PrintWriter"@, "print"@, "(I)V"@, false, None),
    {
        Method::new_native("java.io.PrintWriter", "print", "(I)V", false, None)
    }

    /// The method `java.io.PrintWriter.println(Ljava/lang/String;)V`.
    pub fn println() -> (m: Method)
        ensures
            m@ == method_view("java.io.PrintWriter"@, "println"@, "(Ljava/lang/String;)V"@, false, None),
    {
        Method::new_native("java.io.PrintWriter", "println", "(Ljava/lang/String;)V", false, None)
    }

    /// The method `java.io.PrintWriter.println()V`.
    pub fn println_empty() -> (m: Method)
        ensures
            m@ == method_view("java.io.PrintWriter"@, "println"@, "()V"@, false, None),
    {
        Method::new_native("java.io.PrintWriter", "println", "()V", false, None)
    }

    /// The method `java.io.PrintWriter.write(Ljava/lang/String;)V`.
    pub fn write() -> (m: Method)
        ensures
            m@ == method_view("java.io.PrintWriter"@, "write"@, "(Ljava/lang/String;)V"@, false, None),
    {
        Method::new_native("java.io.PrintWriter", "write", "(Ljava/lang/String;)V", false, None)
    }

    /// The method `java.io.PrintWriter.flush()V`.
    pub fn flush() -> (m: Method)
        ensures
            m@ == method_view("java.io.PrintWriter"@, "flush"@, "()V"@, false, None),
    {
        Method::new_native("java.io.PrintWriter", "flush", "()V", false, None)
    }

    /// The method `java.io.PrintWriter.close()V`.
    pub fn close() -> (m: Method)
        ensures
            m@ == method_view("java.io.PrintWriter"@, "close"@, "()V"@, false, None),
    {
        Method::new_native("java.io.PrintWriter", "close", "()V", false, None)
    }

    /// What `register` adds to the method area, in order.
    pub open spec fn registered() -> Seq<(Seq<char>, MethodView)> {
        seq![
            ("java.io.PrintWriter"@, method_view("java.io.PrintWriter"@, "<init>"@, "(Ljava/io/OutputStream;)V"@, false, None)),
            ("java.io.PrintWriter"@, method_view("java.io.PrintWriter"@, "print"@, "(Ljava/lang/String;)V"@, false, None)),
            ("java.io.PrintWriter"@, method_view("java.io.PrintWriter"@, "print"@, "(I)V"@, false, None)),
            ("java.io.PrintWriter"@, method_view("java.io.PrintWriter"@, "println"@, "(Ljava/lang/String;)V"@, false, None)),
            ("java.io.PrintWriter"@, method_view("java.io.PrintWriter"@, "println"@, "()V"@, false, None)),
            ("java.io.PrintWriter"@, method_view("java.io.PrintWriter"@, "write"@, "(Ljava/lang/String;)V"@, false, None)),
            ("java.io.PrintWriter"@, method_view("java.io.PrintWriter"@, "flush"@, "()V"@, false, None)),
            ("java.io.PrintWriter"@, method_view("java.io.PrintWriter"@, "close"@, "()V"@, false, None)),
        ]
    }

    pub fn register(jvm: &mut Jvm)
        ensures
            only_methods_added(*old(jvm), *final(jvm), Self::registered()),
    {
        jvm.method_area.add_native_method("java.io.PrintWriter", PrintWriter::init());
        jvm.method_area.add_native_method("java.io.PrintWriter", PrintWriter::print());
        jvm.method_area.add_native_method("java.io.PrintWriter", PrintWriter::print_int());
        jvm.method_area.add_native_method("java.io.PrintWriter", PrintWriter::println());
        jvm.method_area.add_native_method("java.io.PrintWriter", PrintWriter::println_empty());
        jvm.method_area.add_native_method("java.io.PrintWriter", PrintWriter::write());
        jvm.method_area.add_native_method("java.io.PrintWriter", PrintWriter::flush());
        jvm.method_area.add_native_method("java.io.PrintWriter", PrintWriter::close());
        assert(jvm.method_area@ =~= old(jvm).method_area@ + Self::registered());
    }
}

pub struct BufferedReader;

impl BufferedReader {
    /// The method `java.io.BufferedReader.<init>(Ljava/io/Reader;)V`.
    pub fn init() -> (m: Method)
        ensures
            m@ == method_view("java.io.BufferedReader"@, "<init>"@, "(Ljava/io/Reader;)V"@, false, None),
    {
        Method::new_native("java.io.BufferedReader", "<init>", "(Ljava/io/Reader;)V", false, None)
    }

    /// The method `java.io.BufferedReader.<init>(Ljava/io/Reader;I)V`.
    pub fn init_size() -> (m: Method)
        ensures
            m@ == method_view("java.io.BufferedReader"@, "<init>"@, "(Ljava/io/Reader;I)V"@, false, None),
    {
        Method::new_native("java.io.BufferedReader", "<init>", "(Ljava/io/Reader;I)V", false, None)
    }

    /// The method `java.io.BufferedReader.read()I`.
    pub fn read() -> (m: Method)
        ensures
            m@ == method_view("java.io.BufferedReader"@, "read"@, "()I"@, false, None),
    {
        Method::new_native("java.io.BufferedReader", "read", "()I", false, None)
    }

    /// The method `java.io.BufferedReader.readLine()Ljava/lang/String;`.
    pub fn readLine() -> (m: Method)
        ensures
            m@ == method_view("java.io.BufferedReader"@, "readLine"@, "()Ljava/lang/String;"@, false, None),
    {
        Method::new_native("java.io.BufferedReader", "readLine", "()Ljava/lang/String;", false, None)
    }

    /// The method `java.io.BufferedReader.close()V`.
    pub fn close() -> (m: Method)
        ensures
            m@ == method_view("java.io.BufferedReader"@, "close"@, "()V"@, false, None),
    {
        Method::new_native("java.io.BufferedReader", "close", "()V", false, None)
    }

    /// What `register` adds to the method area, in order.
    pub open spec fn registered() -> Seq<(Seq<char>, MethodView)> {
        seq![
            ("java.io.BufferedReader"@, method_view("java.io.BufferedReader"@, "<init>"@, "(Ljava/io/Reader;)V"@, false, None)),
            ("java.io.BufferedReader"@, method_view("java.io.BufferedReader"@, "<init>"@, "(Ljava/io/Reader;I)V"@, false, None)),
            ("java.io.BufferedReader"@, method_view("java.io.BufferedReader"@, "read"@, "()I"@, false, None)),
            ("java.io.BufferedReader"@, method_view("java.io.BufferedReader"@, "readLine"@, "()Ljava/lang/String;"@, false, None)),
            ("java.io.BufferedReader"@, method_view("java.io.BufferedReader"@, "close"@, "()V"@, false, None)),
        ]
    }

    pub fn register(jvm: &mut Jvm)
        ensures
            only_methods_added(*old(jvm), *final(jvm), Self::registered()),
    {
        jvm.method_area.add_native_method("java.io.BufferedReader", BufferedReader::init());
        jvm.method_area.add_native_method("java.io.BufferedReader", BufferedReader::init_size());
        jvm.method_area.add_native_method("java.io.BufferedReader", BufferedReader::read());
        jvm.method_area.add_native_method("java.io.BufferedReader", BufferedReader::readLine());
        jvm.method_area.add_native_method("java.io.BufferedReader", BufferedReader::close());
        assert(jvm.method_area@ =~= old(jvm).method_area@ + Self::registered());
    }
}

pub struct BufferedWriter;

impl BufferedWriter {
    /// The method `java.io.BufferedWriter.<init>(Ljava/io/Writer;)V`.
    pub fn init() -> (m: Method)
        ensures
            m@ == method_view("java.io.BufferedWriter"@, "<init>"@, "(Ljava/io/Writer;)V"@, false, None),
    {
        Method::new_native("java.io.BufferedWriter", "<init>", "(Ljava/io/Writer;)V", false, None)
    }

    /// The method `java.io.BufferedWriter.<init>(Ljava/io/Writer;I)V`.
    pub fn init_size() -> (m: Method)
        ensures
            m@ == method_view("java.io.BufferedWriter"@, "<init>"@, "(Ljava/io/Writer;I)V"@, false, None),
    {
        Method::new_native("java.io.BufferedWriter", "<init>", "(Ljava/io/Writer;I)V", false, None)
    }

    /// The method `java.io.BufferedWriter.write(Ljava/lang/String;)V`.
    pub fn write() -> (m: Method)
        ensures
            m@ == method_view("java.io.BufferedWriter"@, "write"@, "(Ljava/lang/String;)V"@, false, None),
    {
        Method::new_native("java.io.BufferedWriter", "write", "(Ljava/lang/String;)V", false, None)
    }

    /// The method `java.io.BufferedWriter.write(I)V`.
    pub fn write_int() -> (m: Method)
        ensures
            m@ == method_view("java.io.BufferedWriter"@, "write"@, "(I)V"@, false, None),
    {
        Method::new_native("java.io.BufferedWriter", "write", "(I)V", false, None)
    }

    /// The method `java.io.BufferedWriter.newLine()V`.
    pub fn newLine() -> (m: Method)
        ensures
            m@ == method_view("java.io.BufferedWriter"@, "newLine"@, "()V"@, false, None),
    {
        Method::new_native("java.io.BufferedWriter", "newLine", "()V", false, None)
    }

    /// The method `java.io.BufferedWriter.flush()V`.
    pub fn flush() -> (m: Method)
        ensures
            m@ == method_view("java.io.BufferedWriter"@, "flush"@, "()V"@, false, None),
    {
        Method::new_native("java.io.BufferedWriter", "flush", "()V", false, None)
    }

    /// The method `java.io.BufferedWriter.close()V`.
    pub fn close() -> (m: Method)
        ensures
            m@ == method_view("java.io.BufferedWriter"@, "close"@, "()V"@, false, None),
    {
        Method::new_native("java.io.BufferedWriter", "close", "()V", false, None)
    }

    /// What `register` adds to the method area, in order.
    pub open spec fn registered() -> Seq<(Seq<char>, MethodView)> {
        seq![
            ("java.io.BufferedWriter"@, method_view("java.io.BufferedWriter"@, "<init>"@, "(Ljava/io/Writer;)V"@, false, None)),
            ("java.io.BufferedWriter"@, method_view("java.io.BufferedWriter"@, "<init>"@, "(Ljava/io/Writer;I)V"@, false, None)),
            ("java.io.BufferedWriter"@, method_view("java.io.BufferedWriter"@, "write"@, "(Ljava/lang/String;)V"@, false, None)),
            ("java.io.BufferedWriter"@, method_view("java.io.BufferedWriter"@, "write"@, "(I)V"@, false, None)),
            ("java.io.BufferedWriter"@, method_view("java.io.BufferedWriter"@, "newLine"@, "()V"@, false, None)),
            ("java.io.BufferedWriter"@, method_view("java.io.BufferedWriter"@, "flush"@, "()V"@, false, None)),
            ("java.io.BufferedWriter"@, method_view("java.io.BufferedWriter"@, "close"@, "()V"@, false, None)),
        ]
    }

    pub fn register(jvm: &mut Jvm)
        ensures
            only_methods_added(*old(jvm), *final(jvm), Self::registered()),
    {
        jvm.method_area.add_native_method("java.io.BufferedWriter", BufferedWriter::init());
        jvm.method_area.add_native_method("java.io.BufferedWriter", BufferedWriter::init_size());
        jvm.method_area.add_native_method("java.io.BufferedWriter", BufferedWriter::write());
        jvm.method_area.add_native_method("java.io.BufferedWriter", BufferedWriter::write_int());
        jvm.method_area.add_native_method("java.io.BufferedWriter", BufferedWriter::newLine());
        jvm.method_area.add_native_method("java.io.BufferedWriter", BufferedWriter::flush());
        jvm.method_area.add_native_method("java.io.BufferedWriter", BufferedWriter::close());
        assert(jvm.method_area@ =~= old(jvm).method_area@ + Self::registered());
    }
}

pub struct InputStreamReader;

impl InputStreamReader {
    /// The method `java.io.InputStreamReader.<init>(Ljava/io/InputStream;)V`.
    pub fn init() -> (m: Method)
        ensures
            m@ == method_view("java.io.InputStreamReader"@, "<init>"@, "(Ljava/io/InputStream;)V"@, false, None),
    {
        Method::new_native("java.io.InputStreamReader", "<init>", "(Ljava/io/InputStream;)V", false, None)
    }

    /// The method `java.io.InputStreamReader.read()I`.
    pub fn read() -> (m: Method)
        ensures
            m@ == method_view("java.io.InputStreamReader"@, "read"@, "()I"@, false, None),
    {
        Method::new_native("java.io.InputStreamReader", "read", "()I", false, None)
    }

    /// The method `java.io.InputStreamReader.close()V`.
    pub fn close() -> (m: Method)
        ensures
            m@ == method_view("java.io.InputStreamReader"@, "close"@, "()V"@, false, None),
    {
        Method::new_native("java.io.InputStreamReader", "close", "()V", false, None)
    }

    /// What `register` adds to the method area, in order.
    pub open spec fn registered() -> Seq<(Seq<char>, MethodView)> {
        seq![
            ("java.io.InputStreamReader"@, method_view("java.io.InputStreamReader"@, "<init>"@, "(Ljava/io/InputStream;)V"@, false, None)),
            ("java.io.InputStreamReader"@, method_view("java.io.InputStreamReader"@, "read"@, "()I"@, false, None)),
            ("java.io.InputStreamReader"@, method_view("java.io.InputStreamReader"@, "close"@, "()V"@, false, None)),
        ]
    }

    pub fn register(jvm: &mut Jvm)
        ensures
            only_methods_added(*old(jvm), *final(jvm), Self::registered()),
    {
        jvm.method_area.add_native_method("java.io.InputStreamReader", InputStreamReader::init());
        jvm.method_area.add_native_method("java.io.InputStreamReader", InputStreamReader::read());
        jvm.method_area.add_native_method("java.io.InputStreamReader", InputStreamReader::close());
        assert(jvm.method_area@ =~= old(jvm).method_area@ + Self::registered());
    }
}

pub struct OutputStreamWriter;

impl OutputStreamWriter {
    /// The method `java.io.OutputStreamWriter.<init>(Ljava/io/OutputStream;)V`.
    pub fn init() -> (m: Method)
        ensures
            m@ == method_view("java.io.OutputStreamWriter"@, "<init>"@, "(Ljava/io/OutputStream;)V"@, false, None),
    {
        Method::new_native("java.io.OutputStreamWriter", "<init>", "(Ljava/io/OutputStream;)V", false, None)
    }

    /// The method `java.io.OutputStreamWriter.write(Ljava/lang/String;)V`.
    pub fn write() -> (m: Method)
        ensures
            m@ == method_view("java.io.OutputStreamWriter"@, "write"@, "(Ljava/lang/String;)V"@, false, None),
    {
        Method::new_native("java.io.OutputStreamWriter", "write", "(Ljava/lang/String;)V", false, None)
    }

    /// The method `java.io.OutputStreamWriter.flush()V`.
    pub fn flush() -> (m: Method)
        ensures
            m@ == method_view("java.io.OutputStreamWriter"@, "flush"@, "()V"@, false, None),
    {
        Method::new_native("java.io.OutputStreamWriter", "flush", "()V", false, None)
    }

    /// The method `java.io.OutputStreamWriter.close()V`.
    pub fn close() -> (m: Method)
        ensures
            m@ == method_view("java.io.OutputStreamWriter"@, "close"@, "()V"@, false, None),
    {
        Method::new_native("java.io.OutputStreamWriter", "close", "()V", false, None)
    }

    /// What `register` adds to the method area, in order.
    pub open spec fn registered() -> Seq<(Seq<char>, MethodView)> {
        seq![
            ("java.io.OutputStreamWriter"@, method_view("java.io.OutputStreamWriter"@, "<init>"@, "(Ljava/io/OutputStream;)V"@, false, None)),
            ("java.io.OutputStreamWriter"@, method_view("java.io.OutputStreamWriter"@, "write"@, "(Ljava/lang/String;)V"@, false, None)),
            ("java.io.OutputStreamWriter"@, method_view("java.io.OutputStreamWriter"@, "flush"@, "()V"@, false, None)),
            ("java.io.OutputStreamWriter"@, method_view("java.io.OutputStreamWriter"@, "close"@, "()V"@, false, None)),
        ]
    }

    pub fn register(jvm: &mut Jvm)
        ensures
            only_methods_added(*old(jvm), *final(jvm), Self::registered()),
    {
        jvm.method_area.add_native_method("java.io.OutputStreamWriter", OutputStreamWriter::init());
        jvm.method_area.add_native_method("java.io.OutputStreamWriter", OutputStreamWriter::write());
        jvm.method_area.add_native_method("java.io.OutputStreamWriter", OutputStreamWriter::flush());
        jvm.method_area.add_native_method("java.io.OutputStreamWriter", OutputStreamWriter::close());
        assert(jvm.method_area@ =~= old(jvm).method_area@ + Self::registered());
    }
}

pub struct Reader;

impl Reader {
    /// The method `java.io.Reader.read()I`.
    pub fn read() -> (m: Method)
        ensures
            m@ == method_view("java.io.Reader"@, "read"@, "()I"@, false, None),
    {
        Method::new_native("java.io.Reader", "read", "()I", false, None)
    }

    /// The method `java.io.Reader.read([C)I`.
    pub fn read_chars() -> (m: Method)
        ensures
            m@ == method_view("java.io.Reader"@, "read"@, "([C)I"@, false, None),
    {
        Method::new_native("java.io.Reader", "read", "([C)I", false, None)
    }

    /// The method `java.io.Reader.close()V`.
    pub fn close() -> (m: Method)
        ensures
            m@ == method_view("java.io.Reader"@, "close"@, "()V"@, false, None),
    {
        Method::new_native("java.io.Reader", "close", "()V", false, None)
    }

    /// What `register` adds to the method area, in order.
    pub open spec fn registered() -> Seq<(Seq<char>, MethodView)> {
        seq![
            ("java.io.Reader"@, method_view("java.io.Reader"@, "read"@, "()I"@, false, None)),
            ("java.io.Reader"@, method_view("java.io.Reader"@, "read"@, "([C)I"@, false, None)),
            ("java.io.Reader"@, method_view("java.io.Reader"@, "close"@, "()V"@, false, None)),
        ]
    }

    pub fn register(jvm: &mut Jvm)
        ensures
            only_methods_added(*old(jvm), *final(jvm), Self::registered()),
    {
        jvm.method_area.add_native_method("java.io.Reader", Reader::read());
        jvm.method_area.add_native_method("java.io.Reader", Reader::read_chars());
        jvm.method_area.add_native_method("java.io.Reader", Reader::close());
        assert(jvm.method_area@ =~= old(jvm).method_area@ + Self::registered());
    }
}

pub struct Writer;

impl Writer {
    /// The method `java.io.Writer.write(Ljava/lang/String;)V`.
    pub fn write() -> (m: Method)
        ensures
            m@ == method_view("java.io.Writer"@, "write"@, "(Ljava/lang/String;)V"@, false, None),
    {
        Method::new_native("java.io.Writer", "write", "(Ljava/lang/String;)V", false, None)
    }

    /// The method `java.io.Writer.write(I)V`.
    pub fn write_int() -> (m: Method)
        ensures
            m@ == method_view("java.io.Writer"@, "write"@, "(I)V"@, false, None),
    {
        Method::new_native("java.io.Writer", "write", "(I)V", false, None)
    }

    /// The method `java.io.Writer.flush()V`.
    pub fn flush() -> (m: Method)
        ensures
            m@ == method_view("java.io.Writer"@, "flush"@, "()V"@, false, None),
    {
        Method::new_native("java.io.Writer", "flush", "()V", false, None)
    }

    /// The method `java.io.Writer.close()V`.
    pub fn close() -> (m: Method)
        ensures
            m@ == method_view("java.io.Writer"@, "close"@, "()V"@, false, None),
    {
        Method::new_native("java.io.Writer", "close", "()V", false, None)
    }

    /// What `register` adds to the method area, in order.
    pub open spec fn registered() -> Seq<(Seq<char>, MethodView)> {
        seq![
            ("java.io.Writer"@, method_view("java.io.Writer"@, "write"@, "(Ljava/lang/String;)V"@, false, None)),
            ("java.io.Writer"@, method_view("java.io.Writer"@, "write"@, "(I)V"@, false, None)),
            ("java.io.Writer"@, method_view("java.io.Writer"@, "flush"@, "()V"@, false, None)),
            ("java.io.Writer"@, method_view("java.io.Writer"@, "close"@, "()V"@, false, None)),
        ]
    }

    pub fn register(jvm: &mut Jvm)
        ensures
            only_methods_added(*old(jvm), *final(jvm), Self::registered()),
    {
        jvm.method_area.add_native_method("java.io.Writer", Writer::write());
        jvm.method_area.add_native_method("java.io.Writer", Writer::write_int());
        jvm.method_area.add_native_method("java.io.Writer", Writer::flush());
        jvm.method_area.add_native_method("java.io.Writer", Writer::close());
        assert(jvm.method_area@ =~= old(jvm).method_area@ + Self::registered());
    }
}

pub struct StringReader;

impl StringReader {
    /// The method `java.io.StringReader.<init>(Ljava/lang/String;)V`.
    pub fn init() -> (m: Method)
        ensures
            m@ == method_view("java.io.StringReader"@, "<init>"@, "(Ljava/lang/String;)V"@, false, None),
    {
        Method::new_native("java.io.StringReader", "<init>", "(Ljava/lang/String;)V", false, None)
    }

    /// The method `java.io.StringReader.read()I`.
    pub fn read() -> (m: Method)
        ensures
            m@ == method_view("java.io.StringReader"@, "read"@, "()I"@, false, None),
    {
        Method::new_native("java.io.StringReader", "read", "()I", false, None)
    }

    /// The method `java.io.StringReader.close()V`.
    pub fn close() -> (m: Method)
        ensures
            m@ == method_view("java.io.StringReader"@, "close"@, "()V"@, false, None),
    {
        Method::new_native("java.io.StringReader", "close", "()V", false, None)
    }

    /// What `register` adds to the method area, in order.
    pub open spec fn registered() -> Seq<(Seq<char>, MethodView)> {
        seq![
            ("java.io.StringReader"@, method_view("java.io.StringReader"@, "<init>"@, "(Ljava/lang/String;)V"@, false, None)),
            ("java.io.StringReader"@, method_view("java.io.StringReader"@, "read"@, "()I"@, false, None)),
            ("java.io.StringReader"@, method_view("java.io.StringReader"@, "close"@, "()V"@, false, None)),
        ]
    }

    pub fn register(jvm: &mut Jvm)
        ensures
            only_methods_added(*old(jvm), *final(jvm), Self::registered()),
    {
        jvm.method_area.add_native_method("java.io.StringReader", StringReader::init());
        jvm.method_area.add_native_method("java.io.StringReader", StringReader::read());
        jvm.method_area.add_native_method("java.io.StringReader", StringReader::close());
        assert(jvm.method_area@ =~= old(jvm).method_area@ + Self::registered());
    }
}

pub struct StringWriter;

impl StringWriter {
    /// The method `java.io.StringWriter.<init>()V`.
    pub fn init() -> (m: Method)
        ensures
            m@ == method_view("java.io.StringWriter"@, "<init>"@, "()V"@, false, None),
    {
        Method::new_native("java.io.StringWriter", "<init>", "()V", false, None)
    }

    /// The method `java.io.StringWriter.write(Ljava/lang/String;)V`.
    pub fn write() -> (m: Method)
        ensures
            m@ == method_view("java.io.StringWriter"@, "write"@, "(Ljava/lang/String;)V"@, false, None),
    {
        Method::new_native("java.io.StringWriter", "write", "(Ljava/lang/String;)V", false, None)
    }

    /// The method `java.io.StringWriter.toString()Ljava/lang/String;`.
    pub fn toString() -> (m: Method)
        ensures
            m@ == method_view("java.io.StringWriter"@, "toString"@, "()Ljava/lang/String;"@, false, None),
    {
        Method::new_native("java.io.StringWriter", "toString", "()Ljava/lang/String;", false, None)
    }

    /// The method `java.io.StringWriter.flush()V`.
    pub fn flush() -> (m: Method)
        ensures
            m@ == method_view("java.io.StringWriter"@, "flush"@, "()V"@, false, None),
    {
        Method::new_native("java.io.StringWriter", "flush", "()V", false, None)
    }

    /// The method `java.io.StringWriter.close()V`.
    pub fn close() -> (m: Method)
        ensures
            m@ == method_view("java.io.StringWriter"@, "close"@, "()V"@, false, None),
    {
        Method::new_native("java.io.StringWriter", "close", "()V", false, None)
    }

    /// What `register` adds to the method area, in order.
    pub open spec fn registered() -> Seq<(Seq<char>, MethodView)> {
        seq![
            ("java.io.StringWriter"@, method_view("java.io.StringWriter"@, "<init>"@, "()V"@, false, None)),
            ("java.io.StringWriter"@, method_view("java.io.StringWriter"@, "write"@, "(Ljava/lang/String;)V"@, false, None)),
            ("java.io.StringWriter"@, method_view("java.io.StringWriter"@, "toString"@, "()Ljava/lang/String;"@, false, None)),
            ("java.io.StringWriter"@, method_view("java.io.StringWriter"@, "flush"@, "()V"@, false, None)),
            ("java.io.StringWriter"@, method_view("java.io.StringWriter"@, "close"@, "()V"@, false, None)),
        ]
    }

    pub fn register(jvm: &mut Jvm)
        ensures
            only_methods_added(*old(jvm), *final(jvm), Self::registered()),
    {
        jvm.method_area.add_native_method("java.io.StringWriter", StringWriter::init());
        jvm.method_area.add_native_method("java.io.StringWriter", StringWriter::write());
        jvm.method_area.add_native_method("java.io.StringWriter", StringWriter::toString());
        jvm.method_area.add_native_method("java.io.StringWriter", StringWriter::flush());
        jvm.method_area.add_native_method("java.io.StringWriter", StringWriter::close());
        assert(jvm.method_area@ =~= old(jvm).method_area@ + Self::registered());
    }
}

pub struct FilterInputStream;

impl FilterInputStream {
    /// The method `java.io.FilterInputStream.<init>(Ljava/io/InputStream;)V`.
    pub fn init() -> (m: Method)
        ensures
            m@ == method_view("java.io.FilterInputStream"@, "<init>"@, "(Ljava/io/InputStream;)V"@, false, None),
    {
        Method::new_native("java.io.FilterInputStream", "<init>", "(Ljava/io/InputStream;)V", false, None)
    }

    /// The method `java.io.FilterInputStream.read()I`.
    pub fn read() -> (m: Method)
        ensures
            m@ == method_view("java.io.FilterInputStream"@, "read"@, "()I"@, false, None),
    {
        Method::new_native("java.io.FilterInputStream", "read", "()I", false, None)
    }

    /// The method `java.io.FilterInputStream.read([B)I`.
    pub fn read_bytes() -> (m: Method)
        ensures
            m@ == method_view("java.io.FilterInputStream"@, "read"@, "([B)I"@, false, None),
    {
        Method::new_native("java.io.FilterInputStream", "read", "([B)I", false, None)
    }

    /// The method `java.io.FilterInputStream.close()V`.
    pub fn close() -> (m: Method)
        ensures
            m@ == method_view("java.io.FilterInputStream"@, "close"@, "()V"@, false, None),
    {
        Method::new_native("java.io.FilterInputStream", "close", "()V", false, None)
    }

    /// What `register` adds to the method area, in order.
    pub open spec fn registered() -> Seq<(Seq<char>, MethodView)> {
        seq![
            ("java.io.FilterInputStream"@, method_view("java.io.FilterInputStream"@, "<init>"@, "(Ljava/io/InputStream;)V"@, false, None)),
            ("java.io.FilterInputStream"@, method_view("java.io.FilterInputStream"@, "read"@, "()I"@, false, None)),
            ("java.io.FilterInputStream"@, method_view("java.io.FilterInputStream"@, "read"@, "([B)I"@, false, None)),
            ("java.io.FilterInputStream"@, method_view("java.io.FilterInputStream"@, "close"@, "()V"@, false, None)),
        ]
    }

    pub fn register(jvm: &mut Jvm)
        ensures
            only_methods_added(*old(jvm), *final(jvm), Self::registered()),
    {
        jvm.method_area.add_native_method("java.io.FilterInputStream", FilterInputStream::init());
        jvm.method_area.add_native_method("java.io.FilterInputStream", FilterInputStream::read());
        jvm.method_area.add_native_method("java.io.FilterInputStream", FilterInputStream::read_bytes());
        jvm.method_area.add_native_method("java.io.FilterInputStream", FilterInputStream::close());
        assert(jvm.method_area@ =~= old(jvm).method_area@ + Self::registered());
    }
}

pub struct FilterOutputStream;

impl FilterOutputStream {
    /// The method `java.io.FilterOutputStream.<init>(Ljava/io/OutputStream;)V`.
    pub fn init() -> (m: Method)
        ensures
            m@ == method_view("java.io.FilterOutputStream"@, "<init>"@, "(Ljava/io/OutputStream;)V"@, false, None),
    {
        Method::new_native("java.io.FilterOutputStream", "<init>", "(Ljava/io/OutputStream;)V", false, None)
    }

    /// The method `java.io.FilterOutputStream.write(I)V`.
    pub fn write() -> (m: Method)
        ensures
            m@ == method_view("java.io.FilterOutputStream"@, "write"@, "(I)V"@, false, None),
    {
        Method::new_native("java.io.FilterOutputStream", "write", "(I)V", false, None)
    }

    /// The method `java.io.FilterOutputStream.write([B)V`.
    pub fn write_bytes() -> (m: Method)
        ensures
            m@ == method_view("java.io.FilterOutputStream"@, "write"@, "([B)V"@, false, None),
    {
        Method::new_native("java.io.FilterOutputStream", "write", "([B)V", false, None)
    }

    /// The method `java.io.FilterOutputStream.flush()V`.
    pub fn flush() -> (m: Method)
        ensures
            m@ == method_view("java.io.FilterOutputStream"@, "flush"@, "()V"@, false, None),
    {
        Method::new_native("java.io.FilterOutputStream", "flush", "()V", false, None)
    }

    /// The method `java.io.FilterOutputStream.close()V`.
    pub fn close() -> (m: Method)
        ensures
            m@ == method_view("java.io.FilterOutputStream"@, "close"@, "()V"@, false, None),
    {
        Method::new_native("java.io.FilterOutputStream", "close", "()V", false, None)
    }

    /// What `register` adds to the method area, in order.
    pub open spec fn registered() -> Seq<(Seq<char>, MethodView)> {
        seq![
            ("java.io.FilterOutputStream"@, method_view("java.io.FilterOutputStream"@, "<init>"@, "(Ljava/io/OutputStream;)V"@, false, None)),
            ("java.io.FilterOutputStream"@, method_view("java.io.FilterOutputStream"@, "write"@, "(I)V"@, false, None)),
            ("java.io.FilterOutputStream"@, method_view("java.io.FilterOutputStream"@, "write"@, "([B)V"@, false, None)),
            ("java.io.FilterOutputStream"@, method_view("java.io.FilterOutputStream"@, "flush"@, "()V"@, false, None)),
            ("java.io.FilterOutputStream"@, method_view("java.io.FilterOutputStream"@, "close"@, "()V"@, false, None)),
        ]
    }

    pub fn register(jvm: &mut Jvm)
        ensures
            only_methods_added(*old(jvm), *final(jvm), Self::registered()),
    {
        jvm.method_area.add_native_method("java.io.FilterOutputStream", FilterOutputStream::init());
        jvm.method_area.add_native_method("java.io.FilterOutputStream", FilterOutputStream::write());
        jvm.method_area.add_native_method("java.io.FilterOutputStream", FilterOutputStream::write_bytes());
        jvm.method_area.add_native_method("java.io.FilterOutputStream", FilterOutputStream::flush());
        jvm.method_area.add_native_method("java.io.FilterOutputStream", FilterOutputStream::close());
        assert(jvm.method_area@ =~= old(jvm).method_area@ + Self::registered());
    }
}

pub struct DataInputStream;

impl DataInputStream {
    /// The method `java.io.DataInputStream.<init>(Ljava/io/InputStream;)V`.
    pub fn init() -> (m: Method)
        ensures
            m@ == method_view("java.io.DataInputStream"@, "<init>"@, "(Ljava/io/InputStream;)V"@, false, None),
    {
        Method::new_native("java.io.DataInputStream", "<init>", "(Ljava/io/InputStream;)V", false, None)
    }

    /// The method `java.io.DataInputStream.readInt()I`.
    pub fn readInt() -> (m: Method)
        ensures
            m@ == method_view("java.io.DataInputStream"@, "readInt"@, "()I"@, false, None),
    {
        Method::new_native("java.io.DataInputStream", "readInt", "()I", false, None)
    }

    /// The method `java.io.DataInputStream.readLong()J`.
    pub fn readLong() -> (m: Method)
        ensures
            m@ == method_view("java.io.DataInputStream"@, "readLong"@, "()J"@, false, None),
    {
        Method::new_native("java.io.DataInputStream", "readLong", "()J", false, None)
    }

    /// The method `java.io.DataInputStream.readDouble()D`.
    pub fn readDouble() -> (m: Method)
        ensures
            m@ == method_view("java.io.DataInputStream"@, "readDouble"@, "()D"@, false, None),
    {
        Method::new_native("java.io.DataInputStream", "readDouble", "()D", false, None)
    }

    /// The method `java.io.DataInputStream.readBoolean()Z`.
    pub fn readBoolean() -> (m: Method)
        ensures
            m@ == method_view("java.io.DataInputStream"@, "readBoolean"@, "()Z"@, false, None),
    {
        Method::new_native("java.io.DataInputStream", "readBoolean", "()Z", false, None)
    }

    /// The method `java.io.DataInputStream.readUTF()Ljava/lang/String;`.
    pub fn readUTF() -> (m: Method)
        ensures
            m@ == method_view("java.io.DataInputStream"@, "readUTF"@, "()Ljava/lang/String;"@, false, None),
    {
        Method::new_native("java.io.DataInputStream", "readUTF", "()Ljava/lang/String;", false, None)
    }

    /// The method `java.io.DataInputStream.close()V`.
    pub fn close() -> (m: Method)
        ensures
            m@ == method_view("java.io.DataInputStream"@, "close"@, "()V"@, false, None),
    {
        Method::new_native("java.io.DataInputStream", "close", "()V", false, None)
    }

    /// What `register` adds to the method area, in order.
    pub open spec fn registered() -> Seq<(Seq<char>, MethodView)> {
        seq![
            ("java.io.DataInputStream"@, method_view("java.io.DataInputStream"@, "<init>"@, "(Ljava/io/InputStream;)V"@, false, None)),
            ("java.io.DataInputStream"@, method_view("java.io.DataInputStream"@, "readInt"@, "()I"@, false, None)),
            ("java.io.DataInputStream"@, method_view("java.io.DataInputStream"@, "readLong"@, "()J"@, false, None)),
            ("java.io.DataInputStream"@, method_view("java.io.DataInputStream"@, "readDouble"@, "()D"@, false, None)),
            ("java.io.DataInputStream"@, method_view("java.io.DataInputStream"@, "readBoolean"@, "()Z"@, false, None)),
            ("java.io.DataInputStream"@, method_view("java.io.DataInputStream"@, "readUTF"@, "()Ljava/lang/String;"@, false, None)),
            ("java.io.DataInputStream"@, method_view("java.io.DataInputStream"@, "close"@, "()V"@, false, None)),
        ]
    }

    pub fn register(jvm: &mut Jvm)
        ensures
            only_methods_added(*old(jvm), *final(jvm), Self::registered()),
    {
        jvm.method_area.add_native_method("java.io.DataInputStream", DataInputStream::init());
        jvm.method_area.add_native_method("java.io.DataInputStream", DataInputStream::readInt());
        jvm.method_area.add_native_method("java.io.DataInputStream", DataInputStream::readLong());
        jvm.method_area.add_native_method("java.io.DataInputStream", DataInputStream::readDouble());
        jvm.method_area.add_native_method("java.io.DataInputStream", DataInputStream::readBoolean());
        jvm.method_area.add_native_method("java.io.DataInputStream", DataInputStream::readUTF());
        jvm.method_area.add_native_method("java.io.DataInputStream", DataInputStream::close());
        assert(jvm.method_area@ =~= old(jvm).method_area@ + Self::registered());
    }
}

pub struct DataOutputStream;

impl DataOutputStream {
    /// The method `java.io.DataOutputStream.<init>(Ljava/io/OutputStream;)V`.
    pub fn init() -> (m: Method)
        ensures
            m@ == method_view("java.io.DataOutputStream"@, "<init>"@, "(Ljava/io/OutputStream;)V"@, false, None),
    {
        Method::new_native("java.io.DataOutputStream", "<init>", "(Ljava/io/OutputStream;)V", false, None)
    }

    /// The method `java.io.DataOutputStream.writeInt(I)V`.
    pub fn writeInt() -> (m: Method)
        ensures
            m@ == method_view("java.io.DataOutputStream"@, "writeInt"@, "(I)V"@, false, None),
    {
        Method::new_native("java.io.DataOutputStream", "writeInt", "(I)V", false, None)
    }

    /// The method `java.io.DataOutputStream.writeLong(J)V`.
    pub fn writeLong() -> (m: Method)
        ensures
            m@ == method_view("java.io.DataOutputStream"@, "writeLong"@, "(J)V"@, false, None),
    {
        Method::new_native("java.io.DataOutputStream", "writeLong", "(J)V", false, None)
    }

    /// The method `java.io.DataOutputStream.writeDouble(D)V`.
    pub fn writeDouble() -> (m: Method)
        ensures
            m@ == method_view("java.io.DataOutputStream"@, "writeDouble"@, "(D)V"@, false, None),
    {
        Method::new_native("java.io.DataOutputStream", "writeDouble", "(D)V", false, None)
    }

    /// The method `java.io.DataOutputStream.writeBoolean(Z)V`.
    pub fn writeBoolean() -> (m: Method)
        ensures
            m@ == method_view("java.io.DataOutputStream"@, "writeBoolean"@, "(Z)V"@, false, None),
    {
        Method::new_native("java.io.DataOutputStream", "writeBoolean", "(Z)V", false, None)
    }

    /// The method `java.io.DataOutputStream.writeUTF(Ljava/lang/String;)V`.
    pub fn writeUTF() -> (m: Method)
        ensures
            m@ == method_view("java.io.DataOutputStream"@, "writeUTF"@, "(Ljava/lang/String;)V"@, false, None),
    {
        Method::new_native("java.io.DataOutputStream", "writeUTF", "(Ljava/lang/String;)V", false, None)
    }

    /// The method `java.io.DataOutputStream.flush()V`.
    pub fn flush() -> (m: Method)
        ensures
            m@ == method_view("java.io.DataOutputStream"@, "flush"@, "()V"@, false, None),
    {
        Method::new_native("java.io.DataOutputStream", "flush", "()V", false, None)
    }

    /// The method `java.io.DataOutputStream.close()V`.
    pub fn close() -> (m: Method)
        ensures
            m@ == method_view("java.io.DataOutputStream"@, "close"@, "()V"@, false, None),
    {
        Method::new_native("java.io.DataOutputStream", "close", "()V", false, None)
    }

    /// What `register` adds to the method area, in order.
    pub open spec fn registered() -> Seq<(Seq<char>, MethodView)> {
        seq![
            ("java.io.DataOutputStream"@, method_view("java.io.DataOutputStream"@, "<init>"@, "(Ljava/io/OutputStream;)V"@, false, None)),
            ("java.io.DataOutputStream"@, method_view("java.io.DataOutputStream"@, "writeInt"@, "(I)V"@, false, None)),
            ("java.io.DataOutputStream"@, method_view("java.io.DataOutputStream"@, "writeLong"@, "(J)V"@, false, None)),
            ("java.io.DataOutputStream"@, method_view("java.io.DataOutputStream"@, "writeDouble"@, "(D)V"@, false, None)),
            ("java.io.DataOutputStream"@, method_view("java.io.DataOutputStream"@, "writeBoolean"@, "(Z)V"@, false, None)),
            ("java.io.DataOutputStream"@, method_view("java.io.DataOutputStream"@, "writeUTF"@, "(Ljava/lang/String;)V"@, false, None)),
            ("java.io.DataOutputStream"@, method_view("java.io.DataOutputStream"@, "flush"@, "()V"@, false, None)),
            ("java.io.DataOutputStream"@, method_view("java.io.DataOutputStream"@, "close"@, "()V"@, false, None)),
        ]
    }

    pub fn register(jvm: &mut Jvm)
        ensures
            only_methods_added(*old(jvm), *final(jvm), Self::registered()),
    {
        jvm.method_area.add_native_method("java.io.DataOutputStream", DataOutputStream::init());
        jvm.method_area.add_native_method("java.io.DataOutputStream", DataOutputStream::writeInt());
        jvm.method_area.add_native_method("java.io.DataOutputStream", DataOutputStream::writeLong());
        jvm.method_area.add_native_method("java.io.DataOutputStream", DataOutputStream::writeDouble());
        jvm.method_area.add_native_method("java.io.DataOutputStream", DataOutputStream::writeBoolean());
        jvm.method_area.add_native_method("java.io.DataOutputStream", DataOutputStream::writeUTF());
        jvm.method_area.add_native_method("java.io.DataOutputStream", DataOutputStream::flush());
        jvm.method_area.add_native_method("java.io.DataOutputStream", DataOutputStream::close());
        assert(jvm.method_area@ =~= old(jvm).method_area@ + Self::registered());
    }
}

pub struct PushbackInputStream;

impl PushbackInputStream {
    /// The method `java.io.PushbackInputStream.<init>(Ljava/io/InputStream;)V`.
    pub fn init() -> (m: Method)
        ensures
            m@ == method_view("java.io.PushbackInputStream"@, "<init>"@, "(Ljava/io/InputStream;)V"@, false, None),
    {
        Method::new_native("java.io.PushbackInputStream", "<init>", "(Ljava/io/InputStream;)V", false, None)
    }

    /// The method `java.io.PushbackInputStream.read()I`.
    pub fn read() -> (m: Method)
        ensures
            m@ == method_view("java.io.PushbackInputStream"@, "read"@, "()I"@, false, None),
    {
        Method::new_native("java.io.PushbackInputStream", "read", "()I", false, None)
    }

    /// The method `java.io.PushbackInputStream.unread(I)V`.
    pub fn unread() -> (m: Method)
        ensures
            m@ == method_view("java.io.PushbackInputStream"@, "unread"@, "(I)V"@, false, None),
    {
        Method::new_native("java.io.PushbackInputStream", "unread", "(I)V", false, None)
    }

    /// The method `java.io.PushbackInputStream.close()V`.
    pub fn close() -> (m: Method)
        ensures
            m@ == method_view("java.io.PushbackInputStream"@, "close"@, "()V"@, false, None),
    {
        Method::new_native("java.io.PushbackInputStream", "close", "()V", false, None)
    }

    /// What `register` adds to the method area, in order.
    pub open spec fn registered() -> Seq<(Seq<char>, MethodView)> {
        seq![
            ("java.io.PushbackInputStream"@, method_view("java.io.PushbackInputStream"@, "<init>"@, "(Ljava/io/InputStream;)V"@, false, None)),
            ("java.io.PushbackInputStream"@, method_view("java.io.PushbackInputStream"@, "read"@, "()I"@, false, None)),
            ("java.io.PushbackInputStream"@, method_view("java.io.PushbackInputStream"@, "unread"@, "(I)V"@, false, None)),
            ("java.io.PushbackInputStream"@, method_view("java.io.PushbackInputStream"@, "close"@, "()V"@, false, None)),
        ]
    }

    pub fn register(jvm: &mut Jvm)
        ensures
            only_methods_added(*old(jvm), *final(jvm), Self::registered()),
    {
        jvm.method_area.add_native_method("java.io.PushbackInputStream", PushbackInputStream::init());
        jvm.method_area.add_native_method("java.io.PushbackInputStream", PushbackInputStream::read());
        jvm.method_area.add_native_method("java.io.PushbackInputStream", PushbackInputStream::unread());
        jvm.method_area.add_native_method("java.io.PushbackInputStream", PushbackInputStream::close());
        assert(jvm.method_area@ =~= old(jvm).method_area@ + Self::registered());
    }
}

pub struct PushbackReader;

impl PushbackReader {
    /// The method `java.io.PushbackReader.<init>(Ljava/io/Reader;)V`.
    pub fn init() -> (m: Method)
        ensures
            m@ == method_view("java.io.PushbackReader"@, "<init>"@, "(Ljava/io/Reader;)V"@, false, None),
    {
        Method::new_native("java.io.PushbackReader", "<init>", "(Ljava/io/Reader;)V", false, None)
    }

    /// The method `java.io.PushbackReader.read()I`.
    pub fn read() -> (m: Method)
        ensures
            m@ == method_view("java.io.PushbackReader"@, "read"@, "()I"@, false, None),
    {
        Method::new_native("java.io.PushbackReader", "read", "()I", false, None)
    }

    /// The method `java.io.PushbackReader.unread(I)V`.
    pub fn unread() -> (m: Method)
        ensures
            m@ == method_view("java.io.PushbackReader"@, "unread"@, "(I)V"@, false, None),
    {
        Method::new_native("java.io.PushbackReader", "unread", "(I)V", false, None)
    }

    /// The method `java.io.PushbackReader.close()V`.
    pub fn close() -> (m: Method)
        ensures
            m@ == method_view("java.io.PushbackReader"@, "close"@, "()V"@, false, None),
    {
        Method::new_native("java.io.PushbackReader", "close", "()V", false, None)
    }

    /// What `register` adds to the method area, in order.
    pub open spec fn registered() -> Seq<(Seq<char>, MethodView)> {
        seq![
            ("java.io.PushbackReader"@, method_view("java.io.PushbackReader"@, "<init>"@, "(Ljava/io/Reader;)V"@, false, None)),
            ("java.io.PushbackReader"@, method_view("java.io.PushbackReader"@, "read"@, "()I"@, false, None)),
            ("java.io.PushbackReader"@, method_view("java.io.PushbackReader"@, "unread"@, "(I)V"@, false, None)),
            ("java.io.PushbackReader"@, method_view("java.io.PushbackReader"@, "close"@, "()V"@, false, None)),
        ]
    }

    pub fn register(jvm: &mut Jvm)
        ensures
            only_methods_added(*old(jvm), *final(jvm), Self::registered()),
    {
        jvm.method_area.add_native_method("java.io.PushbackReader", PushbackReader::init());
        jvm.method_area.add_native_method("java.io.PushbackReader", PushbackReader::read());
        jvm.method_area.add_native_method("java.io.PushbackReader", PushbackReader::unread());
        jvm.method_area.add_native_method("java.io.PushbackReader", PushbackReader::close());
        assert(jvm.method_area@ =~= old(jvm).method_area@ + Self::registered());
    }
}

pub struct FileReader;

impl FileReader {
    /// The method `java.io.FileReader.<init>(Ljava/lang/String;)V`.
    pub fn init() -> (m: Method)
        ensures
            m@ == method_view("java.io.FileReader"@, "<init>"@, "(Ljava/lang/String;)V"@, false, None),
    {
        Method::new_native("java.io.FileReader", "<init>", "(Ljava/lang/String;)V", false, None)
    }

    /// The method `java.io.FileReader.read()I`.
    pub fn read() -> (m: Method)
        ensures
            m@ == method_view("java.io.FileReader"@, "read"@, "()I"@, false, None),
    {
        Method::new_native("java.io.FileReader", "read", "()I", false, None)
    }

    /// The method `java.io.FileReader.close()V`.
    pub fn close() -> (m: Method)
        ensures
            m@ == method_view("java.io.FileReader"@, "close"@, "()V"@, false, None),
    {
        Method::new_native("java.io.FileReader", "close", "()V", false, None)
    }

    /// What `register` adds to the method area, in order.
    pub open spec fn registered() -> Seq<(Seq<char>, MethodView)> {
        seq![
            ("java.io.FileReader"@, method_view("java.io.FileReader"@, "<init>"@, "(Ljava/lang/String;)V"@, false, None)),
            ("java.io.FileReader"@, method_view("java.io.FileReader"@, "read"@, "()I"@, false, None)),
            ("java.io.FileReader"@, method_view("java.io.FileReader"@, "close"@, "()V"@, false, None)),
        ]
    }

    pub fn register(jvm: &mut Jvm)
        ensures
            only_methods_added(*old(jvm), *final(jvm), Self::registered()),
    {
        jvm.method_area.add_native_method("java.io.FileReader", FileReader::init());
        jvm.method_area.add_native_method("java.io.FileReader", FileReader::read());
        jvm.method_area.add_native_method("java.io.FileReader", FileReader::close());
        assert(jvm.method_area@ =~= old(jvm).method_area@ + Self::registered());
    }
}

pub struct FileWriter;

impl FileWriter {
    /// The method `java.io.FileWriter.<init>(Ljava/lang/String;)V`.
    pub fn init() -> (m: Method)
        ensures
            m@ == method_view("java.io.FileWriter"@, "<init>"@, "(Ljava/lang/String;)V"@, false, None),
    {
        Method::new_native("java.io.FileWriter", "<init>", "(Ljava/lang/String;)V", false, None)
    }

    /// The method `java.io.FileWriter.write(Ljava/lang/String;)V`.
    pub fn write() -> (m: Method)
        ensures
            m@ == method_view("java.io.FileWriter"@, "write"@, "(Ljava/lang/String;)V"@, false, None),
    {
        Method::new_native("java.io.FileWriter", "write", "(Ljava/lang/String;)V", false, None)
    }

    /// The method `java.io.FileWriter.flush()V`.
    pub fn flush() -> (m: Method)
        ensures
            m@ == method_view("java.io.FileWriter"@, "flush"@, "()V"@, false, None),
    {
        Method::new_native("java.io.FileWriter", "flush", "()V", false, None)
    }

    /// The method `java.io.FileWriter.close()V`.
    pub fn close() -> (m: Method)
        ensures
            m@ == method_view("java.io.FileWriter"@, "close"@, "()V"@, false, None),
    {
        Method::new_native("java.io.FileWriter", "close", "()V", false, None)
    }

    /// What `register` adds to the method area, in order.
    pub open spec fn registered() -> Seq<(Seq<char>, MethodView)> {
        seq![
            ("java.io.FileWriter"@, method_view("java.io.FileWriter"@, "<init>"@, "(Ljava/lang/String;)V"@, false, None)),
            ("java.io.FileWriter"@, method_view("java.io.FileWriter"@, "write"@, "(Ljava/lang/String;)V"@, false, None)),
            ("java.io.FileWriter"@, method_view("java.io.FileWriter"@, "flush"@, "()V"@, false, None)),
            ("java.io.FileWriter"@, method_view("java.io.FileWriter"@, "close"@, "()V"@, false, None)),
        ]
    }

    pub fn register(jvm: &mut Jvm)
        ensures
            only_methods_added(*old(jvm), *final(jvm), Self::registered()),
    {
        jvm.method_area.add_native_method("java.io.FileWriter", FileWriter::init());
        jvm.method_area.add_native_method("java.io.FileWriter", FileWriter::write());
        jvm.method_area.add_native_method("java.io.FileWriter", FileWriter::flush());
        jvm.method_area.add_native_method("java.io.FileWriter", FileWriter::close());
        assert(jvm.method_area@ =~= old(jvm).method_area@ + Self::registered());
    }
}


/// The method area `before` with everything `register_io_classes` adds, in order.
pub open spec fn with_all_registrations(before: Seq<(Seq<char>, MethodView)>) -> Seq<(Seq<char>, MethodView)> {
    before + FileInputStream::registered() + FileOutputStream::registered() + File_::registered() + ByteArrayInputStream::registered() + ByteArrayOutputStream::registered() + BufferedInputStream::registered() + BufferedOutputStream::registered() + PrintWriter::registered() + BufferedReader::registered() + BufferedWriter::registered() + InputStreamReader::registered() + OutputStreamWriter::registered() + Reader::registered() + Writer::registered() + StringReader::registered() + StringWriter::registered() + FilterInputStream::registered() + FilterOutputStream::registered() + DataInputStream::registered() + DataOutputStream::registered() + PushbackInputStream::registered() + PushbackReader::registered() + FileReader::registered() + FileWriter::registered()
}

/// Register all IO classes with the JVM.
pub fn register_io_classes(jvm: &mut Jvm)
    ensures
        final(jvm).method_area@ == with_all_registrations(old(jvm).method_area@),
        static_view(&final(jvm).method_area) == static_view(&old(jvm).method_area),
        final(jvm).heap@ == old(jvm).heap@,
        final(jvm).scheduler == old(jvm).scheduler,
        final(jvm).thread_objects@ == old(jvm).thread_objects@,
        final(jvm).current_thread_id == old(jvm).current_thread_id,
{
    FileInputStream::register(jvm);
    FileOutputStream::register(jvm);
    File_::register(jvm);
    ByteArrayInputStream::register(jvm);
    ByteArrayOutputStream::register(jvm);
    BufferedInputStream::register(jvm);
    BufferedOutputStream::register(jvm);
    PrintWriter::register(jvm);
    BufferedReader::register(jvm);
    BufferedWriter::register(jvm);
    InputStreamReader::register(jvm);
    OutputStreamWriter::register(jvm);
    Reader::register(jvm);
    Writer::register(jvm);
    StringReader::register(jvm);
    StringWriter::register(jvm);
    FilterInputStream::register(jvm);
    FilterOutputStream::register(jvm);
    DataInputStream::register(jvm);
    DataOutputStream::register(jvm);
    PushbackInputStream::register(jvm);
    PushbackReader::register(jvm);
    FileReader::register(jvm);
    FileWriter::register(jvm);
}

} // verus!
