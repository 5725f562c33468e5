use vstd::prelude::*;

verus! {

/// Native methods whose work the embedding application does: console and file
/// I/O, floating-point text and arithmetic, and operating-system threads.
#[derive(Clone, Copy, Debug, PartialEq, Eq, Structural)]
pub enum HostNative {
    StringValueOfFloat,
    StringValueOfDouble,
    StringFormat,
    ThreadStart,
    ThrowablePrintStackTrace,
    StringBuilderAppendDouble,
    DoubleParseDouble,
    DoubleValueOf,
    DoubleToString,
    MathSqrt,
    MathPow,
    FloatParseFloat,
    FloatToString,
    RandomNextDouble,
    PropertiesLoad,
    ScannerNextDouble,
    OptionalDoubleOf,
    PrintStreamPrintString,
    PrintStreamPrintlnString,
    PrintStreamPrintln,
    FileInputStreamInit,
    FileInputStreamRead,
    FileInputStreamReadBytes,
    FileInputStreamClose,
    FileOutputStreamInit,
    FileOutputStreamWrite,
    FileOutputStreamWriteBytes,
    FileOutputStreamClose,
    FileExists,
    FileIsFile,
    FileIsDirectory,
    FileLength,
    BigDecimalInit,
    BigDecimalInitString,
    BigDecimalAdd,
    BigDecimalMultiply,
    BigDecimalToString,
    BigDecimalDoubleValue,
}

} // verus!
