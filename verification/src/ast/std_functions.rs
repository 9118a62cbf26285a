//! The functions that XACML defines.

use crate::ast::function::{
    inputs_view, Function, FunctionInputArg, FunctionInputs, FunctionOutputArg, FunctionView,
    InputView, OutputView,
};
use crate::ast::{QualifiedName, SYSTEM_NS};
use crate::context::lemma_dotted_injective;
use crate::resolver::registrable;
use crate::text::{dotted, join, path_view};
use vstd::prelude::*;
use vstd::string::*;

verus! {

/// The rows 0 to 31 of the table of the built-in functions.
pub open spec fn function_row_1(i: int) -> FunctionView {
    if i == 0 {
        FunctionView {
            id: "stringEqual"@,
            uri: "urn:oasis:names:tc:xacml:1.0:function:string-equal"@,
            ns: seq![SYSTEM_NS@],
            args: seq![InputView::Atomic("string"@), InputView::Atomic("string"@)],
            wildcard: false,
            output: OutputView::Atomic("boolean"@),
        }
    } else if i == 1 {
        FunctionView {
            id: "booleanEqual"@,
            uri: "urn:oasis:names:tc:xacml:1.0:function:boolean-equal"@,
            ns: seq![SYSTEM_NS@],
            args: seq![InputView::Atomic("boolean"@), InputView::Atomic("boolean"@)],
            wildcard: false,
            output: OutputView::Atomic("boolean"@),
        }
    } else if i == 2 {
        FunctionView {
            id: "integerEqual"@,
            uri: "urn:oasis:names:tc:xacml:1.0:function:integer-equal"@,
            ns: seq![SYSTEM_NS@],
            args: seq![InputView::Atomic("integer"@), InputView::Atomic("integer"@)],
            wildcard: false,
            output: OutputView::Atomic("boolean"@),
        }
    } else if i == 3 {
        FunctionView {
            id: "doubleEqual"@,
            uri: "urn:oasis:names:tc:xacml:1.0:function:double-equal"@,
            ns: seq![SYSTEM_NS@],
            args: seq![InputView::Atomic("double"@), InputView::Atomic("double"@)],
            wildcard: false,
            output: OutputView::Atomic("boolean"@),
        }
    } else if i == 4 {
        FunctionView {
            id: "dateEqual"@,
            uri: "urn:oasis:names:tc:xacml:1.0:function:date-equal"@,
            ns: seq![SYSTEM_NS@],
            args: seq![InputView::Atomic("date"@), InputView::Atomic("date"@)],
            wildcard: false,
            output: OutputView::Atomic("boolean"@),
        }
    } else if i == 5 {
        FunctionView {
            id: "timeEqual"@,
            uri: "urn:oasis:names:tc:xacml:1.0:function:time-equal"@,
            ns: seq![SYSTEM_NS@],
            args: seq![InputView::Atomic("time"@), InputView::Atomic("time"@)],
            wildcard: false,
            output: OutputView::Atomic("boolean"@),
        }
    } else if i == 6 {
        FunctionView {
            id: "dateTimeEqual"@,
            uri: "urn:oasis:names:tc:xacml:1.0:function:dateTime-equal"@,
            ns: seq![SYSTEM_NS@],
            args: seq![InputView::Atomic("dateTime"@), InputView::Atomic("dateTime"@)],
            wildcard: false,
            output: OutputView::Atomic("boolean"@),
        }
    } else if i == 7 {
        FunctionView {
            id: "dayTimeDurationEqual"@,
            uri: "urn:oasis:names:tc:xacml:3.0:function:dayTimeDuration-equal"@,
            ns: seq![SYSTEM_NS@],
            args: seq![InputView::Atomic("dayTimeDuration"@), InputView::Atomic("dayTimeDuration"@)],
            wildcard: false,
            output: OutputView::Atomic("boolean"@),
        }
    } else if i == 8 {
        FunctionView {
            id: "yearMonthDurationEqual"@,
            uri: "urn:oasis:names:tc:xacml:3.0:function:yearMonthDuration-equal"@,
            ns: seq![SYSTEM_NS@],
            args: seq![InputView::Atomic("yearMonthDuration"@), InputView::Atomic("yearMonthDuration"@)],
            wildcard: false,
            output: OutputView::Atomic("boolean"@),
        }
    } else if i == 9 {
        FunctionView {
            id: "stringEqualIgnoreCase"@,
            uri: "urn:oasis:names:tc:xacml:3.0:function:string-equal-ignore-case"@,
            ns: seq![SYSTEM_NS@],
            args: seq![InputView::Atomic("string"@), InputView::Atomic("string"@)],
            wildcard: false,
            output: OutputView::Atomic("boolean"@),
        }
    } else if i == 10 {
        FunctionView {
            id: "anyURIEqual"@,
            uri: "urn:oasis:names:tc:xacml:1.0:function:anyURI-equal"@,
            ns: seq![SYSTEM_NS@],
            args: seq![InputView::Atomic("anyURI"@), InputView::Atomic("anyURI"@)],
            wildcard: false,
            output: OutputView::Atomic("boolean"@),
        }
    } else if i == 11 {
        FunctionView {
            id: "x500NameEqual"@,
            uri: "urn:oasis:names:tc:xacml:1.0:function:x500Name-equal"@,
            ns: seq![SYSTEM_NS@],
            args: seq![InputView::Atomic("x500Name"@), InputView::Atomic("x500Name"@)],
            wildcard: false,
            output: OutputView::Atomic("boolean"@),
        }
    } else if i == 12 {
        FunctionView {
            id: "rfc822NameEqual"@,
            uri: "urn:oasis:names:tc:xacml:1.0:function:rfc822Name-equal"@,
            ns: seq![SYSTEM_NS@],
            args: seq![InputView::Atomic("rfc822Name"@), InputView::Atomic("rfc822Name"@)],
            wildcard: false,
            output: OutputView::Atomic("boolean"@),
        }
    } else if i == 13 {
        FunctionView {
            id: "hexBinaryEqual"@,
            uri: "urn:oasis:names:tc:xacml:1.0:function:hexBinary-equal"@,
            ns: seq![SYSTEM_NS@],
            args: seq![InputView::Atomic("hexBinary"@), InputView::Atomic("hexBinary"@)],
            wildcard: false,
            output: OutputView::Atomic("boolean"@),
        }
    } else if i == 14 {
        FunctionView {
            id: "base64BinaryEqual"@,
            uri: "urn:oasis:names:tc:xacml:1.0:function:base64Binary-equal"@,
            ns: seq![SYSTEM_NS@],
            args: seq![InputView::Atomic("base64Binary"@), InputView::Atomic("base64Binary"@)],
            wildcard: false,
            output: OutputView::Atomic("boolean"@),
        }
    } else if i == 15 {
        FunctionView {
            id: "integerAdd"@,
            uri: "urn:oasis:names:tc:xacml:1.0:function:integer-add"@,
            ns: seq![SYSTEM_NS@],
            args: seq![InputView::Atomic("integer"@), InputView::Atomic("integer"@), InputView::Atomic("integer"@)],
            wildcard: true,
            output: OutputView::Atomic("integer"@),
        }
    } else if i == 16 {
        FunctionView {
            id: "doubleAdd"@,
            uri: "urn:oasis:names:tc:xacml:1.0:function:double-add"@,
            ns: seq![SYSTEM_NS@],
            args: seq![InputView::Atomic("double"@), InputView::Atomic("double"@), InputView::Atomic("double"@)],
            wildcard: true,
            output: OutputView::Atomic("double"@),
        }
    } else if i == 17 {
        FunctionView {
            id: "integerSubtract"@,
            uri: "urn:oasis:names:tc:xacml:1.0:function:integer-subtract"@,
            ns: seq![SYSTEM_NS@],
            args: seq![InputView::Atomic("integer"@), InputView::Atomic("integer"@)],
            wildcard: false,
            output: OutputView::Atomic("integer"@),
        }
    } else if i == 18 {
        FunctionView {
            id: "doubleSubtract"@,
            uri: "urn:oasis:names:tc:xacml:1.0:function:double-subtract"@,
            ns: seq![SYSTEM_NS@],
            args: seq![InputView::Atomic("double"@), InputView::Atomic("double"@)],
            wildcard: false,
            output: OutputView::Atomic("double"@),
        }
    } else if i == 19 {
        FunctionView {
            id: "integerMultiply"@,
            uri: "urn:oasis:names:tc:xacml:1.0:function:integer-multiply"@,
            ns: seq![SYSTEM_NS@],
            args: seq![InputView::Atomic("integer"@), InputView::Atomic("integer"@), InputView::Atomic("integer"@)],
            wildcard: true,
            output: OutputView::Atomic("integer"@),
        }
    } else if i == 20 {
        FunctionView {
            id: "doubleMultiply"@,
            uri: "urn:oasis:names:tc:xacml:1.0:function:double-multiply"@,
            ns: seq![SYSTEM_NS@],
            args: seq![InputView::Atomic("double"@), InputView::Atomic("double"@), InputView::Atomic("double"@)],
            wildcard: true,
            output: OutputView::Atomic("double"@),
        }
    } else if i == 21 {
        FunctionView {
            id: "integerDivide"@,
            uri: "urn:oasis:names:tc:xacml:1.0:function:integer-divide"@,
            ns: seq![SYSTEM_NS@],
            args: seq![InputView::Atomic("integer"@), InputView::Atomic("integer"@)],
            wildcard: false,
            output: OutputView::Atomic("integer"@),
        }
    } else if i == 22 {
        FunctionView {
            id: "doubleDivide"@,
            uri: "urn:oasis:names:tc:xacml:1.0:function:double-divide"@,
            ns: seq![SYSTEM_NS@],
            args: seq![InputView::Atomic("double"@), InputView::Atomic("double"@)],
            wildcard: false,
            output: OutputView::Atomic("double"@),
        }
    } else if i == 23 {
        FunctionView {
            id: "integerMod"@,
            uri: "urn:oasis:names:tc:xacml:1.0:function:integer-mod"@,
            ns: seq![SYSTEM_NS@],
            args: seq![InputView::Atomic("integer"@), InputView::Atomic("integer"@)],
            wildcard: false,
            output: OutputView::Atomic("integer"@),
        }
    } else if i == 24 {
        FunctionView {
            id: "integerAbs"@,
            uri: "urn:oasis:names:tc:xacml:1.0:function:integer-abs"@,
            ns: seq![SYSTEM_NS@],
            args: seq![InputView::Atomic("integer"@)],
            wildcard: false,
            output: OutputView::Atomic("integer"@),
        }
    } else if i == 25 {
        FunctionView {
            id: "doubleAbs"@,
            uri: "urn:oasis:names:tc:xacml:1.0:function:double-abs"@,
            ns: seq![SYSTEM_NS@],
            args: seq![InputView::Atomic("double"@)],
            wildcard: false,
            output: OutputView::Atomic("double"@),
        }
    } else if i == 26 {
        FunctionView {
            id: "round"@,
            uri: "urn:oasis:names:tc:xacml:1.0:function:round"@,
            ns: seq![SYSTEM_NS@],
            args: seq![InputView::Atomic("double"@)],
            wildcard: false,
            output: OutputView::Atomic("double"@),
        }
    } else if i == 27 {
        FunctionView {
            id: "floor"@,
            uri: "urn:oasis:names:tc:xacml:1.0:function:floor"@,
            ns: seq![SYSTEM_NS@],
            args: seq![InputView::Atomic("double"@)],
            wildcard: false,
            output: OutputView::Atomic("double"@),
        }
    } else if i == 28 {
        FunctionView {
            id: "stringNormalizeSpace"@,
            uri: "urn:oasis:names:tc:xacml:1.0:function:string-normalize-space"@,
            ns: seq![SYSTEM_NS@],
            args: seq![InputView::Atomic("string"@)],
            wildcard: false,
            output: OutputView::Atomic("string"@),
        }
    } else if i == 29 {
        FunctionView {
            id: "stringNormalizeToLowerCase"@,
            uri: "urn:oasis:names:tc:xacml:1.0:function:string-normalize-to-lower-case"@,
            ns: seq![SYSTEM_NS@],
            args: seq![InputView::Atomic("string"@)],
            wildcard: false,
            output: OutputView::Atomic("string"@),
        }
    } else if i == 30 {
        FunctionView {
            id: "doubleToInteger"@,
            uri: "urn:oasis:names:tc:xacml:1.0:function:double-to-integer"@,
            ns: seq![SYSTEM_NS@],
            args: seq![InputView::Atomic("double"@)],
            wildcard: false,
            output: OutputView::Atomic("integer"@),
        }
    } else {
        FunctionView {
            id: "integerToDouble"@,
            uri: "urn:oasis:names:tc:xacml:1.0:function:integer-to-double"@,
            ns: seq![SYSTEM_NS@],
            args: seq![InputView::Atomic("integer"@)],
            wildcard: false,
            output: OutputView::Atomic("double"@),
        }
    }
}

/// The rows 32 to 63 of the table of the built-in functions.
pub open spec fn function_row_2(i: int) -> FunctionView {
    if i == 32 {
        FunctionView {
            id: "orFunction"@,
            uri: "urn:oasis:names:tc:xacml:1.0:function:or"@,
            ns: seq![SYSTEM_NS@],
            args: seq![InputView::Atomic("boolean"@)],
            wildcard: true,
            output: OutputView::Atomic("boolean"@),
        }
    } else if i == 33 {
        FunctionView {
            id: "andFunction"@,
            uri: "urn:oasis:names:tc:xacml:1.0:function:and"@,
            ns: seq![SYSTEM_NS@],
            args: seq![InputView::Atomic("boolean"@)],
            wildcard: true,
            output: OutputView::Atomic("boolean"@),
        }
    } else if i == 34 {
        FunctionView {
            id: "nOf"@,
            uri: "urn:oasis:names:tc:xacml:1.0:function:n-of"@,
            ns: seq![SYSTEM_NS@],
            args: seq![InputView::Atomic("integer"@), InputView::Atomic("boolean"@)],
            wildcard: true,
            output: OutputView::Atomic("boolean"@),
        }
    } else if i == 35 {
        FunctionView {
            id: "not"@,
            uri: "urn:oasis:names:tc:xacml:1.0:function:not"@,
            ns: seq![SYSTEM_NS@],
            args: seq![InputView::Atomic("boolean"@)],
            wildcard: false,
            output: OutputView::Atomic("boolean"@),
        }
    } else if i == 36 {
        FunctionView {
            id: "integerGreaterThan"@,
            uri: "urn:oasis:names:tc:xacml:1.0:function:integer-greater-than"@,
            ns: seq![SYSTEM_NS@],
            args: seq![InputView::Atomic("integer"@), InputView::Atomic("integer"@)],
            wildcard: false,
            output: OutputView::Atomic("boolean"@),
        }
    } else if i == 37 {
        FunctionView {
            id: "integerGreaterThanOrEqual"@,
            uri: "urn:oasis:names:tc:xacml:1.0:function:integer-greater-than-or-equal"@,
            ns: seq![SYSTEM_NS@],
            args: seq![InputView::Atomic("integer"@), InputView::Atomic("integer"@)],
            wildcard: false,
            output: OutputView::Atomic("boolean"@),
        }
    } else if i == 38 {
        FunctionView {
            id: "integerLessThan"@,
            uri: "urn:oasis:names:tc:xacml:1.0:function:integer-less-than"@,
            ns: seq![SYSTEM_NS@],
            args: seq![InputView::Atomic("integer"@), InputView::Atomic("integer"@)],
            wildcard: false,
            output: OutputView::Atomic("boolean"@),
        }
    } else if i == 39 {
        FunctionView {
            id: "integerLessThanOrEqual"@,
            uri: "urn:oasis:names:tc:xacml:1.0:function:integer-less-than-or-equal"@,
            ns: seq![SYSTEM_NS@],
            args: seq![InputView::Atomic("integer"@), InputView::Atomic("integer"@)],
            wildcard: false,
            output: OutputView::Atomic("boolean"@),
        }
    } else if i == 40 {
        FunctionView {
            id: "doubleGreaterThan"@,
            uri: "urn:oasis:names:tc:xacml:1.0:function:double-greater-than"@,
            ns: seq![SYSTEM_NS@],
            args: seq![InputView::Atomic("double"@), InputView::Atomic("double"@)],
            wildcard: false,
            output: OutputView::Atomic("boolean"@),
        }
    } else if i == 41 {
        FunctionView {
            id: "doubleGreaterThanOrEqual"@,
            uri: "urn:oasis:names:tc:xacml:1.0:function:double-greater-than-or-equal"@,
            ns: seq![SYSTEM_NS@],
            args: seq![InputView::Atomic("double"@), InputView::Atomic("double"@)],
            wildcard: false,
            output: OutputView::Atomic("boolean"@),
        }
    } else if i == 42 {
        FunctionView {
            id: "doubleLessThan"@,
            uri: "urn:oasis:names:tc:xacml:1.0:function:double-less-than"@,
            ns: seq![SYSTEM_NS@],
            args: seq![InputView::Atomic("double"@), InputView::Atomic("double"@)],
            wildcard: false,
            output: OutputView::Atomic("boolean"@),
        }
    } else if i == 43 {
        FunctionView {
            id: "doubleLessThanOrEqual"@,
            uri: "urn:oasis:names:tc:xacml:1.0:function:double-less-than-or-equal"@,
            ns: seq![SYSTEM_NS@],
            args: seq![InputView::Atomic("double"@), InputView::Atomic("double"@)],
            wildcard: false,
            output: OutputView::Atomic("boolean"@),
        }
    } else if i == 44 {
        FunctionView {
            id: "dateTimeAddDayTimeDuration"@,
            uri: "urn:oasis:names:tc:xacml:3.0:function:dateTime-add-dayTimeDuration"@,
            ns: seq![SYSTEM_NS@],
            args: seq![InputView::Atomic("dateTime"@), InputView::Atomic("dayTimeDuration"@)],
            wildcard: false,
            output: OutputView::Atomic("dateTime"@),
        }
    } else if i == 45 {
        FunctionView {
            id: "dateTimeAddYearMonthDuration"@,
            uri: "urn:oasis:names:tc:xacml:3.0:function:dateTime-add-yearMonthDuration"@,
            ns: seq![SYSTEM_NS@],
            args: seq![InputView::Atomic("dateTime"@), InputView::Atomic("yearMonthDuration"@)],
            wildcard: false,
            output: OutputView::Atomic("dateTime"@),
        }
    } else if i == 46 {
        FunctionView {
            id: "dateTimeSubtractDayTimeDuration"@,
            uri: "urn:oasis:names:tc:xacml:3.0:function:dateTime-subtract-dayTimeDuration"@,
            ns: seq![SYSTEM_NS@],
            args: seq![InputView::Atomic("dateTime"@), InputView::Atomic("dayTimeDuration"@)],
            wildcard: false,
            output: OutputView::Atomic("dateTime"@),
        }
    } else if i == 47 {
        FunctionView {
            id: "dateTimeSubtractYearMonthDuration"@,
            uri: "urn:oasis:names:tc:xacml:3.0:function:dateTime-subtract-yearMonthDuration"@,
            ns: seq![SYSTEM_NS@],
            args: seq![InputView::Atomic("dateTime"@), InputView::Atomic("yearMonthDuration"@)],
            wildcard: false,
            output: OutputView::Atomic("dateTime"@),
        }
    } else if i == 48 {
        FunctionView {
            id: "dateAddYearMonthDuration"@,
            uri: "urn:oasis:names:tc:xacml:3.0:function:date-add-yearMonthDuration"@,
            ns: seq![SYSTEM_NS@],
            args: seq![InputView::Atomic("dateTime"@), InputView::Atomic("dayTimeDuration"@)],
            wildcard: false,
            output: OutputView::Atomic("date"@),
        }
    } else if i == 49 {
        FunctionView {
            id: "dateSubtractYearMonthDuration"@,
            uri: "urn:oasis:names:tc:xacml:3.0:function:date-subtract-yearMonthDuration"@,
            ns: seq![SYSTEM_NS@],
            args: seq![InputView::Atomic("date"@), InputView::Atomic("yearMonthDuration"@)],
            wildcard: false,
            output: OutputView::Atomic("date"@),
        }
    } else if i == 50 {
        FunctionView {
            id: "stringGreaterThan"@,
            uri: "urn:oasis:names:tc:xacml:1.0:function:string-greater-than"@,
            ns: seq![SYSTEM_NS@],
            args: seq![InputView::Atomic("string"@), InputView::Atomic("string"@)],
            wildcard: false,
            output: OutputView::Atomic("boolean"@),
        }
    } else if i == 51 {
        FunctionView {
            id: "stringGreaterThanOrEqual"@,
            uri: "urn:oasis:names:tc:xacml:1.0:function:string-greater-than-or-equal"@,
            ns: seq![SYSTEM_NS@],
            args: seq![InputView::Atomic("string"@), InputView::Atomic("string"@)],
            wildcard: false,
            output: OutputView::Atomic("boolean"@),
        }
    } else if i == 52 {
        FunctionView {
            id: "stringLessThan"@,
            uri: "urn:oasis:names:tc:xacml:1.0:function:string-less-than"@,
            ns: seq![SYSTEM_NS@],
            args: seq![InputView::Atomic("string"@), InputView::Atomic("string"@)],
            wildcard: false,
            output: OutputView::Atomic("boolean"@),
        }
    } else if i == 53 {
        FunctionView {
            id: "stringLessThanOrEqual"@,
            uri: "urn:oasis:names:tc:xacml:1.0:function:string-less-than-or-equal"@,
            ns: seq![SYSTEM_NS@],
            args: seq![InputView::Atomic("string"@), InputView::Atomic("string"@)],
            wildcard: false,
            output: OutputView::Atomic("boolean"@),
        }
    } else if i == 54 {
        FunctionView {
            id: "timeGreaterThan"@,
            uri: "urn:oasis:names:tc:xacml:1.0:function:time-greater-than"@,
            ns: seq![SYSTEM_NS@],
            args: seq![InputView::Atomic("time"@), InputView::Atomic("time"@)],
            wildcard: false,
            output: OutputView::Atomic("boolean"@),
        }
    } else if i == 55 {
        FunctionView {
            id: "timeGreaterThanOrEqual"@,
            uri: "urn:oasis:names:tc:xacml:1.0:function:time-greater-than-or-equal"@,
            ns: seq![SYSTEM_NS@],
            args: seq![InputView::Atomic("time"@), InputView::Atomic("time"@)],
            wildcard: false,
            output: OutputView::Atomic("boolean"@),
        }
    } else if i == 56 {
        FunctionView {
            id: "timeLessThan"@,
            uri: "urn:oasis:names:tc:xacml:1.0:function:time-less-than"@,
            ns: seq![SYSTEM_NS@],
            args: seq![InputView::Atomic("time"@), InputView::Atomic("time"@)],
            wildcard: false,
            output: OutputView::Atomic("boolean"@),
        }
    } else if i == 57 {
        FunctionView {
            id: "timeLessThanOrEqual"@,
            uri: "urn:oasis:names:tc:xacml:1.0:function:time-less-than-or-equal"@,
            ns: seq![SYSTEM_NS@],
            args: seq![InputView::Atomic("time"@), InputView::Atomic("time"@)],
            wildcard: false,
            output: OutputView::Atomic("boolean"@),
        }
    } else if i == 58 {
        FunctionView {
            id: "timeInRange"@,
            uri: "urn:oasis:names:tc:xacml:2.0:function:time-in-range"@,
            ns: seq![SYSTEM_NS@],
            args: seq![InputView::Atomic("time"@), InputView::Atomic("time"@)],
            wildcard: false,
            output: OutputView::Atomic("boolean"@),
        }
    } else if i == 59 {
        FunctionView {
            id: "dateTimeGreaterThan"@,
            uri: "urn:oasis:names:tc:xacml:1.0:function:dateTime-greater-than"@,
            ns: seq![SYSTEM_NS@],
            args: seq![InputView::Atomic("dateTime"@), InputView::Atomic("dateTime"@)],
            wildcard: false,
            output: OutputView::Atomic("boolean"@),
        }
    } else if i == 60 {
        FunctionView {
            id: "dateTimeGreaterThanOrEqual"@,
            uri: "urn:oasis:names:tc:xacml:1.0:function:dateTime-greater-than-or-equal"@,
            ns: seq![SYSTEM_NS@],
            args: seq![InputView::Atomic("dateTime"@), InputView::Atomic("dateTime"@)],
            wildcard: false,
            output: OutputView::Atomic("boolean"@),
        }
    } else if i == 61 {
        FunctionView {
            id: "dateTimeLessThan"@,
            uri: "urn:oasis:names:tc:xacml:1.0:function:dateTime-less-than"@,
            ns: seq![SYSTEM_NS@],
            args: seq![InputView::Atomic("dateTime"@), InputView::Atomic("dateTime"@)],
            wildcard: false,
            output: OutputView::Atomic("boolean"@),
        }
    } else if i == 62 {
        FunctionView {
            id: "dateTimeLessThanOrEqual"@,
            uri: "urn:oasis:names:tc:xacml:1.0:function:dateTime-less-than-or-equal"@,
            ns: seq![SYSTEM_NS@],
            args: seq![InputView::Atomic("dateTime"@), InputView::Atomic("dateTime"@)],
            wildcard: false,
            output: OutputView::Atomic("boolean"@),
        }
    } else {
        FunctionView {
            id: "dateGreaterThan"@,
            uri: "urn:oasis:names:tc:xacml:1.0:function:date-greater-than"@,
            ns: seq![SYSTEM_NS@],
            args: seq![InputView::Atomic("date"@), InputView::Atomic("date"@)],
            wildcard: false,
            output: OutputView::Atomic("boolean"@),
        }
    }
}

/// The rows 64 to 95 of the table of the built-in functions.
pub open spec fn function_row_3(i: int) -> FunctionView {
    if i == 64 {
        FunctionView {
            id: "dateGreaterThanOrEqual"@,
            uri: "urn:oasis:names:tc:xacml:1.0:function:date-greater-than-or-equal"@,
            ns: seq![SYSTEM_NS@],
            args: seq![InputView::Atomic("date"@), InputView::Atomic("date"@)],
            wildcard: false,
            output: OutputView::Atomic("boolean"@),
        }
    } else if i == 65 {
        FunctionView {
            id: "dateLessThan"@,
            uri: "urn:oasis:names:tc:xacml:1.0:function:date-less-than"@,
            ns: seq![SYSTEM_NS@],
            args: seq![InputView::Atomic("date"@), InputView::Atomic("date"@)],
            wildcard: false,
            output: OutputView::Atomic("boolean"@),
        }
    } else if i == 66 {
        FunctionView {
            id: "dateLessThanOrEqual"@,
            uri: "urn:oasis:names:tc:xacml:1.0:function:date-less-than-or-equal"@,
            ns: seq![SYSTEM_NS@],
            args: seq![InputView::Atomic("date"@), InputView::Atomic("date"@)],
            wildcard: false,
            output: OutputView::Atomic("boolean"@),
        }
    } else if i == 67 {
        FunctionView {
            id: "stringOneAndOnly"@,
            uri: "urn:oasis:names:tc:xacml:1.0:function:string-one-and-only"@,
            ns: seq![SYSTEM_NS@],
            args: seq![InputView::AtomicBag("string"@)],
            wildcard: false,
            output: OutputView::Atomic("string"@),
        }
    } else if i == 68 {
        FunctionView {
            id: "stringBagSize"@,
            uri: "urn:oasis:names:tc:xacml:1.0:function:string-bag-size"@,
            ns: seq![SYSTEM_NS@],
            args: seq![InputView::AtomicBag("string"@)],
            wildcard: false,
            output: OutputView::Atomic("integer"@),
        }
    } else if i == 69 {
        FunctionView {
            id: "stringIsIn"@,
            uri: "urn:oasis:names:tc:xacml:1.0:function:string-is-in"@,
            ns: seq![SYSTEM_NS@],
            args: seq![InputView::Atomic("string"@), InputView::AtomicBag("string"@)],
            wildcard: false,
            output: OutputView::Atomic("boolean"@),
        }
    } else if i == 70 {
        FunctionView {
            id: "stringBag"@,
            uri: "urn:oasis:names:tc:xacml:1.0:function:string-bag"@,
            ns: seq![SYSTEM_NS@],
            args: seq![InputView::Atomic("string"@)],
            wildcard: true,
            output: OutputView::AtomicBag("string"@),
        }
    } else if i == 71 {
        FunctionView {
            id: "booleanOneAndOnly"@,
            uri: "urn:oasis:names:tc:xacml:1.0:function:boolean-one-and-only"@,
            ns: seq![SYSTEM_NS@],
            args: seq![InputView::AtomicBag("boolean"@)],
            wildcard: false,
            output: OutputView::Atomic("boolean"@),
        }
    } else if i == 72 {
        FunctionView {
            id: "booleanBagSize"@,
            uri: "urn:oasis:names:tc:xacml:1.0:function:boolean-bag-size"@,
            ns: seq![SYSTEM_NS@],
            args: seq![InputView::AtomicBag("boolean"@)],
            wildcard: false,
            output: OutputView::Atomic("integer"@),
        }
    } else if i == 73 {
        FunctionView {
            id: "booleanIsIn"@,
            uri: "urn:oasis:names:tc:xacml:1.0:function:boolean-is-in"@,
            ns: seq![SYSTEM_NS@],
            args: seq![InputView::Atomic("boolean"@), InputView::AtomicBag("boolean"@)],
            wildcard: false,
            output: OutputView::Atomic("boolean"@),
        }
    } else if i == 74 {
        FunctionView {
            id: "booleanBag"@,
            uri: "urn:oasis:names:tc:xacml:1.0:function:boolean-bag"@,
            ns: seq![SYSTEM_NS@],
            args: seq![InputView::Atomic("boolean"@)],
            wildcard: true,
            output: OutputView::AtomicBag("boolean"@),
        }
    } else if i == 75 {
        FunctionView {
            id: "integerOneAndOnly"@,
            uri: "urn:oasis:names:tc:xacml:1.0:function:integer-one-and-only"@,
            ns: seq![SYSTEM_NS@],
            args: seq![InputView::AtomicBag("integer"@)],
            wildcard: false,
            output: OutputView::Atomic("integer"@),
        }
    } else if i == 76 {
        FunctionView {
            id: "integerBagSize"@,
            uri: "urn:oasis:names:tc:xacml:1.0:function:integer-bag-size"@,
            ns: seq![SYSTEM_NS@],
            args: seq![InputView::AtomicBag("integer"@)],
            wildcard: false,
            output: OutputView::Atomic("integer"@),
        }
    } else if i == 77 {
        FunctionView {
            id: "integerIsIn"@,
            uri: "urn:oasis:names:tc:xacml:1.0:function:integer-is-in"@,
            ns: seq![SYSTEM_NS@],
            args: seq![InputView::Atomic("integer"@), InputView::AtomicBag("integer"@)],
            wildcard: false,
            output: OutputView::Atomic("boolean"@),
        }
    } else if i == 78 {
        FunctionView {
            id: "integerBag"@,
            uri: "urn:oasis:names:tc:xacml:1.0:function:integer-bag"@,
            ns: seq![SYSTEM_NS@],
            args: seq![InputView::Atomic("integer"@)],
            wildcard: true,
            output: OutputView::AtomicBag("integer"@),
        }
    } else if i == 79 {
        FunctionView {
            id: "doubleOneAndOnly"@,
            uri: "urn:oasis:names:tc:xacml:1.0:function:double-one-and-only"@,
            ns: seq![SYSTEM_NS@],
            args: seq![InputView::AtomicBag("double"@)],
            wildcard: false,
            output: OutputView::Atomic("double"@),
        }
    } else if i == 80 {
        FunctionView {
            id: "doubleBagSize"@,
            uri: "urn:oasis:names:tc:xacml:1.0:function:double-bag-size"@,
            ns: seq![SYSTEM_NS@],
            args: seq![InputView::AtomicBag("double"@)],
            wildcard: false,
            output: OutputView::Atomic("integer"@),
        }
    } else if i == 81 {
        FunctionView {
            id: "doubleIsIn"@,
            uri: "urn:oasis:names:tc:xacml:1.0:function:double-is-in"@,
            ns: seq![SYSTEM_NS@],
            args: seq![InputView::Atomic("double"@), InputView::AtomicBag("double"@)],
            wildcard: false,
            output: OutputView::Atomic("boolean"@),
        }
    } else if i == 82 {
        FunctionView {
            id: "doubleBag"@,
            uri: "urn:oasis:names:tc:xacml:1.0:function:double-bag"@,
            ns: seq![SYSTEM_NS@],
            args: seq![InputView::Atomic("double"@)],
            wildcard: true,
            output: OutputView::AtomicBag("double"@),
        }
    } else if i == 83 {
        FunctionView {
            id: "timeOneAndOnly"@,
            uri: "urn:oasis:names:tc:xacml:1.0:function:time-one-and-only"@,
            ns: seq![SYSTEM_NS@],
            args: seq![InputView::AtomicBag("time"@)],
            wildcard: false,
            output: OutputView::Atomic("time"@),
        }
    } else if i == 84 {
        FunctionView {
            id: "timeBagSize"@,
            uri: "urn:oasis:names:tc:xacml:1.0:function:time-bag-size"@,
            ns: seq![SYSTEM_NS@],
            args: seq![InputView::AtomicBag("time"@)],
            wildcard: false,
            output: OutputView::Atomic("integer"@),
        }
    } else if i == 85 {
        FunctionView {
            id: "timeIsIn"@,
            uri: "urn:oasis:names:tc:xacml:1.0:function:time-is-in"@,
            ns: seq![SYSTEM_NS@],
            args: seq![InputView::Atomic("time"@), InputView::AtomicBag("time"@)],
            wildcard: false,
            output: OutputView::Atomic("boolean"@),
        }
    } else if i == 86 {
        FunctionView {
            id: "timeBag"@,
            uri: "urn:oasis:names:tc:xacml:1.0:function:time-bag"@,
            ns: seq![SYSTEM_NS@],
            args: seq![InputView::Atomic("time"@)],
            wildcard: true,
            output: OutputView::AtomicBag("time"@),
        }
    } else if i == 87 {
        FunctionView {
            id: "dateOneAndOnly"@,
            uri: "urn:oasis:names:tc:xacml:1.0:function:date-one-and-only"@,
            ns: seq![SYSTEM_NS@],
            args: seq![InputView::AtomicBag("date"@)],
            wildcard: false,
            output: OutputView::Atomic("date"@),
        }
    } else if i == 88 {
        FunctionView {
            id: "dateBagSize"@,
            uri: "urn:oasis:names:tc:xacml:1.0:function:date-bag-size"@,
            ns: seq![SYSTEM_NS@],
            args: seq![InputView::AtomicBag("date"@)],
            wildcard: false,
            output: OutputView::Atomic("integer"@),
        }
    } else if i == 89 {
        FunctionView {
            id: "dateIsIn"@,
            uri: "urn:oasis:names:tc:xacml:1.0:function:date-is-in"@,
            ns: seq![SYSTEM_NS@],
            args: seq![InputView::Atomic("date"@), InputView::AtomicBag("date"@)],
            wildcard: false,
            output: OutputView::Atomic("boolean"@),
        }
    } else if i == 90 {
        FunctionView {
            id: "dateBag"@,
            uri: "urn:oasis:names:tc:xacml:1.0:function:date-bag"@,
            ns: seq![SYSTEM_NS@],
            args: seq![InputView::Atomic("date"@)],
            wildcard: true,
            output: OutputView::AtomicBag("date"@),
        }
    } else if i == 91 {
        FunctionView {
            id: "dateTimeOneAndOnly"@,
            uri: "urn:oasis:names:tc:xacml:1.0:function:dateTime-one-and-only"@,
            ns: seq![SYSTEM_NS@],
            args: seq![InputView::AtomicBag("dateTime"@)],
            wildcard: false,
            output: OutputView::Atomic("dateTime"@),
        }
    } else if i == 92 {
        FunctionView {
            id: "dateTimeBagSize"@,
            uri: "urn:oasis:names:tc:xacml:1.0:function:dateTime-bag-size"@,
            ns: seq![SYSTEM_NS@],
            args: seq![InputView::AtomicBag("dateTime"@)],
            wildcard: false,
            output: OutputView::Atomic("integer"@),
        }
    } else if i == 93 {
        FunctionView {
            id: "dateTimeIsIn"@,
            uri: "urn:oasis:names:tc:xacml:1.0:function:dateTime-is-in"@,
            ns: seq![SYSTEM_NS@],
            args: seq![InputView::Atomic("dateTime"@), InputView::AtomicBag("dateTime"@)],
            wildcard: false,
            output: OutputView::Atomic("boolean"@),
        }
    } else if i == 94 {
        FunctionView {
            id: "dateTimeBag"@,
            uri: "urn:oasis:names:tc:xacml:1.0:function:dateTime-bag"@,
            ns: seq![SYSTEM_NS@],
            args: seq![InputView::Atomic("dateTime"@)],
            wildcard: true,
            output: OutputView::AtomicBag("dateTime"@),
        }
    } else {
        FunctionView {
            id: "anyURIOneAndOnly"@,
            uri: "urn:oasis:names:tc:xacml:1.0:function:anyURI-one-and-only"@,
            ns: seq![SYSTEM_NS@],
            args: seq![InputView::AtomicBag("anyURI"@)],
            wildcard: false,
            output: OutputView::Atomic("anyURI"@),
        }
    }
}

/// The rows 96 to 127 of the table of the built-in functions.
pub open spec fn function_row_4(i: int) -> FunctionView {
    if i == 96 {
        FunctionView {
            id: "anyURIBagSize"@,
            uri: "urn:oasis:names:tc:xacml:1.0:function:anyURI-bag-size"@,
            ns: seq![SYSTEM_NS@],
            args: seq![InputView::AtomicBag("anyURI"@)],
            wildcard: false,
            output: OutputView::Atomic("integer"@),
        }
    } else if i == 97 {
        FunctionView {
            id: "anyURIIsIn"@,
            uri: "urn:oasis:names:tc:xacml:1.0:function:anyURI-is-in"@,
            ns: seq![SYSTEM_NS@],
            args: seq![InputView::Atomic("anyURI"@), InputView::AtomicBag("anyURI"@)],
            wildcard: false,
            output: OutputView::Atomic("boolean"@),
        }
    } else if i == 98 {
        FunctionView {
            id: "anyURIBag"@,
            uri: "urn:oasis:names:tc:xacml:1.0:function:anyURI-bag"@,
            ns: seq![SYSTEM_NS@],
            args: seq![InputView::Atomic("anyURI"@)],
            wildcard: true,
            output: OutputView::AtomicBag("anyURI"@),
        }
    } else if i == 99 {
        FunctionView {
            id: "hexBinaryOneAndOnly"@,
            uri: "urn:oasis:names:tc:xacml:1.0:function:hexBinary-one-and-only"@,
            ns: seq![SYSTEM_NS@],
            args: seq![InputView::AtomicBag("hexBinary"@)],
            wildcard: false,
            output: OutputView::Atomic("hexBinary"@),
        }
    } else if i == 100 {
        FunctionView {
            id: "hexBinaryBagSize"@,
            uri: "urn:oasis:names:tc:xacml:1.0:function:hexBinary-bag-size"@,
            ns: seq![SYSTEM_NS@],
            args: seq![InputView::AtomicBag("hexBinary"@)],
            wildcard: false,
            output: OutputView::Atomic("integer"@),
        }
    } else if i == 101 {
        FunctionView {
            id: "hexBinaryIsIn"@,
            uri: "urn:oasis:names:tc:xacml:1.0:function:hexBinary-is-in"@,
            ns: seq![SYSTEM_NS@],
            args: seq![InputView::Atomic("hexBinary"@), InputView::AtomicBag("hexBinary"@)],
            wildcard: false,
            output: OutputView::Atomic("boolean"@),
        }
    } else if i == 102 {
        FunctionView {
            id: "hexBinaryBag"@,
            uri: "urn:oasis:names:tc:xacml:1.0:function:hexBinary-bag"@,
            ns: seq![SYSTEM_NS@],
            args: seq![InputView::Atomic("hexBinary"@)],
            wildcard: true,
            output: OutputView::AtomicBag("hexBinary"@),
        }
    } else if i == 103 {
        FunctionView {
            id: "base64BinaryOneAndOnly"@,
            uri: "urn:oasis:names:tc:xacml:1.0:function:base64Binary-one-and-only"@,
            ns: seq![SYSTEM_NS@],
            args: seq![InputView::AtomicBag("base64Binary"@)],
            wildcard: false,
            output: OutputView::Atomic("base64Binary"@),
        }
    } else if i == 104 {
        FunctionView {
            id: "base64BinaryBagSize"@,
            uri: "urn:oasis:names:tc:xacml:1.0:function:base64Binary-bag-size"@,
            ns: seq![SYSTEM_NS@],
            args: seq![InputView::AtomicBag("base64Binary"@)],
            wildcard: false,
            output: OutputView::Atomic("integer"@),
        }
    } else if i == 105 {
        FunctionView {
            id: "base64BinaryIsIn"@,
            uri: "urn:oasis:names:tc:xacml:1.0:function:base64Binary-is-in"@,
            ns: seq![SYSTEM_NS@],
            args: seq![InputView::Atomic("base64Binary"@), InputView::AtomicBag("base64Binary"@)],
            wildcard: false,
            output: OutputView::Atomic("boolean"@),
        }
    } else if i == 106 {
        FunctionView {
            id: "base64BinaryBag"@,
            uri: "urn:oasis:names:tc:xacml:1.0:function:base64Binary-bag"@,
            ns: seq![SYSTEM_NS@],
            args: seq![InputView::Atomic("base64Binary"@)],
            wildcard: true,
            output: OutputView::AtomicBag("base64Binary"@),
        }
    } else if i == 107 {
        FunctionView {
            id: "dayTimeDurationOneAndOnly"@,
            uri: "urn:oasis:names:tc:xacml:3.0:function:dayTimeDuration-one-and-only"@,
            ns: seq![SYSTEM_NS@],
            args: seq![InputView::AtomicBag("dayTimeDuration"@)],
            wildcard: false,
            output: OutputView::Atomic("dayTimeDuration"@),
        }
    } else if i == 108 {
        FunctionView {
            id: "dayTimeDurationBagSize"@,
            uri: "urn:oasis:names:tc:xacml:3.0:function:dayTimeDuration-bag-size"@,
            ns: seq![SYSTEM_NS@],
            args: seq![InputView::AtomicBag("dayTimeDuration"@)],
            wildcard: false,
            output: OutputView::Atomic("integer"@),
        }
    } else if i == 109 {
        FunctionView {
            id: "dayTimeDurationIsIn"@,
            uri: "urn:oasis:names:tc:xacml:3.0:function:dayTimeDuration-is-in"@,
            ns: seq![SYSTEM_NS@],
            args: seq![InputView::Atomic("dayTimeDuration"@), InputView::AtomicBag("dayTimeDuration"@)],
            wildcard: false,
            output: OutputView::Atomic("boolean"@),
        }
    } else if i == 110 {
        FunctionView {
            id: "dayTimeDurationBag"@,
            uri: "urn:oasis:names:tc:xacml:3.0:function:dayTimeDuration-bag"@,
            ns: seq![SYSTEM_NS@],
            args: seq![InputView::Atomic("dayTimeDuration"@)],
            wildcard: true,
            output: OutputView::AtomicBag("dayTimeDuration"@),
        }
    } else if i == 111 {
        FunctionView {
            id: "yearMonthDurationOneAndOnly"@,
            uri: "urn:oasis:names:tc:xacml:3.0:function:yearMonthDuration-one-and-only"@,
            ns: seq![SYSTEM_NS@],
            args: seq![InputView::AtomicBag("yearMonthDuration"@)],
            wildcard: false,
            output: OutputView::Atomic("yearMonthDuration"@),
        }
    } else if i == 112 {
        FunctionView {
            id: "yearMonthDurationBagSize"@,
            uri: "urn:oasis:names:tc:xacml:3.0:function:yearMonthDuration-bag-size"@,
            ns: seq![SYSTEM_NS@],
            args: seq![InputView::AtomicBag("yearMonthDuration"@)],
            wildcard: false,
            output: OutputView::Atomic("integer"@),
        }
    } else if i == 113 {
        FunctionView {
            id: "yearMonthDurationIsIn"@,
            uri: "urn:oasis:names:tc:xacml:3.0:function:yearMonthDuration-is-in"@,
            ns: seq![SYSTEM_NS@],
            args: seq![InputView::Atomic("yearMonthDuration"@), InputView::AtomicBag("yearMonthDuration"@)],
            wildcard: false,
            output: OutputView::Atomic("boolean"@),
        }
    } else if i == 114 {
        FunctionView {
            id: "yearMonthDurationBag"@,
            uri: "urn:oasis:names:tc:xacml:3.0:function:yearMonthDuration-bag"@,
            ns: seq![SYSTEM_NS@],
            args: seq![InputView::Atomic("yearMonthDuration"@)],
            wildcard: true,
            output: OutputView::AtomicBag("yearMonthDuration"@),
        }
    } else if i == 115 {
        FunctionView {
            id: "x500NameOneAndOnly"@,
            uri: "urn:oasis:names:tc:xacml:1.0:function:x500Name-one-and-only"@,
            ns: seq![SYSTEM_NS@],
            args: seq![InputView::AtomicBag("x500Name"@)],
            wildcard: false,
            output: OutputView::Atomic("x500Name"@),
        }
    } else if i == 116 {
        FunctionView {
            id: "x500NameBagSize"@,
            uri: "urn:oasis:names:tc:xacml:1.0:function:x500Name-bag-size"@,
            ns: seq![SYSTEM_NS@],
            args: seq![InputView::AtomicBag("x500Name"@)],
            wildcard: false,
            output: OutputView::Atomic("integer"@),
        }
    } else if i == 117 {
        FunctionView {
            id: "x500NameIsIn"@,
            uri: "urn:oasis:names:tc:xacml:1.0:function:x500Name-is-in"@,
            ns: seq![SYSTEM_NS@],
            args: seq![InputView::Atomic("x500Name"@), InputView::AtomicBag("x500Name"@)],
            wildcard: false,
            output: OutputView::Atomic("boolean"@),
        }
    } else if i == 118 {
        FunctionView {
            id: "x500NameBag"@,
            uri: "urn:oasis:names:tc:xacml:1.0:function:x500Name-bag"@,
            ns: seq![SYSTEM_NS@],
            args: seq![InputView::Atomic("x500Name"@)],
            wildcard: true,
            output: OutputView::AtomicBag("x500Name"@),
        }
    } else if i == 119 {
        FunctionView {
            id: "rfc822NameOneAndOnly"@,
            uri: "urn:oasis:names:tc:xacml:1.0:function:rfc822Name-one-and-only"@,
            ns: seq![SYSTEM_NS@],
            args: seq![InputView::AtomicBag("rfc822Name"@)],
            wildcard: false,
            output: OutputView::Atomic("rfc822Name"@),
        }
    } else if i == 120 {
        FunctionView {
            id: "rfc822NameBagSize"@,
            uri: "urn:oasis:names:tc:xacml:1.0:function:rfc822Name-bag-size"@,
            ns: seq![SYSTEM_NS@],
            args: seq![InputView::AtomicBag("rfc822Name"@)],
            wildcard: false,
            output: OutputView::Atomic("integer"@),
        }
    } else if i == 121 {
        FunctionView {
            id: "rfc822NameIsIn"@,
            uri: "urn:oasis:names:tc:xacml:1.0:function:rfc822Name-is-in"@,
            ns: seq![SYSTEM_NS@],
            args: seq![InputView::Atomic("rfc822Name"@), InputView::AtomicBag("rfc822Name"@)],
            wildcard: false,
            output: OutputView::Atomic("boolean"@),
        }
    } else if i == 122 {
        FunctionView {
            id: "rfc822NameBag"@,
            uri: "urn:oasis:names:tc:xacml:1.0:function:rfc822Name-bag"@,
            ns: seq![SYSTEM_NS@],
            args: seq![InputView::Atomic("rfc822Name"@)],
            wildcard: true,
            output: OutputView::AtomicBag("rfc822Name"@),
        }
    } else if i == 123 {
        FunctionView {
            id: "ipAddressOneAndOnly"@,
            uri: "urn:oasis:names:tc:xacml:2.0:function:ipAddress-one-and-only"@,
            ns: seq![SYSTEM_NS@],
            args: seq![InputView::AtomicBag("ipAddress"@)],
            wildcard: false,
            output: OutputView::Atomic("ipAddress"@),
        }
    } else if i == 124 {
        FunctionView {
            id: "ipAddressBagSize"@,
            uri: "urn:oasis:names:tc:xacml:2.0:function:ipAddress-bag-size"@,
            ns: seq![SYSTEM_NS@],
            args: seq![InputView::AtomicBag("ipAddress"@)],
            wildcard: false,
            output: OutputView::Atomic("integer"@),
        }
    } else if i == 125 {
        FunctionView {
            id: "ipAddressBag"@,
            uri: "urn:oasis:names:tc:xacml:2.0:function:ipAddress-bag"@,
            ns: seq![SYSTEM_NS@],
            args: seq![InputView::Atomic("ipAddress"@)],
            wildcard: true,
            output: OutputView::AtomicBag("ipAddress"@),
        }
    } else if i == 126 {
        FunctionView {
            id: "dnsNameOneAndOnly"@,
            uri: "urn:oasis:names:tc:xacml:2.0:function:dnsName-one-and-only"@,
            ns: seq![SYSTEM_NS@],
            args: seq![InputView::AtomicBag("dnsName"@)],
            wildcard: false,
            output: OutputView::Atomic("dnsName"@),
        }
    } else {
        FunctionView {
            id: "dnsNameBagSize"@,
            uri: "urn:oasis:names:tc:xacml:2.0:function:dnsName-bag-size"@,
            ns: seq![SYSTEM_NS@],
            args: seq![InputView::AtomicBag("dnsName"@)],
            wildcard: false,
            output: OutputView::Atomic("integer"@),
        }
    }
}

/// The rows 128 to 159 of the table of the built-in functions.
pub open spec fn function_row_5(i: int) -> FunctionView {
    if i == 128 {
        FunctionView {
            id: "dnsNameBag"@,
            uri: "urn:oasis:names:tc:xacml:2.0:function:dnsName-bag"@,
            ns: seq![SYSTEM_NS@],
            args: seq![InputView::Atomic("dnsName"@)],
            wildcard: true,
            output: OutputView::AtomicBag("dnsName"@),
        }
    } else if i == 129 {
        FunctionView {
            id: "stringConcatenate"@,
            uri: "urn:oasis:names:tc:xacml:2.0:function:string-concatenate"@,
            ns: seq![SYSTEM_NS@],
            args: seq![InputView::Atomic("string"@)],
            wildcard: true,
            output: OutputView::Atomic("string"@),
        }
    } else if i == 130 {
        FunctionView {
            id: "booleanFromString"@,
            uri: "urn:oasis:names:tc:xacml:3.0:function:boolean-from-string"@,
            ns: seq![SYSTEM_NS@],
            args: seq![InputView::Atomic("string"@)],
            wildcard: false,
            output: OutputView::Atomic("boolean"@),
        }
    } else if i == 131 {
        FunctionView {
            id: "stringFromBoolean"@,
            uri: "urn:oasis:names:tc:xacml:3.0:function:string-from-boolean"@,
            ns: seq![SYSTEM_NS@],
            args: seq![InputView::Atomic("boolean"@)],
            wildcard: false,
            output: OutputView::Atomic("string"@),
        }
    } else if i == 132 {
        FunctionView {
            id: "integerFromString"@,
            uri: "urn:oasis:names:tc:xacml:3.0:function:integer-from-string"@,
            ns: seq![SYSTEM_NS@],
            args: seq![InputView::Atomic("string"@)],
            wildcard: false,
            output: OutputView::Atomic("integer"@),
        }
    } else if i == 133 {
        FunctionView {
            id: "stringFromInteger"@,
            uri: "urn:oasis:names:tc:xacml:3.0:function:string-from-integer"@,
            ns: seq![SYSTEM_NS@],
            args: seq![InputView::Atomic("integer"@)],
            wildcard: false,
            output: OutputView::Atomic("string"@),
        }
    } else if i == 134 {
        FunctionView {
            id: "doubleFromString"@,
            uri: "urn:oasis:names:tc:xacml:3.0:function:double-from-string"@,
            ns: seq![SYSTEM_NS@],
            args: seq![InputView::Atomic("string"@)],
            wildcard: false,
            output: OutputView::Atomic("double"@),
        }
    } else if i == 135 {
        FunctionView {
            id: "stringFromDouble"@,
            uri: "urn:oasis:names:tc:xacml:3.0:function:string-from-double"@,
            ns: seq![SYSTEM_NS@],
            args: seq![InputView::Atomic("double"@)],
            wildcard: false,
            output: OutputView::Atomic("string"@),
        }
    } else if i == 136 {
        FunctionView {
            id: "timeFromString"@,
            uri: "urn:oasis:names:tc:xacml:3.0:function:time-from-string"@,
            ns: seq![SYSTEM_NS@],
            args: seq![InputView::Atomic("string"@)],
            wildcard: false,
            output: OutputView::Atomic("time"@),
        }
    } else if i == 137 {
        FunctionView {
            id: "stringFromTime"@,
            uri: "urn:oasis:names:tc:xacml:3.0:function:string-from-time"@,
            ns: seq![SYSTEM_NS@],
            args: seq![InputView::Atomic("time"@)],
            wildcard: false,
            output: OutputView::Atomic("string"@),
        }
    } else if i == 138 {
        FunctionView {
            id: "dateFromString"@,
            uri: "urn:oasis:names:tc:xacml:3.0:function:date-from-string"@,
            ns: seq![SYSTEM_NS@],
            args: seq![InputView::Atomic("string"@)],
            wildcard: false,
            output: OutputView::Atomic("date"@),
        }
    } else if i == 139 {
        FunctionView {
            id: "stringFromDate"@,
            uri: "urn:oasis:names:tc:xacml:3.0:function:string-from-date"@,
            ns: seq![SYSTEM_NS@],
            args: seq![InputView::Atomic("date"@)],
            wildcard: false,
            output: OutputView::Atomic("string"@),
        }
    } else if i == 140 {
        FunctionView {
            id: "dateTimeFromString"@,
            uri: "urn:oasis:names:tc:xacml:3.0:function:dateTime-from-string"@,
            ns: seq![SYSTEM_NS@],
            args: seq![InputView::Atomic("string"@)],
            wildcard: false,
            output: OutputView::Atomic("dateTime"@),
        }
    } else if i == 141 {
        FunctionView {
            id: "stringFromDateTime"@,
            uri: "urn:oasis:names:tc:xacml:3.0:function:string-from-dateTime"@,
            ns: seq![SYSTEM_NS@],
            args: seq![InputView::Atomic("dateTime"@)],
            wildcard: false,
            output: OutputView::Atomic("string"@),
        }
    } else if i == 142 {
        FunctionView {
            id: "anyURIFromString"@,
            uri: "urn:oasis:names:tc:xacml:3.0:function:anyURI-from-string"@,
            ns: seq![SYSTEM_NS@],
            args: seq![InputView::Atomic("string"@)],
            wildcard: false,
            output: OutputView::Atomic("anyURI"@),
        }
    } else if i == 143 {
        FunctionView {
            id: "stringFromAnyURI"@,
            uri: "urn:oasis:names:tc:xacml:3.0:function:string-from-anyURI"@,
            ns: seq![SYSTEM_NS@],
            args: seq![InputView::Atomic("anyURI"@)],
            wildcard: false,
            output: OutputView::Atomic("string"@),
        }
    } else if i == 144 {
        FunctionView {
            id: "dayTimeDurationFromString"@,
            uri: "urn:oasis:names:tc:xacml:3.0:function:dayTimeDuration-from-string"@,
            ns: seq![SYSTEM_NS@],
            args: seq![InputView::Atomic("string"@)],
            wildcard: false,
            output: OutputView::Atomic("dayTimeDuration"@),
        }
    } else if i == 145 {
        FunctionView {
            id: "stringFromDayTimeDuration"@,
            uri: "urn:oasis:names:tc:xacml:3.0:function:string-from-dayTimeDuration"@,
            ns: seq![SYSTEM_NS@],
            args: seq![InputView::Atomic("dayTimeDuration"@)],
            wildcard: false,
            output: OutputView::Atomic("string"@),
        }
    } else if i == 146 {
        FunctionView {
            id: "yearMonthDurationFromString"@,
            uri: "urn:oasis:names:tc:xacml:3.0:function:yearMonthDuration-from-string"@,
            ns: seq![SYSTEM_NS@],
            args: seq![InputView::Atomic("string"@)],
            wildcard: false,
            output: OutputView::Atomic("yearMonthDuration"@),
        }
    } else if i == 147 {
        FunctionView {
            id: "stringFromYearMonthDuration"@,
            uri: "urn:oasis:names:tc:xacml:3.0:function:string-from-yearMonthDuration"@,
            ns: seq![SYSTEM_NS@],
            args: seq![InputView::Atomic("yearMonthDuration"@)],
            wildcard: false,
            output: OutputView::Atomic("string"@),
        }
    } else if i == 148 {
        FunctionView {
            id: "x500NameFromString"@,
            uri: "urn:oasis:names:tc:xacml:3.0:function:x500Name-from-string"@,
            ns: seq![SYSTEM_NS@],
            args: seq![InputView::Atomic("string"@)],
            wildcard: false,
            output: OutputView::Atomic("x500Name"@),
        }
    } else if i == 149 {
        FunctionView {
            id: "stringFromX500Name"@,
            uri: "urn:oasis:names:tc:xacml:3.0:function:string-from-x500Name"@,
            ns: seq![SYSTEM_NS@],
            args: seq![InputView::Atomic("x500Name"@)],
            wildcard: false,
            output: OutputView::Atomic("string"@),
        }
    } else if i == 150 {
        FunctionView {
            id: "rfc822NameFromString"@,
            uri: "urn:oasis:names:tc:xacml:3.0:function:rfc822Name-from-string"@,
            ns: seq![SYSTEM_NS@],
            args: seq![InputView::Atomic("string"@)],
            wildcard: false,
            output: OutputView::Atomic("rfc822Name"@),
        }
    } else if i == 151 {
        FunctionView {
            id: "stringFromRfc822Name"@,
            uri: "urn:oasis:names:tc:xacml:3.0:function:string-from-rfc822Name"@,
            ns: seq![SYSTEM_NS@],
            args: seq![InputView::Atomic("rfc822Name"@)],
            wildcard: false,
            output: OutputView::Atomic("string"@),
        }
    } else if i == 152 {
        FunctionView {
            id: "ipAddressFromString"@,
            uri: "urn:oasis:names:tc:xacml:3.0:function:ipAddress-from-string"@,
            ns: seq![SYSTEM_NS@],
            args: seq![InputView::Atomic("string"@)],
            wildcard: false,
            output: OutputView::Atomic("ipAddress"@),
        }
    } else if i == 153 {
        FunctionView {
            id: "stringFromIpAddress"@,
            uri: "urn:oasis:names:tc:xacml:3.0:function:string-from-ipAddress"@,
            ns: seq![SYSTEM_NS@],
            args: seq![InputView::Atomic("ipAddress"@)],
            wildcard: false,
            output: OutputView::Atomic("string"@),
        }
    } else if i == 154 {
        FunctionView {
            id: "dnsNameFromString"@,
            uri: "urn:oasis:names:tc:xacml:3.0:function:dnsName-from-string"@,
            ns: seq![SYSTEM_NS@],
            args: seq![InputView::Atomic("string"@)],
            wildcard: false,
            output: OutputView::Atomic("dnsName"@),
        }
    } else if i == 155 {
        FunctionView {
            id: "stringFromDnsName"@,
            uri: "urn:oasis:names:tc:xacml:3.0:function:string-from-dnsName"@,
            ns: seq![SYSTEM_NS@],
            args: seq![InputView::Atomic("dnsName"@)],
            wildcard: false,
            output: OutputView::Atomic("string"@),
        }
    } else if i == 156 {
        FunctionView {
            id: "stringStartsWith"@,
            uri: "urn:oasis:names:tc:xacml:3.0:function:string-starts-with"@,
            ns: seq![SYSTEM_NS@],
            args: seq![InputView::Atomic("string"@), InputView::Atomic("string"@)],
            wildcard: false,
            output: OutputView::Atomic("boolean"@),
        }
    } else if i == 157 {
        FunctionView {
            id: "anyURIStartsWith"@,
            uri: "urn:oasis:names:tc:xacml:3.0:function:anyURI-starts-with"@,
            ns: seq![SYSTEM_NS@],
            args: seq![InputView::Atomic("string"@), InputView::Atomic("anyURI"@)],
            wildcard: false,
            output: OutputView::Atomic("boolean"@),
        }
    } else if i == 158 {
        FunctionView {
            id: "stringEndsWith"@,
            uri: "urn:oasis:names:tc:xacml:3.0:function:string-ends-with"@,
            ns: seq![SYSTEM_NS@],
            args: seq![InputView::Atomic("string"@), InputView::Atomic("string"@)],
            wildcard: false,
            output: OutputView::Atomic("boolean"@),
        }
    } else {
        FunctionView {
            id: "anyURIEndsWith"@,
            uri: "urn:oasis:names:tc:xacml:3.0:function:anyURI-ends-with"@,
            ns: seq![SYSTEM_NS@],
            args: seq![InputView::Atomic("string"@), InputView::Atomic("anyURI"@)],
            wildcard: false,
            output: OutputView::Atomic("boolean"@),
        }
    }
}

/// The rows 160 to 191 of the table of the built-in functions.
pub open spec fn function_row_6(i: int) -> FunctionView {
    if i == 160 {
        FunctionView {
            id: "stringContains"@,
            uri: "urn:oasis:names:tc:xacml:3.0:function:string-contains"@,
            ns: seq![SYSTEM_NS@],
            args: seq![InputView::Atomic("string"@), InputView::Atomic("string"@)],
            wildcard: false,
            output: OutputView::Atomic("boolean"@),
        }
    } else if i == 161 {
        FunctionView {
            id: "anyURIContains"@,
            uri: "urn:oasis:names:tc:xacml:3.0:function:anyURI-contains"@,
            ns: seq![SYSTEM_NS@],
            args: seq![InputView::Atomic("string"@), InputView::Atomic("anyURI"@)],
            wildcard: false,
            output: OutputView::Atomic("boolean"@),
        }
    } else if i == 162 {
        FunctionView {
            id: "stringSubstring"@,
            uri: "urn:oasis:names:tc:xacml:3.0:function:string-substring"@,
            ns: seq![SYSTEM_NS@],
            args: seq![InputView::Atomic("string"@), InputView::Atomic("integer"@), InputView::Atomic("integer"@)],
            wildcard: false,
            output: OutputView::Atomic("string"@),
        }
    } else if i == 163 {
        FunctionView {
            id: "anyURISubstring"@,
            uri: "urn:oasis:names:tc:xacml:3.0:function:anyURI-substring"@,
            ns: seq![SYSTEM_NS@],
            args: seq![InputView::Atomic("anyURI"@), InputView::Atomic("integer"@), InputView::Atomic("integer"@)],
            wildcard: false,
            output: OutputView::Atomic("string"@),
        }
    } else if i == 164 {
        FunctionView {
            id: "anyOf"@,
            uri: "urn:oasis:names:tc:xacml:3.0:function:any-of"@,
            ns: seq![SYSTEM_NS@],
            args: seq![InputView::Function, InputView::AnyAtomicOrBag, InputView::AnyAtomicOrBag],
            wildcard: true,
            output: OutputView::Atomic("boolean"@),
        }
    } else if i == 165 {
        FunctionView {
            id: "allOf"@,
            uri: "urn:oasis:names:tc:xacml:3.0:function:all-of"@,
            ns: seq![SYSTEM_NS@],
            args: seq![InputView::Function, InputView::AnyAtomicOrBag, InputView::AnyAtomicOrBag],
            wildcard: true,
            output: OutputView::Atomic("boolean"@),
        }
    } else if i == 166 {
        FunctionView {
            id: "anyOfAny"@,
            uri: "urn:oasis:names:tc:xacml:3.0:function:any-of-any"@,
            ns: seq![SYSTEM_NS@],
            args: seq![InputView::Function, InputView::AnyAtomicOrBag, InputView::AnyAtomicOrBag],
            wildcard: true,
            output: OutputView::Atomic("boolean"@),
        }
    } else if i == 167 {
        FunctionView {
            id: "allOfAny"@,
            uri: "urn:oasis:names:tc:xacml:1.0:function:all-of-any"@,
            ns: seq![SYSTEM_NS@],
            args: seq![InputView::Function, InputView::AnyAtomicBag, InputView::AnyAtomicBag],
            wildcard: false,
            output: OutputView::Atomic("boolean"@),
        }
    } else if i == 168 {
        FunctionView {
            id: "anyOfAll"@,
            uri: "urn:oasis:names:tc:xacml:1.0:function:any-of-all"@,
            ns: seq![SYSTEM_NS@],
            args: seq![InputView::Function, InputView::AnyAtomicBag, InputView::AnyAtomicBag],
            wildcard: false,
            output: OutputView::Atomic("boolean"@),
        }
    } else if i == 169 {
        FunctionView {
            id: "allOfAll"@,
            uri: "urn:oasis:names:tc:xacml:1.0:function:all-of-all"@,
            ns: seq![SYSTEM_NS@],
            args: seq![InputView::Function, InputView::AnyAtomicBag, InputView::AnyAtomicBag],
            wildcard: false,
            output: OutputView::Atomic("boolean"@),
        }
    } else if i == 170 {
        FunctionView {
            id: "map"@,
            uri: "urn:oasis:names:tc:xacml:3.0:function:map"@,
            ns: seq![SYSTEM_NS@],
            args: seq![InputView::Function, InputView::AnyAtomicOrBag, InputView::AnyAtomicOrBag],
            wildcard: true,
            output: OutputView::AnyAtomicBag,
        }
    } else if i == 171 {
        FunctionView {
            id: "x500NameMatch"@,
            uri: "urn:oasis:names:tc:xacml:1.0:function:x500Name-match"@,
            ns: seq![SYSTEM_NS@],
            args: seq![InputView::Atomic("x500Name"@), InputView::Atomic("x500Name"@)],
            wildcard: false,
            output: OutputView::Atomic("boolean"@),
        }
    } else if i == 172 {
        FunctionView {
            id: "rfc822NameMatch"@,
            uri: "urn:oasis:names:tc:xacml:1.0:function:rfc822Name-match"@,
            ns: seq![SYSTEM_NS@],
            args: seq![InputView::Atomic("string"@), InputView::Atomic("rfc822Name"@)],
            wildcard: false,
            output: OutputView::Atomic("boolean"@),
        }
    } else if i == 173 {
        FunctionView {
            id: "stringRegexpMatch"@,
            uri: "urn:oasis:names:tc:xacml:1.0:function:string-regexp-match"@,
            ns: seq![SYSTEM_NS@],
            args: seq![InputView::Atomic("string"@), InputView::Atomic("string"@)],
            wildcard: false,
            output: OutputView::Atomic("boolean"@),
        }
    } else if i == 174 {
        FunctionView {
            id: "anyURIRegexpMatch"@,
            uri: "urn:oasis:names:tc:xacml:2.0:function:anyURI-regexp-match"@,
            ns: seq![SYSTEM_NS@],
            args: seq![InputView::Atomic("string"@), InputView::Atomic("anyURI"@)],
            wildcard: false,
            output: OutputView::Atomic("boolean"@),
        }
    } else if i == 175 {
        FunctionView {
            id: "ipAddressRegexpMatch"@,
            uri: "urn:oasis:names:tc:xacml:2.0:function:ipAddress-regexp-match"@,
            ns: seq![SYSTEM_NS@],
            args: seq![InputView::Atomic("string"@), InputView::Atomic("ipAddress"@)],
            wildcard: false,
            output: OutputView::Atomic("boolean"@),
        }
    } else if i == 176 {
        FunctionView {
            id: "dnsNameRegexpMatch"@,
            uri: "urn:oasis:names:tc:xacml:2.0:function:dnsName-regexp-match"@,
            ns: seq![SYSTEM_NS@],
            args: seq![InputView::Atomic("string"@), InputView::Atomic("dnsName"@)],
            wildcard: false,
            output: OutputView::Atomic("boolean"@),
        }
    } else if i == 177 {
        FunctionView {
            id: "rfc822NameRegexpMatch"@,
            uri: "urn:oasis:names:tc:xacml:2.0:function:rfc822Name-regexp-match"@,
            ns: seq![SYSTEM_NS@],
            args: seq![InputView::Atomic("string"@), InputView::Atomic("rfc822Name"@)],
            wildcard: false,
            output: OutputView::Atomic("boolean"@),
        }
    } else if i == 178 {
        FunctionView {
            id: "x500NameRegexpMatch"@,
            uri: "urn:oasis:names:tc:xacml:2.0:function:x500Name-regexp-match"@,
            ns: seq![SYSTEM_NS@],
            args: seq![InputView::Atomic("string"@), InputView::Atomic("x500Name"@)],
            wildcard: false,
            output: OutputView::Atomic("boolean"@),
        }
    } else if i == 179 {
        FunctionView {
            id: "xpathNodeCount"@,
            uri: "urn:oasis:names:tc:xacml:3.0:function:xpath-node-count"@,
            ns: seq![SYSTEM_NS@],
            args: seq![InputView::Atomic("xpath"@)],
            wildcard: false,
            output: OutputView::Atomic("integer"@),
        }
    } else if i == 180 {
        FunctionView {
            id: "xpathNodeEqual"@,
            uri: "urn:oasis:names:tc:xacml:3.0:function:xpath-node-equal"@,
            ns: seq![SYSTEM_NS@],
            args: seq![InputView::Atomic("xpath"@), InputView::Atomic("xpath"@)],
            wildcard: false,
            output: OutputView::Atomic("boolean"@),
        }
    } else if i == 181 {
        FunctionView {
            id: "xpathNodeMatch"@,
            uri: "urn:oasis:names:tc:xacml:3.0:function:xpath-node-match"@,
            ns: seq![SYSTEM_NS@],
            args: seq![InputView::Atomic("xpath"@), InputView::Atomic("xpath"@)],
            wildcard: false,
            output: OutputView::Atomic("boolean"@),
        }
    } else if i == 182 {
        FunctionView {
            id: "stringIntersection"@,
            uri: "urn:oasis:names:tc:xacml:1.0:function:string-intersection"@,
            ns: seq![SYSTEM_NS@],
            args: seq![InputView::AtomicBag("string"@), InputView::AtomicBag("string"@)],
            wildcard: false,
            output: OutputView::AtomicBag("string"@),
        }
    } else if i == 183 {
        FunctionView {
            id: "stringAtLeastOneMemberOf"@,
            uri: "urn:oasis:names:tc:xacml:1.0:function:string-at-least-one-member-of"@,
            ns: seq![SYSTEM_NS@],
            args: seq![InputView::AtomicBag("string"@), InputView::AtomicBag("string"@)],
            wildcard: false,
            output: OutputView::Atomic("boolean"@),
        }
    } else if i == 184 {
        FunctionView {
            id: "stringUnion"@,
            uri: "urn:oasis:names:tc:xacml:1.0:function:string-union"@,
            ns: seq![SYSTEM_NS@],
            args: seq![InputView::AtomicBag("string"@), InputView::AtomicBag("string"@), InputView::AtomicBag("string"@)],
            wildcard: true,
            output: OutputView::AtomicBag("string"@),
        }
    } else if i == 185 {
        FunctionView {
            id: "stringSubset"@,
            uri: "urn:oasis:names:tc:xacml:1.0:function:string-subset"@,
            ns: seq![SYSTEM_NS@],
            args: seq![InputView::AtomicBag("string"@), InputView::AtomicBag("string"@)],
            wildcard: false,
            output: OutputView::Atomic("boolean"@),
        }
    } else if i == 186 {
        FunctionView {
            id: "stringSetEquals"@,
            uri: "urn:oasis:names:tc:xacml:1.0:function:string-set-equals"@,
            ns: seq![SYSTEM_NS@],
            args: seq![InputView::AtomicBag("string"@), InputView::AtomicBag("string"@)],
            wildcard: false,
            output: OutputView::Atomic("boolean"@),
        }
    } else if i == 187 {
        FunctionView {
            id: "booleanIntersection"@,
            uri: "urn:oasis:names:tc:xacml:1.0:function:boolean-intersection"@,
            ns: seq![SYSTEM_NS@],
            args: seq![InputView::AtomicBag("boolean"@), InputView::AtomicBag("boolean"@)],
            wildcard: false,
            output: OutputView::AtomicBag("boolean"@),
        }
    } else if i == 188 {
        FunctionView {
            id: "booleanAtLeastOneMemberOf"@,
            uri: "urn:oasis:names:tc:xacml:1.0:function:boolean-at-least-one-member-of"@,
            ns: seq![SYSTEM_NS@],
            args: seq![InputView::AtomicBag("boolean"@), InputView::AtomicBag("boolean"@)],
            wildcard: false,
            output: OutputView::Atomic("boolean"@),
        }
    } else if i == 189 {
        FunctionView {
            id: "booleanUnion"@,
            uri: "urn:oasis:names:tc:xacml:1.0:function:boolean-union"@,
            ns: seq![SYSTEM_NS@],
            args: seq![InputView::AtomicBag("boolean"@), InputView::AtomicBag("boolean"@), InputView::AtomicBag("boolean"@)],
            wildcard: true,
            output: OutputView::AtomicBag("boolean"@),
        }
    } else if i == 190 {
        FunctionView {
            id: "booleanSubset"@,
            uri: "urn:oasis:names:tc:xacml:1.0:function:boolean-subset"@,
            ns: seq![SYSTEM_NS@],
            args: seq![InputView::AtomicBag("boolean"@), InputView::AtomicBag("boolean"@)],
            wildcard: false,
            output: OutputView::Atomic("boolean"@),
        }
    } else {
        FunctionView {
            id: "booleanSetEquals"@,
            uri: "urn:oasis:names:tc:xacml:1.0:function:boolean-set-equals"@,
            ns: seq![SYSTEM_NS@],
            args: seq![InputView::AtomicBag("boolean"@), InputView::AtomicBag("boolean"@)],
            wildcard: false,
            output: OutputView::Atomic("boolean"@),
        }
    }
}

/// The rows 192 to 223 of the table of the built-in functions.
pub open spec fn function_row_7(i: int) -> FunctionView {
    if i == 192 {
        FunctionView {
            id: "integerIntersection"@,
            uri: "urn:oasis:names:tc:xacml:1.0:function:integer-intersection"@,
            ns: seq![SYSTEM_NS@],
            args: seq![InputView::AtomicBag("integer"@), InputView::AtomicBag("integer"@)],
            wildcard: false,
            output: OutputView::AtomicBag("integer"@),
        }
    } else if i == 193 {
        FunctionView {
            id: "integerAtLeastOneMemberOf"@,
            uri: "urn:oasis:names:tc:xacml:1.0:function:integer-at-least-one-member-of"@,
            ns: seq![SYSTEM_NS@],
            args: seq![InputView::AtomicBag("integer"@), InputView::AtomicBag("integer"@)],
            wildcard: false,
            output: OutputView::Atomic("boolean"@),
        }
    } else if i == 194 {
        FunctionView {
            id: "integerUnion"@,
            uri: "urn:oasis:names:tc:xacml:1.0:function:integer-union"@,
            ns: seq![SYSTEM_NS@],
            args: seq![InputView::AtomicBag("integer"@), InputView::AtomicBag("integer"@), InputView::AtomicBag("integer"@)],
            wildcard: true,
            output: OutputView::AtomicBag("integer"@),
        }
    } else if i == 195 {
        FunctionView {
            id: "integerSubset"@,
            uri: "urn:oasis:names:tc:xacml:1.0:function:integer-subset"@,
            ns: seq![SYSTEM_NS@],
            args: seq![InputView::AtomicBag("integer"@), InputView::AtomicBag("integer"@)],
            wildcard: false,
            output: OutputView::Atomic("boolean"@),
        }
    } else if i == 196 {
        FunctionView {
            id: "integerSetEquals"@,
            uri: "urn:oasis:names:tc:xacml:1.0:function:integer-set-equals"@,
            ns: seq![SYSTEM_NS@],
            args: seq![InputView::AtomicBag("integer"@), InputView::AtomicBag("integer"@)],
            wildcard: false,
            output: OutputView::Atomic("boolean"@),
        }
    } else if i == 197 {
        FunctionView {
            id: "doubleIntersection"@,
            uri: "urn:oasis:names:tc:xacml:1.0:function:double-intersection"@,
            ns: seq![SYSTEM_NS@],
            args: seq![InputView::AtomicBag("double"@), InputView::AtomicBag("double"@)],
            wildcard: false,
            output: OutputView::AtomicBag("double"@),
        }
    } else if i == 198 {
        FunctionView {
            id: "doubleAtLeastOneMemberOf"@,
            uri: "urn:oasis:names:tc:xacml:1.0:function:double-at-least-one-member-of"@,
            ns: seq![SYSTEM_NS@],
            args: seq![InputView::AtomicBag("double"@), InputView::AtomicBag("double"@)],
            wildcard: false,
            output: OutputView::Atomic("boolean"@),
        }
    } else if i == 199 {
        FunctionView {
            id: "doubleUnion"@,
            uri: "urn:oasis:names:tc:xacml:1.0:function:double-union"@,
            ns: seq![SYSTEM_NS@],
            args: seq![InputView::AtomicBag("double"@), InputView::AtomicBag("double"@), InputView::AtomicBag("double"@)],
            wildcard: true,
            output: OutputView::AtomicBag("double"@),
        }
    } else if i == 200 {
        FunctionView {
            id: "doubleSubset"@,
            uri: "urn:oasis:names:tc:xacml:1.0:function:double-subset"@,
            ns: seq![SYSTEM_NS@],
            args: seq![InputView::AtomicBag("double"@), InputView::AtomicBag("double"@)],
            wildcard: false,
            output: OutputView::Atomic("boolean"@),
        }
    } else if i == 201 {
        FunctionView {
            id: "doubleSetEquals"@,
            uri: "urn:oasis:names:tc:xacml:1.0:function:double-set-equals"@,
            ns: seq![SYSTEM_NS@],
            args: seq![InputView::AtomicBag("double"@), InputView::AtomicBag("double"@)],
            wildcard: false,
            output: OutputView::Atomic("boolean"@),
        }
    } else if i == 202 {
        FunctionView {
            id: "timeIntersection"@,
            uri: "urn:oasis:names:tc:xacml:1.0:function:time-intersection"@,
            ns: seq![SYSTEM_NS@],
            args: seq![InputView::AtomicBag("time"@), InputView::AtomicBag("time"@)],
            wildcard: false,
            output: OutputView::AtomicBag("time"@),
        }
    } else if i == 203 {
        FunctionView {
            id: "timeAtLeastOneMemberOf"@,
            uri: "urn:oasis:names:tc:xacml:1.0:function:time-at-least-one-member-of"@,
            ns: seq![SYSTEM_NS@],
            args: seq![InputView::AtomicBag("time"@), InputView::AtomicBag("time"@)],
            wildcard: false,
            output: OutputView::Atomic("boolean"@),
        }
    } else if i == 204 {
        FunctionView {
            id: "timeUnion"@,
            uri: "urn:oasis:names:tc:xacml:1.0:function:time-union"@,
            ns: seq![SYSTEM_NS@],
            args: seq![InputView::AtomicBag("time"@), InputView::AtomicBag("time"@), InputView::AtomicBag("time"@)],
            wildcard: true,
            output: OutputView::AtomicBag("time"@),
        }
    } else if i == 205 {
        FunctionView {
            id: "timeSubset"@,
            uri: "urn:oasis:names:tc:xacml:1.0:function:time-subset"@,
            ns: seq![SYSTEM_NS@],
            args: seq![InputView::AtomicBag("time"@), InputView::AtomicBag("time"@)],
            wildcard: false,
            output: OutputView::Atomic("boolean"@),
        }
    } else if i == 206 {
        FunctionView {
            id: "timeSetEquals"@,
            uri: "urn:oasis:names:tc:xacml:1.0:function:time-set-equals"@,
            ns: seq![SYSTEM_NS@],
            args: seq![InputView::AtomicBag("time"@), InputView::AtomicBag("time"@)],
            wildcard: false,
            output: OutputView::Atomic("boolean"@),
        }
    } else if i == 207 {
        FunctionView {
            id: "dateIntersection"@,
            uri: "urn:oasis:names:tc:xacml:1.0:function:date-intersection"@,
            ns: seq![SYSTEM_NS@],
            args: seq![InputView::AtomicBag("date"@), InputView::AtomicBag("date"@)],
            wildcard: false,
            output: OutputView::AtomicBag("date"@),
        }
    } else if i == 208 {
        FunctionView {
            id: "dateAtLeastOneMemberOf"@,
            uri: "urn:oasis:names:tc:xacml:1.0:function:date-at-least-one-member-of"@,
            ns: seq![SYSTEM_NS@],
            args: seq![InputView::AtomicBag("date"@), InputView::AtomicBag("date"@)],
            wildcard: false,
            output: OutputView::Atomic("boolean"@),
        }
    } else if i == 209 {
        FunctionView {
            id: "dateUnion"@,
            uri: "urn:oasis:names:tc:xacml:1.0:function:date-union"@,
            ns: seq![SYSTEM_NS@],
            args: seq![InputView::AtomicBag("date"@), InputView::AtomicBag("date"@), InputView::AtomicBag("date"@)],
            wildcard: true,
            output: OutputView::AtomicBag("date"@),
        }
    } else if i == 210 {
        FunctionView {
            id: "dateSubset"@,
            uri: "urn:oasis:names:tc:xacml:1.0:function:date-subset"@,
            ns: seq![SYSTEM_NS@],
            args: seq![InputView::AtomicBag("date"@), InputView::AtomicBag("date"@)],
            wildcard: false,
            output: OutputView::Atomic("boolean"@),
        }
    } else if i == 211 {
        FunctionView {
            id: "dateSetEquals"@,
            uri: "urn:oasis:names:tc:xacml:1.0:function:date-set-equals"@,
            ns: seq![SYSTEM_NS@],
            args: seq![InputView::AtomicBag("date"@), InputView::AtomicBag("date"@)],
            wildcard: false,
            output: OutputView::Atomic("boolean"@),
        }
    } else if i == 212 {
        FunctionView {
            id: "dateTimeIntersection"@,
            uri: "urn:oasis:names:tc:xacml:1.0:function:dateTime-intersection"@,
            ns: seq![SYSTEM_NS@],
            args: seq![InputView::AtomicBag("dateTime"@), InputView::AtomicBag("dateTime"@)],
            wildcard: false,
            output: OutputView::AtomicBag("dateTime"@),
        }
    } else if i == 213 {
        FunctionView {
            id: "dateTimeAtLeastOneMemberOf"@,
            uri: "urn:oasis:names:tc:xacml:1.0:function:dateTime-at-least-one-member-of"@,
            ns: seq![SYSTEM_NS@],
            args: seq![InputView::AtomicBag("dateTime"@), InputView::AtomicBag("dateTime"@)],
            wildcard: false,
            output: OutputView::Atomic("boolean"@),
        }
    } else if i == 214 {
        FunctionView {
            id: "dateTimeUnion"@,
            uri: "urn:oasis:names:tc:xacml:1.0:function:dateTime-union"@,
            ns: seq![SYSTEM_NS@],
            args: seq![InputView::AtomicBag("dateTime"@), InputView::AtomicBag("dateTime"@), InputView::AtomicBag("dateTime"@)],
            wildcard: true,
            output: OutputView::AtomicBag("dateTime"@),
        }
    } else if i == 215 {
        FunctionView {
            id: "dateTimeSubset"@,
            uri: "urn:oasis:names:tc:xacml:1.0:function:dateTime-subset"@,
            ns: seq![SYSTEM_NS@],
            args: seq![InputView::AtomicBag("dateTime"@), InputView::AtomicBag("dateTime"@)],
            wildcard: false,
            output: OutputView::Atomic("boolean"@),
        }
    } else if i == 216 {
        FunctionView {
            id: "dateTimeSetEquals"@,
            uri: "urn:oasis:names:tc:xacml:1.0:function:dateTime-set-equals"@,
            ns: seq![SYSTEM_NS@],
            args: seq![InputView::AtomicBag("dateTime"@), InputView::AtomicBag("dateTime"@)],
            wildcard: false,
            output: OutputView::Atomic("boolean"@),
        }
    } else if i == 217 {
        FunctionView {
            id: "anyURIIntersection"@,
            uri: "urn:oasis:names:tc:xacml:1.0:function:anyURI-intersection"@,
            ns: seq![SYSTEM_NS@],
            args: seq![InputView::AtomicBag("anyURI"@), InputView::AtomicBag("anyURI"@)],
            wildcard: false,
            output: OutputView::AtomicBag("anyURI"@),
        }
    } else if i == 218 {
        FunctionView {
            id: "anyURIAtLeastOneMemberOf"@,
            uri: "urn:oasis:names:tc:xacml:1.0:function:anyURI-at-least-one-member-of"@,
            ns: seq![SYSTEM_NS@],
            args: seq![InputView::AtomicBag("anyURI"@), InputView::AtomicBag("anyURI"@)],
            wildcard: false,
            output: OutputView::Atomic("boolean"@),
        }
    } else if i == 219 {
        FunctionView {
            id: "anyURIUnion"@,
            uri: "urn:oasis:names:tc:xacml:1.0:function:anyURI-union"@,
            ns: seq![SYSTEM_NS@],
            args: seq![InputView::AtomicBag("anyURI"@), InputView::AtomicBag("anyURI"@), InputView::AtomicBag("anyURI"@)],
            wildcard: true,
            output: OutputView::AtomicBag("anyURI"@),
        }
    } else if i == 220 {
        FunctionView {
            id: "anyURISubset"@,
            uri: "urn:oasis:names:tc:xacml:1.0:function:anyURI-subset"@,
            ns: seq![SYSTEM_NS@],
            args: seq![InputView::AtomicBag("anyURI"@), InputView::AtomicBag("anyURI"@)],
            wildcard: false,
            output: OutputView::Atomic("boolean"@),
        }
    } else if i == 221 {
        FunctionView {
            id: "anyURISetEquals"@,
            uri: "urn:oasis:names:tc:xacml:1.0:function:anyURI-set-equals"@,
            ns: seq![SYSTEM_NS@],
            args: seq![InputView::AtomicBag("anyURI"@), InputView::AtomicBag("anyURI"@)],
            wildcard: false,
            output: OutputView::Atomic("boolean"@),
        }
    } else if i == 222 {
        FunctionView {
            id: "hexBinaryIntersection"@,
            uri: "urn:oasis:names:tc:xacml:1.0:function:hexBinary-intersection"@,
            ns: seq![SYSTEM_NS@],
            args: seq![InputView::AtomicBag("hexBinary"@), InputView::AtomicBag("hexBinary"@)],
            wildcard: false,
            output: OutputView::AtomicBag("hexBinary"@),
        }
    } else {
        FunctionView {
            id: "hexBinaryAtLeastOneMemberOf"@,
            uri: "urn:oasis:names:tc:xacml:1.0:function:hexBinary-at-least-one-member-of"@,
            ns: seq![SYSTEM_NS@],
            args: seq![InputView::AtomicBag("hexBinary"@), InputView::AtomicBag("hexBinary"@)],
            wildcard: false,
            output: OutputView::Atomic("boolean"@),
        }
    }
}

/// The rows 224 to 252 of the table of the built-in functions.
pub open spec fn function_row_8(i: int) -> FunctionView {
    if i == 224 {
        FunctionView {
            id: "hexBinaryUnion"@,
            uri: "urn:oasis:names:tc:xacml:1.0:function:hexBinary-union"@,
            ns: seq![SYSTEM_NS@],
            args: seq![InputView::AtomicBag("hexBinary"@), InputView::AtomicBag("hexBinary"@), InputView::AtomicBag("hexBinary"@)],
            wildcard: true,
            output: OutputView::AtomicBag("hexBinary"@),
        }
    } else if i == 225 {
        FunctionView {
            id: "hexBinarySubset"@,
            uri: "urn:oasis:names:tc:xacml:1.0:function:hexBinary-subset"@,
            ns: seq![SYSTEM_NS@],
            args: seq![InputView::AtomicBag("hexBinary"@), InputView::AtomicBag("hexBinary"@)],
            wildcard: false,
            output: OutputView::Atomic("boolean"@),
        }
    } else if i == 226 {
        FunctionView {
            id: "hexBinarySetEquals"@,
            uri: "urn:oasis:names:tc:xacml:1.0:function:hexBinary-set-equals"@,
            ns: seq![SYSTEM_NS@],
            args: seq![InputView::AtomicBag("hexBinary"@), InputView::AtomicBag("hexBinary"@)],
            wildcard: false,
            output: OutputView::Atomic("boolean"@),
        }
    } else if i == 227 {
        FunctionView {
            id: "base64BinaryIntersection"@,
            uri: "urn:oasis:names:tc:xacml:1.0:function:base64Binary-intersection"@,
            ns: seq![SYSTEM_NS@],
            args: seq![InputView::AtomicBag("base64Binary"@), InputView::AtomicBag("base64Binary"@)],
            wildcard: false,
            output: OutputView::AtomicBag("base64Binary"@),
        }
    } else if i == 228 {
        FunctionView {
            id: "base64BinaryAtLeastOneMemberOf"@,
            uri: "urn:oasis:names:tc:xacml:1.0:function:base64Binary-at-least-one-member-of"@,
            ns: seq![SYSTEM_NS@],
            args: seq![InputView::AtomicBag("base64Binary"@), InputView::AtomicBag("base64Binary"@)],
            wildcard: false,
            output: OutputView::Atomic("boolean"@),
        }
    } else if i == 229 {
        FunctionView {
            id: "base64BinaryUnion"@,
            uri: "urn:oasis:names:tc:xacml:1.0:function:base64Binary-union"@,
            ns: seq![SYSTEM_NS@],
            args: seq![InputView::AtomicBag("base64Binary"@), InputView::AtomicBag("base64Binary"@), InputView::AtomicBag("base64Binary"@)],
            wildcard: true,
            output: OutputView::AtomicBag("base64Binary"@),
        }
    } else if i == 230 {
        FunctionView {
            id: "base64BinarySubset"@,
            uri: "urn:oasis:names:tc:xacml:1.0:function:base64Binary-subset"@,
            ns: seq![SYSTEM_NS@],
            args: seq![InputView::AtomicBag("base64Binary"@), InputView::AtomicBag("base64Binary"@)],
            wildcard: false,
            output: OutputView::Atomic("boolean"@),
        }
    } else if i == 231 {
        FunctionView {
            id: "base64BinarySetEquals"@,
            uri: "urn:oasis:names:tc:xacml:1.0:function:base64Binary-set-equals"@,
            ns: seq![SYSTEM_NS@],
            args: seq![InputView::AtomicBag("base64Binary"@), InputView::AtomicBag("base64Binary"@)],
            wildcard: false,
            output: OutputView::Atomic("boolean"@),
        }
    } else if i == 232 {
        FunctionView {
            id: "dayTimeDurationIntersection"@,
            uri: "urn:oasis:names:tc:xacml:3.0:function:dayTimeDuration-intersection"@,
            ns: seq![SYSTEM_NS@],
            args: seq![InputView::AtomicBag("dayTimeDuration"@), InputView::AtomicBag("dayTimeDuration"@)],
            wildcard: false,
            output: OutputView::AtomicBag("dayTimeDuration"@),
        }
    } else if i == 233 {
        FunctionView {
            id: "dayTimeDurationAtLeastOneMemberOf"@,
            uri: "urn:oasis:names:tc:xacml:3.0:function:dayTimeDuration-at-least-one-member-of"@,
            ns: seq![SYSTEM_NS@],
            args: seq![InputView::AtomicBag("dayTimeDuration"@), InputView::AtomicBag("dayTimeDuration"@)],
            wildcard: false,
            output: OutputView::Atomic("boolean"@),
        }
    } else if i == 234 {
        FunctionView {
            id: "dayTimeDurationUnion"@,
            uri: "urn:oasis:names:tc:xacml:3.0:function:dayTimeDuration-union"@,
            ns: seq![SYSTEM_NS@],
            args: seq![InputView::AtomicBag("dayTimeDuration"@), InputView::AtomicBag("dayTimeDuration"@), InputView::AtomicBag("dayTimeDuration"@)],
            wildcard: true,
            output: OutputView::AtomicBag("dayTimeDuration"@),
        }
    } else if i == 235 {
        FunctionView {
            id: "dayTimeDurationSubset"@,
            uri: "urn:oasis:names:tc:xacml:3.0:function:dayTimeDuration-subset"@,
            ns: seq![SYSTEM_NS@],
            args: seq![InputView::AtomicBag("dayTimeDuration"@), InputView::AtomicBag("dayTimeDuration"@)],
            wildcard: false,
            output: OutputView::Atomic("boolean"@),
        }
    } else if i == 236 {
        FunctionView {
            id: "dayTimeDurationSetEquals"@,
            uri: "urn:oasis:names:tc:xacml:3.0:function:dayTimeDuration-set-equals"@,
            ns: seq![SYSTEM_NS@],
            args: seq![InputView::AtomicBag("dayTimeDuration"@), InputView::AtomicBag("dayTimeDuration"@)],
            wildcard: false,
            output: OutputView::Atomic("boolean"@),
        }
    } else if i == 237 {
        FunctionView {
            id: "yearMonthDurationIntersection"@,
            uri: "urn:oasis:names:tc:xacml:3.0:function:yearMonthDuration-intersection"@,
            ns: seq![SYSTEM_NS@],
            args: seq![InputView::AtomicBag("yearMonthDuration"@), InputView::AtomicBag("yearMonthDuration"@)],
            wildcard: false,
            output: OutputView::AtomicBag("yearMonthDuration"@),
        }
    } else if i == 238 {
        FunctionView {
            id: "yearMonthDurationAtLeastOneMemberOf"@,
            uri: "urn:oasis:names:tc:xacml:3.0:function:yearMonthDuration-at-least-one-member-of"@,
            ns: seq![SYSTEM_NS@],
            args: seq![InputView::AtomicBag("yearMonthDuration"@), InputView::AtomicBag("yearMonthDuration"@)],
            wildcard: false,
            output: OutputView::Atomic("boolean"@),
        }
    } else if i == 239 {
        FunctionView {
            id: "yearMonthDurationUnion"@,
            uri: "urn:oasis:names:tc:xacml:3.0:function:yearMonthDuration-union"@,
            ns: seq![SYSTEM_NS@],
            args: seq![InputView::AtomicBag("yearMonthDuration"@), InputView::AtomicBag("yearMonthDuration"@), InputView::AtomicBag("yearMonthDuration"@)],
            wildcard: true,
            output: OutputView::AtomicBag("yearMonthDuration"@),
        }
    } else if i == 240 {
        FunctionView {
            id: "yearMonthDurationSubset"@,
            uri: "urn:oasis:names:tc:xacml:3.0:function:yearMonthDuration-subset"@,
            ns: seq![SYSTEM_NS@],
            args: seq![InputView::AtomicBag("yearMonthDuration"@), InputView::AtomicBag("yearMonthDuration"@)],
            wildcard: false,
            output: OutputView::Atomic("boolean"@),
        }
    } else if i == 241 {
        FunctionView {
            id: "yearMonthDurationSetEquals"@,
            uri: "urn:oasis:names:tc:xacml:3.0:function:yearMonthDuration-set-equals"@,
            ns: seq![SYSTEM_NS@],
            args: seq![InputView::AtomicBag("yearMonthDuration"@), InputView::AtomicBag("yearMonthDuration"@)],
            wildcard: false,
            output: OutputView::Atomic("boolean"@),
        }
    } else if i == 242 {
        FunctionView {
            id: "x500NameIntersection"@,
            uri: "urn:oasis:names:tc:xacml:1.0:function:x500Name-intersection"@,
            ns: seq![SYSTEM_NS@],
            args: seq![InputView::AtomicBag("x500Name"@), InputView::AtomicBag("x500Name"@)],
            wildcard: false,
            output: OutputView::AtomicBag("x500Name"@),
        }
    } else if i == 243 {
        FunctionView {
            id: "x500NameAtLeastOneMemberOf"@,
            uri: "urn:oasis:names:tc:xacml:1.0:function:x500Name-at-least-one-member-of"@,
            ns: seq![SYSTEM_NS@],
            args: seq![InputView::AtomicBag("x500Name"@), InputView::AtomicBag("x500Name"@)],
            wildcard: false,
            output: OutputView::Atomic("boolean"@),
        }
    } else if i == 244 {
        FunctionView {
            id: "x500NameUnion"@,
            uri: "urn:oasis:names:tc:xacml:1.0:function:x500Name-union"@,
            ns: seq![SYSTEM_NS@],
            args: seq![InputView::AtomicBag("x500Name"@), InputView::AtomicBag("x500Name"@), InputView::AtomicBag("x500Name"@)],
            wildcard: true,
            output: OutputView::AtomicBag("x500Name"@),
        }
    } else if i == 245 {
        FunctionView {
            id: "x500NameSubset"@,
            uri: "urn:oasis:names:tc:xacml:1.0:function:x500Name-subset"@,
            ns: seq![SYSTEM_NS@],
            args: seq![InputView::AtomicBag("x500Name"@), InputView::AtomicBag("x500Name"@)],
            wildcard: false,
            output: OutputView::Atomic("boolean"@),
        }
    } else if i == 246 {
        FunctionView {
            id: "x500NameSetEquals"@,
            uri: "urn:oasis:names:tc:xacml:1.0:function:x500Name-set-equals"@,
            ns: seq![SYSTEM_NS@],
            args: seq![InputView::AtomicBag("x500Name"@), InputView::AtomicBag("x500Name"@)],
            wildcard: false,
            output: OutputView::Atomic("boolean"@),
        }
    } else if i == 247 {
        FunctionView {
            id: "rfc822NameIntersection"@,
            uri: "urn:oasis:names:tc:xacml:1.0:function:rfc822Name-intersection"@,
            ns: seq![SYSTEM_NS@],
            args: seq![InputView::AtomicBag("rfc822Name"@), InputView::AtomicBag("rfc822Name"@)],
            wildcard: false,
            output: OutputView::AtomicBag("rfc822Name"@),
        }
    } else if i == 248 {
        FunctionView {
            id: "rfc822NameAtLeastOneMemberOf"@,
            uri: "urn:oasis:names:tc:xacml:1.0:function:rfc822Name-at-least-one-member-of"@,
            ns: seq![SYSTEM_NS@],
            args: seq![InputView::AtomicBag("rfc822Name"@), InputView::AtomicBag("rfc822Name"@)],
            wildcard: false,
            output: OutputView::Atomic("boolean"@),
        }
    } else if i == 249 {
        FunctionView {
            id: "rfc822NameUnion"@,
            uri: "urn:oasis:names:tc:xacml:1.0:function:rfc822Name-union"@,
            ns: seq![SYSTEM_NS@],
            args: seq![InputView::AtomicBag("rfc822Name"@), InputView::AtomicBag("rfc822Name"@), InputView::AtomicBag("rfc822Name"@)],
            wildcard: true,
            output: OutputView::AtomicBag("rfc822Name"@),
        }
    } else if i == 250 {
        FunctionView {
            id: "rfc822NameSubset"@,
            uri: "urn:oasis:names:tc:xacml:1.0:function:rfc822Name-subset"@,
            ns: seq![SYSTEM_NS@],
            args: seq![InputView::AtomicBag("rfc822Name"@), InputView::AtomicBag("rfc822Name"@)],
            wildcard: false,
            output: OutputView::Atomic("boolean"@),
        }
    } else if i == 251 {
        FunctionView {
            id: "rfc822NameSetEquals"@,
            uri: "urn:oasis:names:tc:xacml:1.0:function:rfc822Name-set-equals"@,
            ns: seq![SYSTEM_NS@],
            args: seq![InputView::AtomicBag("rfc822Name"@), InputView::AtomicBag("rfc822Name"@)],
            wildcard: false,
            output: OutputView::Atomic("boolean"@),
        }
    } else {
        FunctionView {
            id: "accessPermitted"@,
            uri: "urn:oasis:names:tc:xacml:3.0:function:access-permitted"@,
            ns: seq![SYSTEM_NS@],
            args: seq![InputView::Atomic("anyURI"@), InputView::Atomic("string"@)],
            wildcard: false,
            output: OutputView::Atomic("boolean"@),
        }
    }
}

/// The table of the built-in functions: what the function at the place `i` declares.
/// The places count from 0, in the order of declaration; there are 253.
pub open spec fn function_row(i: int) -> FunctionView {
    if i < 32 {
        function_row_1(i)
    } else if i < 64 {
        function_row_2(i)
    } else if i < 96 {
        function_row_3(i)
    } else if i < 128 {
        function_row_4(i)
    } else if i < 160 {
        function_row_5(i)
    } else if i < 192 {
        function_row_6(i)
    } else if i < 224 {
        function_row_7(i)
    } else {
        function_row_8(i)
    }
}

/// The place in the table of the built-in function named `name`, and -1 for a
/// name that the table lacks.
pub open spec fn function_place(name: Seq<char>) -> int {
    if name.len() == 3 {
        if name[1] == 'O' {
            if name == "nOf"@ {
                34
            } else {
                -1
            }
        } else if name[1] == 'a' {
            if name == "map"@ {
                170
            } else {
                -1
            }
        } else if name[1] == 'o' {
            if name == "not"@ {
                35
            } else {
                -1
            }
        } else {
            -1
        }
    } else if name.len() == 5 {
        if name[2] == 'l' {
            if name == "allOf"@ {
                165
            } else {
                -1
            }
        } else if name[2] == 'o' {
            if name == "floor"@ {
                27
            } else {
                -1
            }
        } else if name[2] == 'u' {
            if name == "round"@ {
                26
            } else {
                -1
            }
        } else if name[2] == 'y' {
            if name == "anyOf"@ {
                164
            } else {
                -1
            }
        } else {
            -1
        }
    } else if name.len() == 7 {
        if name[0] == 'd' {
            if name == "dateBag"@ {
                90
            } else {
                -1
            }
        } else if name[0] == 't' {
            if name == "timeBag"@ {
                86
            } else {
                -1
            }
        } else {
            -1
        }
    } else if name.len() == 8 {
        if name[1] == 'a' {
            if name == "dateIsIn"@ {
                89
            } else {
                -1
            }
        } else if name[1] == 'i' {
            if name == "timeIsIn"@ {
                85
            } else {
                -1
            }
        } else if name[1] == 'l' {
            if name[6] == 'l' {
                if name == "allOfAll"@ {
                    169
                } else {
                    -1
                }
            } else if name[6] == 'n' {
                if name == "allOfAny"@ {
                    167
                } else {
                    -1
                }
            } else {
                -1
            }
        } else if name[1] == 'n' {
            if name[6] == 'l' {
                if name == "anyOfAll"@ {
                    168
                } else {
                    -1
                }
            } else if name[6] == 'n' {
                if name == "anyOfAny"@ {
                    166
                } else {
                    -1
                }
            } else {
                -1
            }
        } else {
            -1
        }
    } else if name.len() == 9 {
        if name[1] == 'a' {
            if name[4] == 'E' {
                if name == "dateEqual"@ {
                    4
                } else {
                    -1
                }
            } else if name[4] == 'U' {
                if name == "dateUnion"@ {
                    209
                } else {
                    -1
                }
            } else {
                -1
            }
        } else if name[1] == 'i' {
            if name[4] == 'E' {
                if name == "timeEqual"@ {
                    5
                } else {
                    -1
                }
            } else if name[4] == 'U' {
                if name == "timeUnion"@ {
                    204
                } else {
                    -1
                }
            } else {
                -1
            }
        } else if name[1] == 'n' {
            if name == "anyURIBag"@ {
                98
            } else {
                -1
            }
        } else if name[1] == 'o' {
            if name[7] == 'a' {
                if name == "doubleBag"@ {
                    82
                } else {
                    -1
                }
            } else if name[7] == 'b' {
                if name == "doubleAbs"@ {
                    25
                } else {
                    -1
                }
            } else if name[7] == 'd' {
                if name == "doubleAdd"@ {
                    16
                } else {
                    -1
                }
            } else {
                -1
            }
        } else if name[1] == 't' {
            if name == "stringBag"@ {
                70
            } else {
                -1
            }
        } else {
            -1
        }
    } else if name.len() == 10 {
        if name[2] == 'F' {
            if name == "orFunction"@ {
                32
            } else {
                -1
            }
        } else if name[2] == 'm' {
            if name == "timeSubset"@ {
                205
            } else {
                -1
            }
        } else if name[2] == 'o' {
            if name == "booleanBag"@ {
                74
            } else {
                -1
            }
        } else if name[2] == 'r' {
            if name == "stringIsIn"@ {
                69
            } else {
                -1
            }
        } else if name[2] == 's' {
            if name == "dnsNameBag"@ {
                128
            } else {
                -1
            }
        } else if name[2] == 't' {
            if name[8] == 'a' {
                if name == "integerBag"@ {
                    78
                } else {
                    -1
                }
            } else if name[8] == 'b' {
                if name == "integerAbs"@ {
                    24
                } else {
                    -1
                }
            } else if name[8] == 'd' {
                if name == "integerAdd"@ {
                    15
                } else {
                    -1
                }
            } else if name[8] == 'e' {
                if name == "dateSubset"@ {
                    210
                } else {
                    -1
                }
            } else if name[8] == 'o' {
                if name == "integerMod"@ {
                    23
                } else {
                    -1
                }
            } else {
                -1
            }
        } else if name[2] == 'u' {
            if name == "doubleIsIn"@ {
                81
            } else {
                -1
            }
        } else if name[2] == 'y' {
            if name == "anyURIIsIn"@ {
                97
            } else {
                -1
            }
        } else {
            -1
        }
    } else if name.len() == 11 {
        if name[4] == 'B' {
            if name[0] == 'd' {
                if name == "dateBagSize"@ {
                    88
                } else {
                    -1
                }
            } else if name[0] == 't' {
                if name == "timeBagSize"@ {
                    84
                } else {
                    -1
                }
            } else {
                -1
            }
        } else if name[4] == 'I' {
            if name == "timeInRange"@ {
                58
            } else {
                -1
            }
        } else if name[4] == 'N' {
            if name == "x500NameBag"@ {
                118
            } else {
                -1
            }
        } else if name[4] == 'R' {
            if name[6] == 'E' {
                if name == "anyURIEqual"@ {
                    10
                } else {
                    -1
                }
            } else if name[6] == 'U' {
                if name == "anyURIUnion"@ {
                    219
                } else {
                    -1
                }
            } else {
                -1
            }
        } else if name[4] == 'T' {
            if name == "dateTimeBag"@ {
                94
            } else {
                -1
            }
        } else if name[4] == 'e' {
            if name == "booleanIsIn"@ {
                73
            } else {
                -1
            }
        } else if name[4] == 'g' {
            if name == "integerIsIn"@ {
                77
            } else {
                -1
            }
        } else if name[4] == 'l' {
            if name[6] == 'E' {
                if name == "doubleEqual"@ {
                    3
                } else {
                    -1
                }
            } else if name[6] == 'U' {
                if name == "doubleUnion"@ {
                    199
                } else {
                    -1
                }
            } else {
                -1
            }
        } else if name[4] == 'n' {
            if name[6] == 'E' {
                if name == "stringEqual"@ {
                    0
                } else {
                    -1
                }
            } else if name[6] == 'U' {
                if name == "stringUnion"@ {
                    184
                } else {
                    -1
                }
            } else {
                -1
            }
        } else if name[4] == 'u' {
            if name == "andFunction"@ {
                33
            } else {
                -1
            }
        } else {
            -1
        }
    } else if name.len() == 12 {
        if name[4] == 'L' {
            if name[0] == 'd' {
                if name == "dateLessThan"@ {
                    65
                } else {
                    -1
                }
            } else if name[0] == 't' {
                if name == "timeLessThan"@ {
                    56
                } else {
                    -1
                }
            } else {
                -1
            }
        } else if name[4] == 'N' {
            if name == "x500NameIsIn"@ {
                117
            } else {
                -1
            }
        } else if name[4] == 'R' {
            if name == "anyURISubset"@ {
                220
            } else {
                -1
            }
        } else if name[4] == 'T' {
            if name == "dateTimeIsIn"@ {
                93
            } else {
                -1
            }
        } else if name[4] == 'd' {
            if name == "ipAddressBag"@ {
                125
            } else {
                -1
            }
        } else if name[4] == 'e' {
            if name[7] == 'E' {
                if name == "booleanEqual"@ {
                    1
                } else {
                    -1
                }
            } else if name[7] == 'U' {
                if name == "booleanUnion"@ {
                    189
                } else {
                    -1
                }
            } else {
                -1
            }
        } else if name[4] == 'g' {
            if name[7] == 'E' {
                if name == "integerEqual"@ {
                    2
                } else {
                    -1
                }
            } else if name[7] == 'U' {
                if name == "integerUnion"@ {
                    194
                } else {
                    -1
                }
            } else {
                -1
            }
        } else if name[4] == 'i' {
            if name == "hexBinaryBag"@ {
                102
            } else {
                -1
            }
        } else if name[4] == 'l' {
            if name[6] == 'D' {
                if name == "doubleDivide"@ {
                    22
                } else {
                    -1
                }
            } else if name[6] == 'S' {
                if name == "doubleSubset"@ {
                    200
                } else {
                    -1
                }
            } else {
                -1
            }
        } else if name[4] == 'n' {
            if name == "stringSubset"@ {
                185
            } else {
                -1
            }
        } else {
            -1
        }
    } else if name.len() == 13 {
        if name[4] == '2' {
            if name == "rfc822NameBag"@ {
                122
            } else {
                -1
            }
        } else if name[4] == 'N' {
            if name[8] == 'E' {
                if name == "x500NameEqual"@ {
                    11
                } else {
                    -1
                }
            } else if name[8] == 'M' {
                if name == "x500NameMatch"@ {
                    171
                } else {
                    -1
                }
            } else if name[8] == 'U' {
                if name == "x500NameUnion"@ {
                    244
                } else {
                    -1
                }
            } else {
                -1
            }
        } else if name[4] == 'R' {
            if name == "anyURIBagSize"@ {
                96
            } else {
                -1
            }
        } else if name[4] == 'S' {
            if name[0] == 'd' {
                if name == "dateSetEquals"@ {
                    211
                } else {
                    -1
                }
            } else if name[0] == 't' {
                if name == "timeSetEquals"@ {
                    206
                } else {
                    -1
                }
            } else {
                -1
            }
        } else if name[4] == 'T' {
            if name[8] == 'E' {
                if name == "dateTimeEqual"@ {
                    6
                } else {
                    -1
                }
            } else if name[8] == 'U' {
                if name == "dateTimeUnion"@ {
                    214
                } else {
                    -1
                }
            } else {
                -1
            }
        } else if name[4] == 'e' {
            if name == "booleanSubset"@ {
                190
            } else {
                -1
            }
        } else if name[4] == 'g' {
            if name[7] == 'D' {
                if name == "integerDivide"@ {
                    21
                } else {
                    -1
                }
            } else if name[7] == 'S' {
                if name == "integerSubset"@ {
                    195
                } else {
                    -1
                }
            } else {
                -1
            }
        } else if name[4] == 'i' {
            if name == "hexBinaryIsIn"@ {
                101
            } else {
                -1
            }
        } else if name[4] == 'l' {
            if name == "doubleBagSize"@ {
                80
            } else {
                -1
            }
        } else if name[4] == 'n' {
            if name == "stringBagSize"@ {
                68
            } else {
                -1
            }
        } else {
            -1
        }
    } else if name.len() == 14 {
        if name[4] == '2' {
            if name == "rfc822NameIsIn"@ {
                121
            } else {
                -1
            }
        } else if name[4] == 'F' {
            if name[0] == 'd' {
                if name == "dateFromString"@ {
                    138
                } else {
                    -1
                }
            } else if name[0] == 't' {
                if name == "timeFromString"@ {
                    136
                } else {
                    -1
                }
            } else {
                -1
            }
        } else if name[4] == 'N' {
            if name == "x500NameSubset"@ {
                245
            } else {
                -1
            }
        } else if name[4] == 'O' {
            if name[0] == 'd' {
                if name == "dateOneAndOnly"@ {
                    87
                } else {
                    -1
                }
            } else if name[0] == 't' {
                if name == "timeOneAndOnly"@ {
                    83
                } else {
                    -1
                }
            } else {
                -1
            }
        } else if name[4] == 'R' {
            if name[6] == 'C' {
                if name == "anyURIContains"@ {
                    161
                } else {
                    -1
                }
            } else if name[6] == 'E' {
                if name == "anyURIEndsWith"@ {
                    159
                } else {
                    -1
                }
            } else {
                -1
            }
        } else if name[4] == 'T' {
            if name == "dateTimeSubset"@ {
                215
            } else {
                -1
            }
        } else if name[4] == 'a' {
            if name == "dnsNameBagSize"@ {
                127
            } else {
                -1
            }
        } else if name[4] == 'e' {
            if name == "booleanBagSize"@ {
                72
            } else {
                -1
            }
        } else if name[4] == 'g' {
            if name == "integerBagSize"@ {
                76
            } else {
                -1
            }
        } else if name[4] == 'h' {
            if name[9] == 'C' {
                if name == "xpathNodeCount"@ {
                    179
                } else {
                    -1
                }
            } else if name[9] == 'E' {
                if name == "xpathNodeEqual"@ {
                    180
                } else {
                    -1
                }
            } else if name[9] == 'M' {
                if name == "xpathNodeMatch"@ {
                    181
                } else {
                    -1
                }
            } else {
                -1
            }
        } else if name[4] == 'i' {
            if name[9] == 'E' {
                if name == "hexBinaryEqual"@ {
                    13
                } else {
                    -1
                }
            } else if name[9] == 'U' {
                if name == "hexBinaryUnion"@ {
                    224
                } else {
                    -1
                }
            } else {
                -1
            }
        } else if name[4] == 'l' {
            if name[6] == 'L' {
                if name == "doubleLessThan"@ {
                    42
                } else {
                    -1
                }
            } else if name[6] == 'M' {
                if name == "doubleMultiply"@ {
                    20
                } else {
                    -1
                }
            } else if name[6] == 'S' {
                if name == "doubleSubtract"@ {
                    18
                } else {
                    -1
                }
            } else {
                -1
            }
        } else if name[4] == 'n' {
            if name[6] == 'C' {
                if name == "stringContains"@ {
                    160
                } else {
                    -1
                }
            } else if name[6] == 'E' {
                if name == "stringEndsWith"@ {
                    158
                } else {
                    -1
                }
            } else if name[6] == 'F' {
                if name[10] == 'D' {
                    if name == "stringFromDate"@ {
                        139
                    } else {
                        -1
                    }
                } else if name[10] == 'T' {
                    if name == "stringFromTime"@ {
                        137
                    } else {
                        -1
                    }
                } else {
                    -1
                }
            } else if name[6] == 'L' {
                if name == "stringLessThan"@ {
                    52
                } else {
                    -1
                }
            } else {
                -1
            }
        } else {
            -1
        }
    } else if name.len() == 15 {
        if name[11] == 'S' {
            if name[0] == 'd' {
                if name == "dateTimeBagSize"@ {
                    92
                } else {
                    -1
                }
            } else if name[0] == 'x' {
                if name == "x500NameBagSize"@ {
                    116
                } else {
                    -1
                }
            } else {
                -1
            }
        } else if name[11] == 'T' {
            if name[0] == 'd' {
                if name == "dateGreaterThan"@ {
                    63
                } else {
                    -1
                }
            } else if name[0] == 'i' {
                if name == "integerLessThan"@ {
                    38
                } else {
                    -1
                }
            } else if name[0] == 't' {
                if name == "timeGreaterThan"@ {
                    54
                } else {
                    -1
                }
            } else {
                -1
            }
        } else if name[11] == 'a' {
            if name == "rfc822NameMatch"@ {
                172
            } else {
                -1
            }
        } else if name[11] == 'b' {
            if name == "hexBinarySubset"@ {
                225
            } else {
                -1
            }
        } else if name[11] == 'e' {
            if name == "doubleToInteger"@ {
                30
            } else {
                -1
            }
        } else if name[11] == 'i' {
            if name == "integerMultiply"@ {
                19
            } else {
                -1
            }
        } else if name[11] == 'n' {
            if name == "rfc822NameUnion"@ {
                249
            } else {
                -1
            }
        } else if name[11] == 'q' {
            if name == "rfc822NameEqual"@ {
                12
            } else {
                -1
            }
        } else if name[11] == 'r' {
            if name[0] == 'a' {
                if name == "anyURISubstring"@ {
                    163
                } else {
                    -1
                }
            } else if name[0] == 'i' {
                if name == "integerSubtract"@ {
                    17
                } else {
                    -1
                }
            } else if name[0] == 's' {
                if name == "stringSubstring"@ {
                    162
                } else {
                    -1
                }
            } else {
                -1
            }
        } else if name[11] == 't' {
            if name == "accessPermitted"@ {
                252
            } else {
                -1
            }
        } else if name[11] == 'u' {
            if name[0] == 'a' {
                if name == "anyURISetEquals"@ {
                    221
                } else {
                    -1
                }
            } else if name[0] == 'd' {
                if name == "doubleSetEquals"@ {
                    201
                } else {
                    -1
                }
            } else if name[0] == 'i' {
                if name == "integerToDouble"@ {
                    31
                } else {
                    -1
                }
            } else if name[0] == 's' {
                if name == "stringSetEquals"@ {
                    186
                } else {
                    -1
                }
            } else {
                -1
            }
        } else if name[11] == 'y' {
            if name == "base64BinaryBag"@ {
                106
            } else {
                -1
            }
        } else {
            -1
        }
    } else if name.len() == 16 {
        if name[4] == '2' {
            if name == "rfc822NameSubset"@ {
                250
            } else {
                -1
            }
        } else if name[4] == '6' {
            if name == "base64BinaryIsIn"@ {
                105
            } else {
                -1
            }
        } else if name[4] == 'I' {
            if name[0] == 'd' {
                if name == "dateIntersection"@ {
                    207
                } else {
                    -1
                }
            } else if name[0] == 't' {
                if name == "timeIntersection"@ {
                    202
                } else {
                    -1
                }
            } else {
                -1
            }
        } else if name[4] == 'R' {
            if name[6] == 'F' {
                if name == "anyURIFromString"@ {
                    142
                } else {
                    -1
                }
            } else if name[6] == 'O' {
                if name == "anyURIOneAndOnly"@ {
                    95
                } else {
                    -1
                }
            } else if name[6] == 'S' {
                if name == "anyURIStartsWith"@ {
                    157
                } else {
                    -1
                }
            } else {
                -1
            }
        } else if name[4] == 'T' {
            if name == "dateTimeLessThan"@ {
                61
            } else {
                -1
            }
        } else if name[4] == 'd' {
            if name == "ipAddressBagSize"@ {
                124
            } else {
                -1
            }
        } else if name[4] == 'e' {
            if name == "booleanSetEquals"@ {
                191
            } else {
                -1
            }
        } else if name[4] == 'g' {
            if name == "integerSetEquals"@ {
                196
            } else {
                -1
            }
        } else if name[4] == 'i' {
            if name == "hexBinaryBagSize"@ {
                100
            } else {
                -1
            }
        } else if name[4] == 'l' {
            if name[6] == 'F' {
                if name == "doubleFromString"@ {
                    134
                } else {
                    -1
                }
            } else if name[6] == 'O' {
                if name == "doubleOneAndOnly"@ {
                    79
                } else {
                    -1
                }
            } else {
                -1
            }
        } else if name[4] == 'n' {
            if name[10] == 'A' {
                if name == "stringFromAnyURI"@ {
                    143
                } else {
                    -1
                }
            } else if name[10] == 'D' {
                if name == "stringFromDouble"@ {
                    135
                } else {
                    -1
                }
            } else if name[10] == 'n' {
                if name == "stringOneAndOnly"@ {
                    67
                } else {
                    -1
                }
            } else if name[10] == 't' {
                if name == "stringStartsWith"@ {
                    156
                } else {
                    -1
                }
            } else {
                -1
            }
        } else {
            -1
        }
    } else if name.len() == 17 {
        if name[12] == 'E' {
            if name == "base64BinaryEqual"@ {
                14
            } else {
                -1
            }
        } else if name[12] == 'M' {
            if name[0] == 'a' {
                if name == "anyURIRegexpMatch"@ {
                    174
                } else {
                    -1
                }
            } else if name[0] == 's' {
                if name == "stringRegexpMatch"@ {
                    173
                } else {
                    -1
                }
            } else {
                -1
            }
        } else if name[12] == 'U' {
            if name == "base64BinaryUnion"@ {
                229
            } else {
                -1
            }
        } else if name[12] == 'd' {
            if name[0] == 'b' {
                if name == "booleanOneAndOnly"@ {
                    71
                } else {
                    -1
                }
            } else if name[0] == 'd' {
                if name == "dnsNameOneAndOnly"@ {
                    126
                } else {
                    -1
                }
            } else if name[0] == 'i' {
                if name == "integerOneAndOnly"@ {
                    75
                } else {
                    -1
                }
            } else {
                -1
            }
        } else if name[12] == 'e' {
            if name == "stringConcatenate"@ {
                129
            } else {
                -1
            }
        } else if name[12] == 'g' {
            if name == "rfc822NameBagSize"@ {
                120
            } else {
                -1
            }
        } else if name[12] == 'o' {
            if name == "stringFromBoolean"@ {
                131
            } else {
                -1
            }
        } else if name[12] == 'q' {
            if name[0] == 'd' {
                if name == "dateTimeSetEquals"@ {
                    216
                } else {
                    -1
                }
            } else if name[0] == 'x' {
                if name == "x500NameSetEquals"@ {
                    246
                } else {
                    -1
                }
            } else {
                -1
            }
        } else if name[12] == 'r' {
            if name[0] == 'd' {
                if name == "doubleGreaterThan"@ {
                    40
                } else {
                    -1
                }
            } else if name[0] == 's' {
                if name == "stringGreaterThan"@ {
                    50
                } else {
                    -1
                }
            } else {
                -1
            }
        } else if name[12] == 's' {
            if name == "stringFromDnsName"@ {
                155
            } else {
                -1
            }
        } else if name[12] == 't' {
            if name[0] == 'b' {
                if name == "booleanFromString"@ {
                    130
                } else {
                    -1
                }
            } else if name[0] == 'd' {
                if name == "dnsNameFromString"@ {
                    154
                } else {
                    -1
                }
            } else if name[0] == 'i' {
                if name == "integerFromString"@ {
                    132
                } else {
                    -1
                }
            } else if name[0] == 's' {
                if name == "stringFromInteger"@ {
                    133
                } else {
                    -1
                }
            } else {
                -1
            }
        } else {
            -1
        }
    } else if name.len() == 18 {
        if name[13] == '0' {
            if name == "stringFromX500Name"@ {
                149
            } else {
                -1
            }
        } else if name[13] == 'M' {
            if name == "dnsNameRegexpMatch"@ {
                176
            } else {
                -1
            }
        } else if name[13] == 'c' {
            if name[0] == 'a' {
                if name == "anyURIIntersection"@ {
                    217
                } else {
                    -1
                }
            } else if name[0] == 'd' {
                if name == "doubleIntersection"@ {
                    197
                } else {
                    -1
                }
            } else if name[0] == 's' {
                if name == "stringIntersection"@ {
                    182
                } else {
                    -1
                }
            } else {
                -1
            }
        } else if name[13] == 'd' {
            if name[0] == 'd' {
                if name == "dateTimeOneAndOnly"@ {
                    91
                } else {
                    -1
                }
            } else if name[0] == 'x' {
                if name == "x500NameOneAndOnly"@ {
                    115
                } else {
                    -1
                }
            } else {
                -1
            }
        } else if name[13] == 'e' {
            if name == "stringFromDateTime"@ {
                141
            } else {
                -1
            }
        } else if name[13] == 'o' {
            if name == "dayTimeDurationBag"@ {
                110
            } else {
                -1
            }
        } else if name[13] == 'q' {
            if name == "hexBinarySetEquals"@ {
                226
            } else {
                -1
            }
        } else if name[13] == 'r' {
            if name == "integerGreaterThan"@ {
                36
            } else {
                -1
            }
        } else if name[13] == 't' {
            if name[0] == 'd' {
                if name == "dateTimeFromString"@ {
                    140
                } else {
                    -1
                }
            } else if name[0] == 'x' {
                if name == "x500NameFromString"@ {
                    148
                } else {
                    -1
                }
            } else {
                -1
            }
        } else if name[13] == 'u' {
            if name == "base64BinarySubset"@ {
                230
            } else {
                -1
            }
        } else {
            -1
        }
    } else if name.len() == 19 {
        if name[2] == '0' {
            if name == "x500NameRegexpMatch"@ {
                178
            } else {
                -1
            }
        } else if name[2] == 'A' {
            if name[9] == 'F' {
                if name == "ipAddressFromString"@ {
                    152
                } else {
                    -1
                }
            } else if name[9] == 'O' {
                if name == "ipAddressOneAndOnly"@ {
                    123
                } else {
                    -1
                }
            } else {
                -1
            }
        } else if name[2] == 'c' {
            if name == "rfc822NameSetEquals"@ {
                251
            } else {
                -1
            }
        } else if name[2] == 'm' {
            if name == "timeLessThanOrEqual"@ {
                57
            } else {
                -1
            }
        } else if name[2] == 'o' {
            if name == "booleanIntersection"@ {
                187
            } else {
                -1
            }
        } else if name[2] == 'r' {
            if name == "stringFromIpAddress"@ {
                153
            } else {
                -1
            }
        } else if name[2] == 's' {
            if name == "base64BinaryBagSize"@ {
                104
            } else {
                -1
            }
        } else if name[2] == 't' {
            if name[4] == 'L' {
                if name == "dateLessThanOrEqual"@ {
                    66
                } else {
                    -1
                }
            } else if name[4] == 'T' {
                if name == "dateTimeGreaterThan"@ {
                    59
                } else {
                    -1
                }
            } else if name[4] == 'g' {
                if name == "integerIntersection"@ {
                    192
                } else {
                    -1
                }
            } else {
                -1
            }
        } else if name[2] == 'x' {
            if name == "hexBinaryOneAndOnly"@ {
                99
            } else {
                -1
            }
        } else if name[2] == 'y' {
            if name == "dayTimeDurationIsIn"@ {
                109
            } else {
                -1
            }
        } else {
            -1
        }
    } else if name.len() == 20 {
        if name[15] == '2' {
            if name == "stringFromRfc822Name"@ {
                151
            } else {
                -1
            }
        } else if name[15] == 'E' {
            if name == "dayTimeDurationEqual"@ {
                7
            } else {
                -1
            }
        } else if name[15] == 'M' {
            if name == "ipAddressRegexpMatch"@ {
                175
            } else {
                -1
            }
        } else if name[15] == 'S' {
            if name == "stringNormalizeSpace"@ {
                28
            } else {
                -1
            }
        } else if name[15] == 'U' {
            if name == "dayTimeDurationUnion"@ {
                234
            } else {
                -1
            }
        } else if name[15] == 'c' {
            if name[0] == 'd' {
                if name == "dateTimeIntersection"@ {
                    212
                } else {
                    -1
                }
            } else if name[0] == 'x' {
                if name == "x500NameIntersection"@ {
                    242
                } else {
                    -1
                }
            } else {
                -1
            }
        } else if name[15] == 'd' {
            if name == "rfc822NameOneAndOnly"@ {
                119
            } else {
                -1
            }
        } else if name[15] == 'o' {
            if name == "yearMonthDurationBag"@ {
                114
            } else {
                -1
            }
        } else if name[15] == 't' {
            if name == "rfc822NameFromString"@ {
                150
            } else {
                -1
            }
        } else {
            -1
        }
    } else if name.len() == 21 {
        if name[2] == 'a' {
            if name == "yearMonthDurationIsIn"@ {
                113
            } else {
                -1
            }
        } else if name[2] == 'c' {
            if name == "rfc822NameRegexpMatch"@ {
                177
            } else {
                -1
            }
        } else if name[2] == 'r' {
            if name[6] == 'E' {
                if name == "stringEqualIgnoreCase"@ {
                    9
                } else {
                    -1
                }
            } else if name[6] == 'L' {
                if name == "stringLessThanOrEqual"@ {
                    53
                } else {
                    -1
                }
            } else {
                -1
            }
        } else if name[2] == 's' {
            if name == "base64BinarySetEquals"@ {
                231
            } else {
                -1
            }
        } else if name[2] == 'u' {
            if name == "doubleLessThanOrEqual"@ {
                43
            } else {
                -1
            }
        } else if name[2] == 'x' {
            if name == "hexBinaryIntersection"@ {
                222
            } else {
                -1
            }
        } else if name[2] == 'y' {
            if name == "dayTimeDurationSubset"@ {
                235
            } else {
                -1
            }
        } else {
            -1
        }
    } else if name.len() == 22 {
        if name[4] == '2' {
            if name == "rfc822NameIntersection"@ {
                247
            } else {
                -1
            }
        } else if name[4] == '6' {
            if name == "base64BinaryOneAndOnly"@ {
                103
            } else {
                -1
            }
        } else if name[4] == 'A' {
            if name[0] == 'd' {
                if name == "dateAtLeastOneMemberOf"@ {
                    208
                } else {
                    -1
                }
            } else if name[0] == 't' {
                if name == "timeAtLeastOneMemberOf"@ {
                    203
                } else {
                    -1
                }
            } else {
                -1
            }
        } else if name[4] == 'G' {
            if name[0] == 'd' {
                if name == "dateGreaterThanOrEqual"@ {
                    64
                } else {
                    -1
                }
            } else if name[0] == 't' {
                if name == "timeGreaterThanOrEqual"@ {
                    55
                } else {
                    -1
                }
            } else {
                -1
            }
        } else if name[4] == 'M' {
            if name[17] == 'E' {
                if name == "yearMonthDurationEqual"@ {
                    8
                } else {
                    -1
                }
            } else if name[17] == 'U' {
                if name == "yearMonthDurationUnion"@ {
                    239
                } else {
                    -1
                }
            } else {
                -1
            }
        } else if name[4] == 'g' {
            if name == "integerLessThanOrEqual"@ {
                39
            } else {
                -1
            }
        } else if name[4] == 'i' {
            if name == "dayTimeDurationBagSize"@ {
                108
            } else {
                -1
            }
        } else {
            -1
        }
    } else if name.len() == 23 {
        if name[0] == 'd' {
            if name == "dateTimeLessThanOrEqual"@ {
                62
            } else {
                -1
            }
        } else if name[0] == 'y' {
            if name == "yearMonthDurationSubset"@ {
                240
            } else {
                -1
            }
        } else {
            -1
        }
    } else if name.len() == 24 {
        if name[4] == '6' {
            if name == "base64BinaryIntersection"@ {
                227
            } else {
                -1
            }
        } else if name[4] == 'A' {
            if name == "dateAddYearMonthDuration"@ {
                48
            } else {
                -1
            }
        } else if name[4] == 'M' {
            if name == "yearMonthDurationBagSize"@ {
                112
            } else {
                -1
            }
        } else if name[4] == 'R' {
            if name == "anyURIAtLeastOneMemberOf"@ {
                218
            } else {
                -1
            }
        } else if name[4] == 'i' {
            if name == "dayTimeDurationSetEquals"@ {
                236
            } else {
                -1
            }
        } else if name[4] == 'l' {
            if name[6] == 'A' {
                if name == "doubleAtLeastOneMemberOf"@ {
                    198
                } else {
                    -1
                }
            } else if name[6] == 'G' {
                if name == "doubleGreaterThanOrEqual"@ {
                    41
                } else {
                    -1
                }
            } else {
                -1
            }
        } else if name[4] == 'n' {
            if name[6] == 'A' {
                if name == "stringAtLeastOneMemberOf"@ {
                    183
                } else {
                    -1
                }
            } else if name[6] == 'G' {
                if name == "stringGreaterThanOrEqual"@ {
                    51
                } else {
                    -1
                }
            } else {
                -1
            }
        } else {
            -1
        }
    } else if name.len() == 25 {
        if name[15] == 'F' {
            if name == "dayTimeDurationFromString"@ {
                144
            } else {
                -1
            }
        } else if name[15] == 'O' {
            if name == "dayTimeDurationOneAndOnly"@ {
                107
            } else {
                -1
            }
        } else if name[15] == 'h' {
            if name == "integerGreaterThanOrEqual"@ {
                37
            } else {
                -1
            }
        } else if name[15] == 'm' {
            if name == "stringFromDayTimeDuration"@ {
                145
            } else {
                -1
            }
        } else if name[15] == 'n' {
            if name[0] == 'b' {
                if name == "booleanAtLeastOneMemberOf"@ {
                    188
                } else {
                    -1
                }
            } else if name[0] == 'i' {
                if name == "integerAtLeastOneMemberOf"@ {
                    193
                } else {
                    -1
                }
            } else {
                -1
            }
        } else {
            -1
        }
    } else if name.len() == 26 {
        if name[9] == 'D' {
            if name == "yearMonthDurationSetEquals"@ {
                241
            } else {
                -1
            }
        } else if name[9] == 'd' {
            if name == "dateTimeAddDayTimeDuration"@ {
                44
            } else {
                -1
            }
        } else if name[9] == 'm' {
            if name == "stringNormalizeToLowerCase"@ {
                29
            } else {
                -1
            }
        } else if name[9] == 'r' {
            if name == "dateTimeGreaterThanOrEqual"@ {
                60
            } else {
                -1
            }
        } else if name[9] == 't' {
            if name[0] == 'd' {
                if name == "dateTimeAtLeastOneMemberOf"@ {
                    213
                } else {
                    -1
                }
            } else if name[0] == 'x' {
                if name == "x500NameAtLeastOneMemberOf"@ {
                    243
                } else {
                    -1
                }
            } else {
                -1
            }
        } else {
            -1
        }
    } else if name.len() == 27 {
        if name[19] == 'D' {
            if name == "stringFromYearMonthDuration"@ {
                147
            } else {
                -1
            }
        } else if name[19] == 'M' {
            if name == "hexBinaryAtLeastOneMemberOf"@ {
                223
            } else {
                -1
            }
        } else if name[19] == 'e' {
            if name == "yearMonthDurationOneAndOnly"@ {
                111
            } else {
                -1
            }
        } else if name[19] == 'o' {
            if name == "yearMonthDurationFromString"@ {
                146
            } else {
                -1
            }
        } else if name[19] == 'r' {
            if name == "dayTimeDurationIntersection"@ {
                232
            } else {
                -1
            }
        } else {
            -1
        }
    } else if name.len() == 28 {
        if name[0] == 'd' {
            if name == "dateTimeAddYearMonthDuration"@ {
                45
            } else {
                -1
            }
        } else if name[0] == 'r' {
            if name == "rfc822NameAtLeastOneMemberOf"@ {
                248
            } else {
                -1
            }
        } else {
            -1
        }
    } else if name.len() == 29 {
        if name[0] == 'd' {
            if name == "dateSubtractYearMonthDuration"@ {
                49
            } else {
                -1
            }
        } else if name[0] == 'y' {
            if name == "yearMonthDurationIntersection"@ {
                237
            } else {
                -1
            }
        } else {
            -1
        }
    } else if name.len() == 30 {
        if name == "base64BinaryAtLeastOneMemberOf"@ {
            228
        } else {
            -1
        }
    } else if name.len() == 31 {
        if name == "dateTimeSubtractDayTimeDuration"@ {
            46
        } else {
            -1
        }
    } else if name.len() == 33 {
        if name[2] == 't' {
            if name == "dateTimeSubtractYearMonthDuration"@ {
                47
            } else {
                -1
            }
        } else if name[2] == 'y' {
            if name == "dayTimeDurationAtLeastOneMemberOf"@ {
                233
            } else {
                -1
            }
        } else {
            -1
        }
    } else if name.len() == 35 {
        if name == "yearMonthDurationAtLeastOneMemberOf"@ {
            238
        } else {
            -1
        }
    } else {
        -1
    }
}

proof fn lemma_function_place_1(i: int)
    requires
        0 <= i < 32,
    ensures
        function_place(function_row(i).id) == i,
        function_row(i).ns == seq![SYSTEM_NS@],
{
    reveal_strlit("stringEqual");
    reveal_strlit("booleanEqual");
    reveal_strlit("integerEqual");
    reveal_strlit("doubleEqual");
    reveal_strlit("dateEqual");
    reveal_strlit("timeEqual");
    reveal_strlit("dateTimeEqual");
    reveal_strlit("dayTimeDurationEqual");
    reveal_strlit("yearMonthDurationEqual");
    reveal_strlit("stringEqualIgnoreCase");
    reveal_strlit("anyURIEqual");
    reveal_strlit("x500NameEqual");
    reveal_strlit("rfc822NameEqual");
    reveal_strlit("hexBinaryEqual");
    reveal_strlit("base64BinaryEqual");
    reveal_strlit("integerAdd");
    reveal_strlit("doubleAdd");
    reveal_strlit("integerSubtract");
    reveal_strlit("doubleSubtract");
    reveal_strlit("integerMultiply");
    reveal_strlit("doubleMultiply");
    reveal_strlit("integerDivide");
    reveal_strlit("doubleDivide");
    reveal_strlit("integerMod");
    reveal_strlit("integerAbs");
    reveal_strlit("doubleAbs");
    reveal_strlit("round");
    reveal_strlit("floor");
    reveal_strlit("stringNormalizeSpace");
    reveal_strlit("stringNormalizeToLowerCase");
    reveal_strlit("doubleToInteger");
    reveal_strlit("integerToDouble");
}

proof fn lemma_function_place_2(i: int)
    requires
        32 <= i < 64,
    ensures
        function_place(function_row(i).id) == i,
        function_row(i).ns == seq![SYSTEM_NS@],
{
    reveal_strlit("orFunction");
    reveal_strlit("andFunction");
    reveal_strlit("nOf");
    reveal_strlit("not");
    reveal_strlit("integerGreaterThan");
    reveal_strlit("integerGreaterThanOrEqual");
    reveal_strlit("integerLessThan");
    reveal_strlit("integerLessThanOrEqual");
    reveal_strlit("doubleGreaterThan");
    reveal_strlit("doubleGreaterThanOrEqual");
    reveal_strlit("doubleLessThan");
    reveal_strlit("doubleLessThanOrEqual");
    reveal_strlit("dateTimeAddDayTimeDuration");
    reveal_strlit("dateTimeAddYearMonthDuration");
    reveal_strlit("dateTimeSubtractDayTimeDuration");
    reveal_strlit("dateTimeSubtractYearMonthDuration");
    reveal_strlit("dateAddYearMonthDuration");
    reveal_strlit("dateSubtractYearMonthDuration");
    reveal_strlit("stringGreaterThan");
    reveal_strlit("stringGreaterThanOrEqual");
    reveal_strlit("stringLessThan");
    reveal_strlit("stringLessThanOrEqual");
    reveal_strlit("timeGreaterThan");
    reveal_strlit("timeGreaterThanOrEqual");
    reveal_strlit("timeLessThan");
    reveal_strlit("timeLessThanOrEqual");
    reveal_strlit("timeInRange");
    reveal_strlit("dateTimeGreaterThan");
    reveal_strlit("dateTimeGreaterThanOrEqual");
    reveal_strlit("dateTimeLessThan");
    reveal_strlit("dateTimeLessThanOrEqual");
    reveal_strlit("dateGreaterThan");
}

proof fn lemma_function_place_3(i: int)
    requires
        64 <= i < 96,
    ensures
        function_place(function_row(i).id) == i,
        function_row(i).ns == seq![SYSTEM_NS@],
{
    reveal_strlit("dateGreaterThanOrEqual");
    reveal_strlit("dateLessThan");
    reveal_strlit("dateLessThanOrEqual");
    reveal_strlit("stringOneAndOnly");
    reveal_strlit("stringBagSize");
    reveal_strlit("stringIsIn");
    reveal_strlit("stringBag");
    reveal_strlit("booleanOneAndOnly");
    reveal_strlit("booleanBagSize");
    reveal_strlit("booleanIsIn");
    reveal_strlit("booleanBag");
    reveal_strlit("integerOneAndOnly");
    reveal_strlit("integerBagSize");
    reveal_strlit("integerIsIn");
    reveal_strlit("integerBag");
    reveal_strlit("doubleOneAndOnly");
    reveal_strlit("doubleBagSize");
    reveal_strlit("doubleIsIn");
    reveal_strlit("doubleBag");
    reveal_strlit("timeOneAndOnly");
    reveal_strlit("timeBagSize");
    reveal_strlit("timeIsIn");
    reveal_strlit("timeBag");
    reveal_strlit("dateOneAndOnly");
    reveal_strlit("dateBagSize");
    reveal_strlit("dateIsIn");
    reveal_strlit("dateBag");
    reveal_strlit("dateTimeOneAndOnly");
    reveal_strlit("dateTimeBagSize");
    reveal_strlit("dateTimeIsIn");
    reveal_strlit("dateTimeBag");
    reveal_strlit("anyURIOneAndOnly");
}

proof fn lemma_function_place_4(i: int)
    requires
        96 <= i < 128,
    ensures
        function_place(function_row(i).id) == i,
        function_row(i).ns == seq![SYSTEM_NS@],
{
    reveal_strlit("anyURIBagSize");
    reveal_strlit("anyURIIsIn");
    reveal_strlit("anyURIBag");
    reveal_strlit("hexBinaryOneAndOnly");
    reveal_strlit("hexBinaryBagSize");
    reveal_strlit("hexBinaryIsIn");
    reveal_strlit("hexBinaryBag");
    reveal_strlit("base64BinaryOneAndOnly");
    reveal_strlit("base64BinaryBagSize");
    reveal_strlit("base64BinaryIsIn");
    reveal_strlit("base64BinaryBag");
    reveal_strlit("dayTimeDurationOneAndOnly");
    reveal_strlit("dayTimeDurationBagSize");
    reveal_strlit("dayTimeDurationIsIn");
    reveal_strlit("dayTimeDurationBag");
    reveal_strlit("yearMonthDurationOneAndOnly");
    reveal_strlit("yearMonthDurationBagSize");
    reveal_strlit("yearMonthDurationIsIn");
    reveal_strlit("yearMonthDurationBag");
    reveal_strlit("x500NameOneAndOnly");
    reveal_strlit("x500NameBagSize");
    reveal_strlit("x500NameIsIn");
    reveal_strlit("x500NameBag");
    reveal_strlit("rfc822NameOneAndOnly");
    reveal_strlit("rfc822NameBagSize");
    reveal_strlit("rfc822NameIsIn");
    reveal_strlit("rfc822NameBag");
    reveal_strlit("ipAddressOneAndOnly");
    reveal_strlit("ipAddressBagSize");
    reveal_strlit("ipAddressBag");
    reveal_strlit("dnsNameOneAndOnly");
    reveal_strlit("dnsNameBagSize");
}

proof fn lemma_function_place_5(i: int)
    requires
        128 <= i < 160,
    ensures
        function_place(function_row(i).id) == i,
        function_row(i).ns == seq![SYSTEM_NS@],
{
    reveal_strlit("dnsNameBag");
    reveal_strlit("stringConcatenate");
    reveal_strlit("booleanFromString");
    reveal_strlit("stringFromBoolean");
    reveal_strlit("integerFromString");
    reveal_strlit("stringFromInteger");
    reveal_strlit("doubleFromString");
    reveal_strlit("stringFromDouble");
    reveal_strlit("timeFromString");
    reveal_strlit("stringFromTime");
    reveal_strlit("dateFromString");
    reveal_strlit("stringFromDate");
    reveal_strlit("dateTimeFromString");
    reveal_strlit("stringFromDateTime");
    reveal_strlit("anyURIFromString");
    reveal_strlit("stringFromAnyURI");
    reveal_strlit("dayTimeDurationFromString");
    reveal_strlit("stringFromDayTimeDuration");
    reveal_strlit("yearMonthDurationFromString");
    reveal_strlit("stringFromYearMonthDuration");
    reveal_strlit("x500NameFromString");
    reveal_strlit("stringFromX500Name");
    reveal_strlit("rfc822NameFromString");
    reveal_strlit("stringFromRfc822Name");
    reveal_strlit("ipAddressFromString");
    reveal_strlit("stringFromIpAddress");
    reveal_strlit("dnsNameFromString");
    reveal_strlit("stringFromDnsName");
    reveal_strlit("stringStartsWith");
    reveal_strlit("anyURIStartsWith");
    reveal_strlit("stringEndsWith");
    reveal_strlit("anyURIEndsWith");
}

proof fn lemma_function_place_6(i: int)
    requires
        160 <= i < 192,
    ensures
        function_place(function_row(i).id) == i,
        function_row(i).ns == seq![SYSTEM_NS@],
{
    reveal_strlit("stringContains");
    reveal_strlit("anyURIContains");
    reveal_strlit("stringSubstring");
    reveal_strlit("anyURISubstring");
    reveal_strlit("anyOf");
    reveal_strlit("allOf");
    reveal_strlit("anyOfAny");
    reveal_strlit("allOfAny");
    reveal_strlit("anyOfAll");
    reveal_strlit("allOfAll");
    reveal_strlit("map");
    reveal_strlit("x500NameMatch");
    reveal_strlit("rfc822NameMatch");
    reveal_strlit("stringRegexpMatch");
    reveal_strlit("anyURIRegexpMatch");
    reveal_strlit("ipAddressRegexpMatch");
    reveal_strlit("dnsNameRegexpMatch");
    reveal_strlit("rfc822NameRegexpMatch");
    reveal_strlit("x500NameRegexpMatch");
    reveal_strlit("xpathNodeCount");
    reveal_strlit("xpathNodeEqual");
    reveal_strlit("xpathNodeMatch");
    reveal_strlit("stringIntersection");
    reveal_strlit("stringAtLeastOneMemberOf");
    reveal_strlit("stringUnion");
    reveal_strlit("stringSubset");
    reveal_strlit("stringSetEquals");
    reveal_strlit("booleanIntersection");
    reveal_strlit("booleanAtLeastOneMemberOf");
    reveal_strlit("booleanUnion");
    reveal_strlit("booleanSubset");
    reveal_strlit("booleanSetEquals");
}

proof fn lemma_function_place_7(i: int)
    requires
        192 <= i < 224,
    ensures
        function_place(function_row(i).id) == i,
        function_row(i).ns == seq![SYSTEM_NS@],
{
    reveal_strlit("integerIntersection");
    reveal_strlit("integerAtLeastOneMemberOf");
    reveal_strlit("integerUnion");
    reveal_strlit("integerSubset");
    reveal_strlit("integerSetEquals");
    reveal_strlit("doubleIntersection");
    reveal_strlit("doubleAtLeastOneMemberOf");
    reveal_strlit("doubleUnion");
    reveal_strlit("doubleSubset");
    reveal_strlit("doubleSetEquals");
    reveal_strlit("timeIntersection");
    reveal_strlit("timeAtLeastOneMemberOf");
    reveal_strlit("timeUnion");
    reveal_strlit("timeSubset");
    reveal_strlit("timeSetEquals");
    reveal_strlit("dateIntersection");
    reveal_strlit("dateAtLeastOneMemberOf");
    reveal_strlit("dateUnion");
    reveal_strlit("dateSubset");
    reveal_strlit("dateSetEquals");
    reveal_strlit("dateTimeIntersection");
    reveal_strlit("dateTimeAtLeastOneMemberOf");
    reveal_strlit("dateTimeUnion");
    reveal_strlit("dateTimeSubset");
    reveal_strlit("dateTimeSetEquals");
    reveal_strlit("anyURIIntersection");
    reveal_strlit("anyURIAtLeastOneMemberOf");
    reveal_strlit("anyURIUnion");
    reveal_strlit("anyURISubset");
    reveal_strlit("anyURISetEquals");
    reveal_strlit("hexBinaryIntersection");
    reveal_strlit("hexBinaryAtLeastOneMemberOf");
}

proof fn lemma_function_place_8(i: int)
    requires
        224 <= i < 253,
    ensures
        function_place(function_row(i).id) == i,
        function_row(i).ns == seq![SYSTEM_NS@],
{
    reveal_strlit("hexBinaryUnion");
    reveal_strlit("hexBinarySubset");
    reveal_strlit("hexBinarySetEquals");
    reveal_strlit("base64BinaryIntersection");
    reveal_strlit("base64BinaryAtLeastOneMemberOf");
    reveal_strlit("base64BinaryUnion");
    reveal_strlit("base64BinarySubset");
    reveal_strlit("base64BinarySetEquals");
    reveal_strlit("dayTimeDurationIntersection");
    reveal_strlit("dayTimeDurationAtLeastOneMemberOf");
    reveal_strlit("dayTimeDurationUnion");
    reveal_strlit("dayTimeDurationSubset");
    reveal_strlit("dayTimeDurationSetEquals");
    reveal_strlit("yearMonthDurationIntersection");
    reveal_strlit("yearMonthDurationAtLeastOneMemberOf");
    reveal_strlit("yearMonthDurationUnion");
    reveal_strlit("yearMonthDurationSubset");
    reveal_strlit("yearMonthDurationSetEquals");
    reveal_strlit("x500NameIntersection");
    reveal_strlit("x500NameAtLeastOneMemberOf");
    reveal_strlit("x500NameUnion");
    reveal_strlit("x500NameSubset");
    reveal_strlit("x500NameSetEquals");
    reveal_strlit("rfc822NameIntersection");
    reveal_strlit("rfc822NameAtLeastOneMemberOf");
    reveal_strlit("rfc822NameUnion");
    reveal_strlit("rfc822NameSubset");
    reveal_strlit("rfc822NameSetEquals");
    reveal_strlit("accessPermitted");
}

/// Each built-in function stands at its own place: the table names none twice.
pub proof fn lemma_function_place(i: int)
    requires
        0 <= i < 253,
    ensures
        function_place(function_row(i).id) == i,
        function_row(i).ns == seq![SYSTEM_NS@],
{
    if i < 32 {
        lemma_function_place_1(i);
    } else if i < 64 {
        lemma_function_place_2(i);
    } else if i < 96 {
        lemma_function_place_3(i);
    } else if i < 128 {
        lemma_function_place_4(i);
    } else if i < 160 {
        lemma_function_place_5(i);
    } else if i < 192 {
        lemma_function_place_6(i);
    } else if i < 224 {
        lemma_function_place_7(i);
    } else {
        lemma_function_place_8(i);
    }
}

/// The fully-qualified name of the built-in function at the place `i`.
pub open spec fn function_name(i: int) -> Seq<char> {
    dotted(SYSTEM_NS@, function_row(i).id)
}

/// Whether `k` is the fully-qualified name of a built-in function.
pub open spec fn function_named(k: Seq<char>) -> bool {
    exists|i: int| 0 <= i < 253 && #[trigger] function_name(i) == k
}

/// Whether `m` holds the built-in functions, each under its fully-qualified
/// name, and nothing else.
pub open spec fn holds_function_table(m: Map<Seq<char>, Function>) -> bool {
    &&& forall|i: int|
        0 <= i < 253 ==> m.contains_key(#[trigger] function_name(i)) && m[function_name(i)]@ == function_row(i)
    &&& forall|k: Seq<char>| #[trigger] m.contains_key(k) ==> function_named(k)
}

/// The rows of the table have their fully-qualified names, no two the
/// same: they can be registered in an empty resolver.
pub proof fn lemma_function_names(items: Seq<Function>)
    requires
        items.len() == 253,
        forall|i: int| 0 <= i < 253 ==> (#[trigger] items[i])@ == function_row(i),
    ensures
        forall|i: int| 0 <= i < 253 ==> (#[trigger] items[i]).qualified() == Some(function_name(i)),
        forall|i: int, j: int|
            0 <= i < 253 && 0 <= j < 253 && i != j ==> #[trigger] function_name(i) != #[trigger] function_name(j),
        registrable(Map::<Seq<char>, Function>::empty(), items),
{
    assert(join(seq![SYSTEM_NS@], "."@) == SYSTEM_NS@);
    assert forall|i: int| 0 <= i < 253 implies (#[trigger] items[i]).qualified() == Some(
        function_name(i),
    ) by {
        lemma_function_place(i);
        assert(items[i]@ == function_row(i));
    }
    assert forall|i: int, j: int| 0 <= i < 253 && 0 <= j < 253 && i != j implies #[trigger] function_name(
        i,
    ) != #[trigger] function_name(j) by {
        if function_name(i) == function_name(j) {
            lemma_dotted_injective(SYSTEM_NS@, function_row(i).id, function_row(j).id);
            lemma_function_place(i);
            lemma_function_place(j);
        }
    }
}

/// A resolver that holds the rows of the table under their names, and
/// nothing but rows of the table, holds the table.
pub proof fn lemma_function_registered(m: Map<Seq<char>, Function>, items: Seq<Function>)
    requires
        items.len() == 253,
        forall|i: int| 0 <= i < 253 ==> (#[trigger] items[i])@ == function_row(i),
        forall|i: int|
            0 <= i < 253 ==> match (#[trigger] items[i]).qualified() {
                Some(n) => m.contains_key(n) && m[n] == items[i],
                None => true,
            },
        forall|k: Seq<char>| #[trigger]
            m.contains_key(k) ==> exists|i: int|
                0 <= i < 253 && (#[trigger] items[i]).qualified() == Some(k),
    ensures
        holds_function_table(m),
{
    lemma_function_names(items);
    assert forall|i: int| 0 <= i < 253 implies m.contains_key(#[trigger] function_name(i)) && m[function_name(
        i,
    )]@ == function_row(i) by {
        assert(items[i].qualified() == Some(function_name(i)));
    }
    assert forall|k: Seq<char>| #[trigger] m.contains_key(k) implies function_named(k) by {
        let i = choose|i: int| 0 <= i < 253 && (#[trigger] items[i]).qualified() == Some(k);
        assert(function_name(i) == k);
    }
}

/// An argument of the atomic type `name`.
fn atomic(name: &str) -> (r: FunctionInputArg)
    ensures
        r@ == InputView::Atomic(name@),
{
    FunctionInputArg::Atomic(name.to_owned())
}

/// An argument that is a bag of the atomic type `name`.
fn bag(name: &str) -> (r: FunctionInputArg)
    ensures
        r@ == InputView::AtomicBag(name@),
{
    FunctionInputArg::AtomicBag(name.to_owned())
}

/// A built-in function.
fn mk_fn(
    id: &str,
    uri: &str,
    args: Vec<FunctionInputArg>,
    wildcard: bool,
    output_arg: FunctionOutputArg,
) -> (r: Function)
    ensures
        r@ == (FunctionView {
            id: id@,
            uri: uri@,
            ns: seq![SYSTEM_NS@],
            args: inputs_view(args@),
            wildcard,
            output: output_arg@,
        }),
{
    let mut ns: Vec<String> = Vec::new();
    ns.push(SYSTEM_NS.to_owned());
    proof {
        assert(path_view(ns@) =~= seq![SYSTEM_NS@]);
    }
    Function {
        id: id.to_owned(),
        ns,
        function_uri: uri.to_owned(),
        input_args: FunctionInputs { args, wildcard },
        output_arg,
    }
}

/// The built-in function at the place `i` of the table, for the rows 0 to 31.
fn function_at_1(i: usize) -> (r: Function)
    requires
        0 <= i < 32,
    ensures
        r@ == function_row_1(i as int),
{
    let mut args: Vec<FunctionInputArg> = Vec::new();
    if i == 0 {
        args.push(atomic("string"));
        args.push(atomic("string"));
        proof {
            assert(inputs_view(args@) =~= seq![InputView::Atomic("string"@), InputView::Atomic("string"@)]);
        }
        mk_fn("stringEqual", "urn:oasis:names:tc:xacml:1.0:function:string-equal", args, false, FunctionOutputArg::Atomic("boolean".to_owned()))
    } else if i == 1 {
        args.push(atomic("boolean"));
        args.push(atomic("boolean"));
        proof {
            assert(inputs_view(args@) =~= seq![InputView::Atomic("boolean"@), InputView::Atomic("boolean"@)]);
        }
        mk_fn("booleanEqual", "urn:oasis:names:tc:xacml:1.0:function:boolean-equal", args, false, FunctionOutputArg::Atomic("boolean".to_owned()))
    } else if i == 2 {
        args.push(atomic("integer"));
        args.push(atomic("integer"));
        proof {
            assert(inputs_view(args@) =~= seq![InputView::Atomic("integer"@), InputView::Atomic("integer"@)]);
        }
        mk_fn("integerEqual", "urn:oasis:names:tc:xacml:1.0:function:integer-equal", args, false, FunctionOutputArg::Atomic("boolean".to_owned()))
    } else if i == 3 {
        args.push(atomic("double"));
        args.push(atomic("double"));
        proof {
            assert(inputs_view(args@) =~= seq![InputView::Atomic("double"@), InputView::Atomic("double"@)]);
        }
        mk_fn("doubleEqual", "urn:oasis:names:tc:xacml:1.0:function:double-equal", args, false, FunctionOutputArg::Atomic("boolean".to_owned()))
    } else if i == 4 {
        args.push(atomic("date"));
        args.push(atomic("date"));
        proof {
            assert(inputs_view(args@) =~= seq![InputView::Atomic("date"@), InputView::Atomic("date"@)]);
        }
        mk_fn("dateEqual", "urn:oasis:names:tc:xacml:1.0:function:date-equal", args, false, FunctionOutputArg::Atomic("boolean".to_owned()))
    } else if i == 5 {
        args.push(atomic("time"));
        args.push(atomic("time"));
        proof {
            assert(inputs_view(args@) =~= seq![InputView::Atomic("time"@), InputView::Atomic("time"@)]);
        }
        mk_fn("timeEqual", "urn:oasis:names:tc:xacml:1.0:function:time-equal", args, false, FunctionOutputArg::Atomic("boolean".to_owned()))
    } else if i == 6 {
        args.push(atomic("dateTime"));
        args.push(atomic("dateTime"));
        proof {
            assert(inputs_view(args@) =~= seq![InputView::Atomic("dateTime"@), InputView::Atomic("dateTime"@)]);
        }
        mk_fn("dateTimeEqual", "urn:oasis:names:tc:xacml:1.0:function:dateTime-equal", args, false, FunctionOutputArg::Atomic("boolean".to_owned()))
    } else if i == 7 {
        args.push(atomic("dayTimeDuration"));
        args.push(atomic("dayTimeDuration"));
        proof {
            assert(inputs_view(args@) =~= seq![InputView::Atomic("dayTimeDuration"@), InputView::Atomic("dayTimeDuration"@)]);
        }
        mk_fn("dayTimeDurationEqual", "urn:oasis:names:tc:xacml:3.0:function:dayTimeDuration-equal", args, false, FunctionOutputArg::Atomic("boolean".to_owned()))
    } else if i == 8 {
        args.push(atomic("yearMonthDuration"));
        args.push(atomic("yearMonthDuration"));
        proof {
            assert(inputs_view(args@) =~= seq![InputView::Atomic("yearMonthDuration"@), InputView::Atomic("yearMonthDuration"@)]);
        }
        mk_fn("yearMonthDurationEqual", "urn:oasis:names:tc:xacml:3.0:function:yearMonthDuration-equal", args, false, FunctionOutputArg::Atomic("boolean".to_owned()))
    } else if i == 9 {
        args.push(atomic("string"));
        args.push(atomic("string"));
        proof {
            assert(inputs_view(args@) =~= seq![InputView::Atomic("string"@), InputView::Atomic("string"@)]);
        }
        mk_fn("stringEqualIgnoreCase", "urn:oasis:names:tc:xacml:3.0:function:string-equal-ignore-case", args, false, FunctionOutputArg::Atomic("boolean".to_owned()))
    } else if i == 10 {
        args.push(atomic("anyURI"));
        args.push(atomic("anyURI"));
        proof {
            assert(inputs_view(args@) =~= seq![InputView::Atomic("anyURI"@), InputView::Atomic("anyURI"@)]);
        }
        mk_fn("anyURIEqual", "urn:oasis:names:tc:xacml:1.0:function:anyURI-equal", args, false, FunctionOutputArg::Atomic("boolean".to_owned()))
    } else if i == 11 {
        args.push(atomic("x500Name"));
        args.push(atomic("x500Name"));
        proof {
            assert(inputs_view(args@) =~= seq![InputView::Atomic("x500Name"@), InputView::Atomic("x500Name"@)]);
        }
        mk_fn("x500NameEqual", "urn:oasis:names:tc:xacml:1.0:function:x500Name-equal", args, false, FunctionOutputArg::Atomic("boolean".to_owned()))
    } else if i == 12 {
        args.push(atomic("rfc822Name"));
        args.push(atomic("rfc822Name"));
        proof {
            assert(inputs_view(args@) =~= seq![InputView::Atomic("rfc822Name"@), InputView::Atomic("rfc822Name"@)]);
        }
        mk_fn("rfc822NameEqual", "urn:oasis:names:tc:xacml:1.0:function:rfc822Name-equal", args, false, FunctionOutputArg::Atomic("boolean".to_owned()))
    } else if i == 13 {
        args.push(atomic("hexBinary"));
        args.push(atomic("hexBinary"));
        proof {
            assert(inputs_view(args@) =~= seq![InputView::Atomic("hexBinary"@), InputView::Atomic("hexBinary"@)]);
        }
        mk_fn("hexBinaryEqual", "urn:oasis:names:tc:xacml:1.0:function:hexBinary-equal", args, false, FunctionOutputArg::Atomic("boolean".to_owned()))
    } else if i == 14 {
        args.push(atomic("base64Binary"));
        args.push(atomic("base64Binary"));
        proof {
            assert(inputs_view(args@) =~= seq![InputView::Atomic("base64Binary"@), InputView::Atomic("base64Binary"@)]);
        }
        mk_fn("base64BinaryEqual", "urn:oasis:names:tc:xacml:1.0:function:base64Binary-equal", args, false, FunctionOutputArg::Atomic("boolean".to_owned()))
    } else if i == 15 {
        args.push(atomic("integer"));
        args.push(atomic("integer"));
        args.push(atomic("integer"));
        proof {
            assert(inputs_view(args@) =~= seq![InputView::Atomic("integer"@), InputView::Atomic("integer"@), InputView::Atomic("integer"@)]);
        }
        mk_fn("integerAdd", "urn:oasis:names:tc:xacml:1.0:function:integer-add", args, true, FunctionOutputArg::Atomic("integer".to_owned()))
    } else if i == 16 {
        args.push(atomic("double"));
        args.push(atomic("double"));
        args.push(atomic("double"));
        proof {
            assert(inputs_view(args@) =~= seq![InputView::Atomic("double"@), InputView::Atomic("double"@), InputView::Atomic("double"@)]);
        }
        mk_fn("doubleAdd", "urn:oasis:names:tc:xacml:1.0:function:double-add", args, true, FunctionOutputArg::Atomic("double".to_owned()))
    } else if i == 17 {
        args.push(atomic("integer"));
        args.push(atomic("integer"));
        proof {
            assert(inputs_view(args@) =~= seq![InputView::Atomic("integer"@), InputView::Atomic("integer"@)]);
        }
        mk_fn("integerSubtract", "urn:oasis:names:tc:xacml:1.0:function:integer-subtract", args, false, FunctionOutputArg::Atomic("integer".to_owned()))
    } else if i == 18 {
        args.push(atomic("double"));
        args.push(atomic("double"));
        proof {
            assert(inputs_view(args@) =~= seq![InputView::Atomic("double"@), InputView::Atomic("double"@)]);
        }
        mk_fn("doubleSubtract", "urn:oasis:names:tc:xacml:1.0:function:double-subtract", args, false, FunctionOutputArg::Atomic("double".to_owned()))
    } else if i == 19 {
        args.push(atomic("integer"));
        args.push(atomic("integer"));
        args.push(atomic("integer"));
        proof {
            assert(inputs_view(args@) =~= seq![InputView::Atomic("integer"@), InputView::Atomic("integer"@), InputView::Atomic("integer"@)]);
        }
        mk_fn("integerMultiply", "urn:oasis:names:tc:xacml:1.0:function:integer-multiply", args, true, FunctionOutputArg::Atomic("integer".to_owned()))
    } else if i == 20 {
        args.push(atomic("double"));
        args.push(atomic("double"));
        args.push(atomic("double"));
        proof {
            assert(inputs_view(args@) =~= seq![InputView::Atomic("double"@), InputView::Atomic("double"@), InputView::Atomic("double"@)]);
        }
        mk_fn("doubleMultiply", "urn:oasis:names:tc:xacml:1.0:function:double-multiply", args, true, FunctionOutputArg::Atomic("double".to_owned()))
    } else if i == 21 {
        args.push(atomic("integer"));
        args.push(atomic("integer"));
        proof {
            assert(inputs_view(args@) =~= seq![InputView::Atomic("integer"@), InputView::Atomic("integer"@)]);
        }
        mk_fn("integerDivide", "urn:oasis:names:tc:xacml:1.0:function:integer-divide", args, false, FunctionOutputArg::Atomic("integer".to_owned()))
    } else if i == 22 {
        args.push(atomic("double"));
        args.push(atomic("double"));
        proof {
            assert(inputs_view(args@) =~= seq![InputView::Atomic("double"@), InputView::Atomic("double"@)]);
        }
        mk_fn("doubleDivide", "urn:oasis:names:tc:xacml:1.0:function:double-divide", args, false, FunctionOutputArg::Atomic("double".to_owned()))
    } else if i == 23 {
        args.push(atomic("integer"));
        args.push(atomic("integer"));
        proof {
            assert(inputs_view(args@) =~= seq![InputView::Atomic("integer"@), InputView::Atomic("integer"@)]);
        }
        mk_fn("integerMod", "urn:oasis:names:tc:xacml:1.0:function:integer-mod", args, false, FunctionOutputArg::Atomic("integer".to_owned()))
    } else if i == 24 {
        args.push(atomic("integer"));
        proof {
            assert(inputs_view(args@) =~= seq![InputView::Atomic("integer"@)]);
        }
        mk_fn("integerAbs", "urn:oasis:names:tc:xacml:1.0:function:integer-abs", args, false, FunctionOutputArg::Atomic("integer".to_owned()))
    } else if i == 25 {
        args.push(atomic("double"));
        proof {
            assert(inputs_view(args@) =~= seq![InputView::Atomic("double"@)]);
        }
        mk_fn("doubleAbs", "urn:oasis:names:tc:xacml:1.0:function:double-abs", args, false, FunctionOutputArg::Atomic("double".to_owned()))
    } else if i == 26 {
        args.push(atomic("double"));
        proof {
            assert(inputs_view(args@) =~= seq![InputView::Atomic("double"@)]);
        }
        mk_fn("round", "urn:oasis:names:tc:xacml:1.0:function:round", args, false, FunctionOutputArg::Atomic("double".to_owned()))
    } else if i == 27 {
        args.push(atomic("double"));
        proof {
            assert(inputs_view(args@) =~= seq![InputView::Atomic("double"@)]);
        }
        mk_fn("floor", "urn:oasis:names:tc:xacml:1.0:function:floor", args, false, FunctionOutputArg::Atomic("double".to_owned()))
    } else if i == 28 {
        args.push(atomic("string"));
        proof {
            assert(inputs_view(args@) =~= seq![InputView::Atomic("string"@)]);
        }
        mk_fn("stringNormalizeSpace", "urn:oasis:names:tc:xacml:1.0:function:string-normalize-space", args, false, FunctionOutputArg::Atomic("string".to_owned()))
    } else if i == 29 {
        args.push(atomic("string"));
        proof {
            assert(inputs_view(args@) =~= seq![InputView::Atomic("string"@)]);
        }
        mk_fn("stringNormalizeToLowerCase", "urn:oasis:names:tc:xacml:1.0:function:string-normalize-to-lower-case", args, false, FunctionOutputArg::Atomic("string".to_owned()))
    } else if i == 30 {
        args.push(atomic("double"));
        proof {
            assert(inputs_view(args@) =~= seq![InputView::Atomic("double"@)]);
        }
        mk_fn("doubleToInteger", "urn:oasis:names:tc:xacml:1.0:function:double-to-integer", args, false, FunctionOutputArg::Atomic("integer".to_owned()))
    } else {
        args.push(atomic("integer"));
        proof {
            assert(inputs_view(args@) =~= seq![InputView::Atomic("integer"@)]);
        }
        mk_fn("integerToDouble", "urn:oasis:names:tc:xacml:1.0:function:integer-to-double", args, false, FunctionOutputArg::Atomic("double".to_owned()))
    }
}

/// The built-in function at the place `i` of the table, for the rows 32 to 63.
fn function_at_2(i: usize) -> (r: Function)
    requires
        32 <= i < 64,
    ensures
        r@ == function_row_2(i as int),
{
    let mut args: Vec<FunctionInputArg> = Vec::new();
    if i == 32 {
        args.push(atomic("boolean"));
        proof {
            assert(inputs_view(args@) =~= seq![InputView::Atomic("boolean"@)]);
        }
        mk_fn("orFunction", "urn:oasis:names:tc:xacml:1.0:function:or", args, true, FunctionOutputArg::Atomic("boolean".to_owned()))
    } else if i == 33 {
        args.push(atomic("boolean"));
        proof {
            assert(inputs_view(args@) =~= seq![InputView::Atomic("boolean"@)]);
        }
        mk_fn("andFunction", "urn:oasis:names:tc:xacml:1.0:function:and", args, true, FunctionOutputArg::Atomic("boolean".to_owned()))
    } else if i == 34 {
        args.push(atomic("integer"));
        args.push(atomic("boolean"));
        proof {
            assert(inputs_view(args@) =~= seq![InputView::Atomic("integer"@), InputView::Atomic("boolean"@)]);
        }
        mk_fn("nOf", "urn:oasis:names:tc:xacml:1.0:function:n-of", args, true, FunctionOutputArg::Atomic("boolean".to_owned()))
    } else if i == 35 {
        args.push(atomic("boolean"));
        proof {
            assert(inputs_view(args@) =~= seq![InputView::Atomic("boolean"@)]);
        }
        mk_fn("not", "urn:oasis:names:tc:xacml:1.0:function:not", args, false, FunctionOutputArg::Atomic("boolean".to_owned()))
    } else if i == 36 {
        args.push(atomic("integer"));
        args.push(atomic("integer"));
        proof {
            assert(inputs_view(args@) =~= seq![InputView::Atomic("integer"@), InputView::Atomic("integer"@)]);
        }
        mk_fn("integerGreaterThan", "urn:oasis:names:tc:xacml:1.0:function:integer-greater-than", args, false, FunctionOutputArg::Atomic("boolean".to_owned()))
    } else if i == 37 {
        args.push(atomic("integer"));
        args.push(atomic("integer"));
        proof {
            assert(inputs_view(args@) =~= seq![InputView::Atomic("integer"@), InputView::Atomic("integer"@)]);
        }
        mk_fn("integerGreaterThanOrEqual", "urn:oasis:names:tc:xacml:1.0:function:integer-greater-than-or-equal", args, false, FunctionOutputArg::Atomic("boolean".to_owned()))
    } else if i == 38 {
        args.push(atomic("integer"));
        args.push(atomic("integer"));
        proof {
            assert(inputs_view(args@) =~= seq![InputView::Atomic("integer"@), InputView::Atomic("integer"@)]);
        }
        mk_fn("integerLessThan", "urn:oasis:names:tc:xacml:1.0:function:integer-less-than", args, false, FunctionOutputArg::Atomic("boolean".to_owned()))
    } else if i == 39 {
        args.push(atomic("integer"));
        args.push(atomic("integer"));
        proof {
            assert(inputs_view(args@) =~= seq![InputView::Atomic("integer"@), InputView::Atomic("integer"@)]);
        }
        mk_fn("integerLessThanOrEqual", "urn:oasis:names:tc:xacml:1.0:function:integer-less-than-or-equal", args, false, FunctionOutputArg::Atomic("boolean".to_owned()))
    } else if i == 40 {
        args.push(atomic("double"));
        args.push(atomic("double"));
        proof {
            assert(inputs_view(args@) =~= seq![InputView::Atomic("double"@), InputView::Atomic("double"@)]);
        }
        mk_fn("doubleGreaterThan", "urn:oasis:names:tc:xacml:1.0:function:double-greater-than", args, false, FunctionOutputArg::Atomic("boolean".to_owned()))
    } else if i == 41 {
        args.push(atomic("double"));
        args.push(atomic("double"));
        proof {
            assert(inputs_view(args@) =~= seq![InputView::Atomic("double"@), InputView::Atomic("double"@)]);
        }
        mk_fn("doubleGreaterThanOrEqual", "urn:oasis:names:tc:xacml:1.0:function:double-greater-than-or-equal", args, false, FunctionOutputArg::Atomic("boolean".to_owned()))
    } else if i == 42 {
        args.push(atomic("double"));
        args.push(atomic("double"));
        proof {
            assert(inputs_view(args@) =~= seq![InputView::Atomic("double"@), InputView::Atomic("double"@)]);
        }
        mk_fn("doubleLessThan", "urn:oasis:names:tc:xacml:1.0:function:double-less-than", args, false, FunctionOutputArg::Atomic("boolean".to_owned()))
    } else if i == 43 {
        args.push(atomic("double"));
        args.push(atomic("double"));
        proof {
            assert(inputs_view(args@) =~= seq![InputView::Atomic("double"@), InputView::Atomic("double"@)]);
        }
        mk_fn("doubleLessThanOrEqual", "urn:oasis:names:tc:xacml:1.0:function:double-less-than-or-equal", args, false, FunctionOutputArg::Atomic("boolean".to_owned()))
    } else if i == 44 {
        args.push(atomic("dateTime"));
        args.push(atomic("dayTimeDuration"));
        proof {
            assert(inputs_view(args@) =~= seq![InputView::Atomic("dateTime"@), InputView::Atomic("dayTimeDuration"@)]);
        }
        mk_fn("dateTimeAddDayTimeDuration", "urn:oasis:names:tc:xacml:3.0:function:dateTime-add-dayTimeDuration", args, false, FunctionOutputArg::Atomic("dateTime".to_owned()))
    } else if i == 45 {
        args.push(atomic("dateTime"));
        args.push(atomic("yearMonthDuration"));
        proof {
            assert(inputs_view(args@) =~= seq![InputView::Atomic("dateTime"@), InputView::Atomic("yearMonthDuration"@)]);
        }
        mk_fn("dateTimeAddYearMonthDuration", "urn:oasis:names:tc:xacml:3.0:function:dateTime-add-yearMonthDuration", args, false, FunctionOutputArg::Atomic("dateTime".to_owned()))
    } else if i == 46 {
        args.push(atomic("dateTime"));
        args.push(atomic("dayTimeDuration"));
        proof {
            assert(inputs_view(args@) =~= seq![InputView::Atomic("dateTime"@), InputView::Atomic("dayTimeDuration"@)]);
        }
        mk_fn("dateTimeSubtractDayTimeDuration", "urn:oasis:names:tc:xacml:3.0:function:dateTime-subtract-dayTimeDuration", args, false, FunctionOutputArg::Atomic("dateTime".to_owned()))
    } else if i == 47 {
        args.push(atomic("dateTime"));
        args.push(atomic("yearMonthDuration"));
        proof {
            assert(inputs_view(args@) =~= seq![InputView::Atomic("dateTime"@), InputView::Atomic("yearMonthDuration"@)]);
        }
        mk_fn("dateTimeSubtractYearMonthDuration", "urn:oasis:names:tc:xacml:3.0:function:dateTime-subtract-yearMonthDuration", args, false, FunctionOutputArg::Atomic("dateTime".to_owned()))
    } else if i == 48 {
        args.push(atomic("dateTime"));
        args.push(atomic("dayTimeDuration"));
        proof {
            assert(inputs_view(args@) =~= seq![InputView::Atomic("dateTime"@), InputView::Atomic("dayTimeDuration"@)]);
        }
        mk_fn("dateAddYearMonthDuration", "urn:oasis:names:tc:xacml:3.0:function:date-add-yearMonthDuration", args, false, FunctionOutputArg::Atomic("date".to_owned()))
    } else if i == 49 {
        args.push(atomic("date"));
        args.push(atomic("yearMonthDuration"));
        proof {
            assert(inputs_view(args@) =~= seq![InputView::Atomic("date"@), InputView::Atomic("yearMonthDuration"@)]);
        }
        mk_fn("dateSubtractYearMonthDuration", "urn:oasis:names:tc:xacml:3.0:function:date-subtract-yearMonthDuration", args, false, FunctionOutputArg::Atomic("date".to_owned()))
    } else if i == 50 {
        args.push(atomic("string"));
        args.push(atomic("string"));
        proof {
            assert(inputs_view(args@) =~= seq![InputView::Atomic("string"@), InputView::Atomic("string"@)]);
        }
        mk_fn("stringGreaterThan", "urn:oasis:names:tc:xacml:1.0:function:string-greater-than", args, false, FunctionOutputArg::Atomic("boolean".to_owned()))
    } else if i == 51 {
        args.push(atomic("string"));
        args.push(atomic("string"));
        proof {
            assert(inputs_view(args@) =~= seq![InputView::Atomic("string"@), InputView::Atomic("string"@)]);
        }
        mk_fn("stringGreaterThanOrEqual", "urn:oasis:names:tc:xacml:1.0:function:string-greater-than-or-equal", args, false, FunctionOutputArg::Atomic("boolean".to_owned()))
    } else if i == 52 {
        args.push(atomic("string"));
        args.push(atomic("string"));
        proof {
            assert(inputs_view(args@) =~= seq![InputView::Atomic("string"@), InputView::Atomic("string"@)]);
        }
        mk_fn("stringLessThan", "urn:oasis:names:tc:xacml:1.0:function:string-less-than", args, false, FunctionOutputArg::Atomic("boolean".to_owned()))
    } else if i == 53 {
        args.push(atomic("string"));
        args.push(atomic("string"));
        proof {
            assert(inputs_view(args@) =~= seq![InputView::Atomic("string"@), InputView::Atomic("string"@)]);
        }
        mk_fn("stringLessThanOrEqual", "urn:oasis:names:tc:xacml:1.0:function:string-less-than-or-equal", args, false, FunctionOutputArg::Atomic("boolean".to_owned()))
    } else if i == 54 {
        args.push(atomic("time"));
        args.push(atomic("time"));
        proof {
            assert(inputs_view(args@) =~= seq![InputView::Atomic("time"@), InputView::Atomic("time"@)]);
        }
        mk_fn("timeGreaterThan", "urn:oasis:names:tc:xacml:1.0:function:time-greater-than", args, false, FunctionOutputArg::Atomic("boolean".to_owned()))
    } else if i == 55 {
        args.push(atomic("time"));
        args.push(atomic("time"));
        proof {
            assert(inputs_view(args@) =~= seq![InputView::Atomic("time"@), InputView::Atomic("time"@)]);
        }
        mk_fn("timeGreaterThanOrEqual", "urn:oasis:names:tc:xacml:1.0:function:time-greater-than-or-equal", args, false, FunctionOutputArg::Atomic("boolean".to_owned()))
    } else if i == 56 {
        args.push(atomic("time"));
        args.push(atomic("time"));
        proof {
            assert(inputs_view(args@) =~= seq![InputView::Atomic("time"@), InputView::Atomic("time"@)]);
        }
        mk_fn("timeLessThan", "urn:oasis:names:tc:xacml:1.0:function:time-less-than", args, false, FunctionOutputArg::Atomic("boolean".to_owned()))
    } else if i == 57 {
        args.push(atomic("time"));
        args.push(atomic("time"));
        proof {
            assert(inputs_view(args@) =~= seq![InputView::Atomic("time"@), InputView::Atomic("time"@)]);
        }
        mk_fn("timeLessThanOrEqual", "urn:oasis:names:tc:xacml:1.0:function:time-less-than-or-equal", args, false, FunctionOutputArg::Atomic("boolean".to_owned()))
    } else if i == 58 {
        args.push(atomic("time"));
        args.push(atomic("time"));
        proof {
            assert(inputs_view(args@) =~= seq![InputView::Atomic("time"@), InputView::Atomic("time"@)]);
        }
        mk_fn("timeInRange", "urn:oasis:names:tc:xacml:2.0:function:time-in-range", args, false, FunctionOutputArg::Atomic("boolean".to_owned()))
    } else if i == 59 {
        args.push(atomic("dateTime"));
        args.push(atomic("dateTime"));
        proof {
            assert(inputs_view(args@) =~= seq![InputView::Atomic("dateTime"@), InputView::Atomic("dateTime"@)]);
        }
        mk_fn("dateTimeGreaterThan", "urn:oasis:names:tc:xacml:1.0:function:dateTime-greater-than", args, false, FunctionOutputArg::Atomic("boolean".to_owned()))
    } else if i == 60 {
        args.push(atomic("dateTime"));
        args.push(atomic("dateTime"));
        proof {
            assert(inputs_view(args@) =~= seq![InputView::Atomic("dateTime"@), InputView::Atomic("dateTime"@)]);
        }
        mk_fn("dateTimeGreaterThanOrEqual", "urn:oasis:names:tc:xacml:1.0:function:dateTime-greater-than-or-equal", args, false, FunctionOutputArg::Atomic("boolean".to_owned()))
    } else if i == 61 {
        args.push(atomic("dateTime"));
        args.push(atomic("dateTime"));
        proof {
            assert(inputs_view(args@) =~= seq![InputView::Atomic("dateTime"@), InputView::Atomic("dateTime"@)]);
        }
        mk_fn("dateTimeLessThan", "urn:oasis:names:tc:xacml:1.0:function:dateTime-less-than", args, false, FunctionOutputArg::Atomic("boolean".to_owned()))
    } else if i == 62 {
        args.push(atomic("dateTime"));
        args.push(atomic("dateTime"));
        proof {
            assert(inputs_view(args@) =~= seq![InputView::Atomic("dateTime"@), InputView::Atomic("dateTime"@)]);
        }
        mk_fn("dateTimeLessThanOrEqual", "urn:oasis:names:tc:xacml:1.0:function:dateTime-less-than-or-equal", args, false, FunctionOutputArg::Atomic("boolean".to_owned()))
    } else {
        args.push(atomic("date"));
        args.push(atomic("date"));
        proof {
            assert(inputs_view(args@) =~= seq![InputView::Atomic("date"@), InputView::Atomic("date"@)]);
        }
        mk_fn("dateGreaterThan", "urn:oasis:names:tc:xacml:1.0:function:date-greater-than", args, false, FunctionOutputArg::Atomic("boolean".to_owned()))
    }
}

/// The built-in function at the place `i` of the table, for the rows 64 to 95.
fn function_at_3(i: usize) -> (r: Function)
    requires
        64 <= i < 96,
    ensures
        r@ == function_row_3(i as int),
{
    let mut args: Vec<FunctionInputArg> = Vec::new();
    if i == 64 {
        args.push(atomic("date"));
        args.push(atomic("date"));
        proof {
            assert(inputs_view(args@) =~= seq![InputView::Atomic("date"@), InputView::Atomic("date"@)]);
        }
        mk_fn("dateGreaterThanOrEqual", "urn:oasis:names:tc:xacml:1.0:function:date-greater-than-or-equal", args, false, FunctionOutputArg::Atomic("boolean".to_owned()))
    } else if i == 65 {
        args.push(atomic("date"));
        args.push(atomic("date"));
        proof {
            assert(inputs_view(args@) =~= seq![InputView::Atomic("date"@), InputView::Atomic("date"@)]);
        }
        mk_fn("dateLessThan", "urn:oasis:names:tc:xacml:1.0:function:date-less-than", args, false, FunctionOutputArg::Atomic("boolean".to_owned()))
    } else if i == 66 {
        args.push(atomic("date"));
        args.push(atomic("date"));
        proof {
            assert(inputs_view(args@) =~= seq![InputView::Atomic("date"@), InputView::Atomic("date"@)]);
        }
        mk_fn("dateLessThanOrEqual", "urn:oasis:names:tc:xacml:1.0:function:date-less-than-or-equal", args, false, FunctionOutputArg::Atomic("boolean".to_owned()))
    } else if i == 67 {
        args.push(bag("string"));
        proof {
            assert(inputs_view(args@) =~= seq![InputView::AtomicBag("string"@)]);
        }
        mk_fn("stringOneAndOnly", "urn:oasis:names:tc:xacml:1.0:function:string-one-and-only", args, false, FunctionOutputArg::Atomic("string".to_owned()))
    } else if i == 68 {
        args.push(bag("string"));
        proof {
            assert(inputs_view(args@) =~= seq![InputView::AtomicBag("string"@)]);
        }
        mk_fn("stringBagSize", "urn:oasis:names:tc:xacml:1.0:function:string-bag-size", args, false, FunctionOutputArg::Atomic("integer".to_owned()))
    } else if i == 69 {
        args.push(atomic("string"));
        args.push(bag("string"));
        proof {
            assert(inputs_view(args@) =~= seq![InputView::Atomic("string"@), InputView::AtomicBag("string"@)]);
        }
        mk_fn("stringIsIn", "urn:oasis:names:tc:xacml:1.0:function:string-is-in", args, false, FunctionOutputArg::Atomic("boolean".to_owned()))
    } else if i == 70 {
        args.push(atomic("string"));
        proof {
            assert(inputs_view(args@) =~= seq![InputView::Atomic("string"@)]);
        }
        mk_fn("stringBag", "urn:oasis:names:tc:xacml:1.0:function:string-bag", args, true, FunctionOutputArg::AtomicBag("string".to_owned()))
    } else if i == 71 {
        args.push(bag("boolean"));
        proof {
            assert(inputs_view(args@) =~= seq![InputView::AtomicBag("boolean"@)]);
        }
        mk_fn("booleanOneAndOnly", "urn:oasis:names:tc:xacml:1.0:function:boolean-one-and-only", args, false, FunctionOutputArg::Atomic("boolean".to_owned()))
    } else if i == 72 {
        args.push(bag("boolean"));
        proof {
            assert(inputs_view(args@) =~= seq![InputView::AtomicBag("boolean"@)]);
        }
        mk_fn("booleanBagSize", "urn:oasis:names:tc:xacml:1.0:function:boolean-bag-size", args, false, FunctionOutputArg::Atomic("integer".to_owned()))
    } else if i == 73 {
        args.push(atomic("boolean"));
        args.push(bag("boolean"));
        proof {
            assert(inputs_view(args@) =~= seq![InputView::Atomic("boolean"@), InputView::AtomicBag("boolean"@)]);
        }
        mk_fn("booleanIsIn", "urn:oasis:names:tc:xacml:1.0:function:boolean-is-in", args, false, FunctionOutputArg::Atomic("boolean".to_owned()))
    } else if i == 74 {
        args.push(atomic("boolean"));
        proof {
            assert(inputs_view(args@) =~= seq![InputView::Atomic("boolean"@)]);
        }
        mk_fn("booleanBag", "urn:oasis:names:tc:xacml:1.0:function:boolean-bag", args, true, FunctionOutputArg::AtomicBag("boolean".to_owned()))
    } else if i == 75 {
        args.push(bag("integer"));
        proof {
            assert(inputs_view(args@) =~= seq![InputView::AtomicBag("integer"@)]);
        }
        mk_fn("integerOneAndOnly", "urn:oasis:names:tc:xacml:1.0:function:integer-one-and-only", args, false, FunctionOutputArg::Atomic("integer".to_owned()))
    } else if i == 76 {
        args.push(bag("integer"));
        proof {
            assert(inputs_view(args@) =~= seq![InputView::AtomicBag("integer"@)]);
        }
        mk_fn("integerBagSize", "urn:oasis:names:tc:xacml:1.0:function:integer-bag-size", args, false, FunctionOutputArg::Atomic("integer".to_owned()))
    } else if i == 77 {
        args.push(atomic("integer"));
        args.push(bag("integer"));
        proof {
            assert(inputs_view(args@) =~= seq![InputView::Atomic("integer"@), InputView::AtomicBag("integer"@)]);
        }
        mk_fn("integerIsIn", "urn:oasis:names:tc:xacml:1.0:function:integer-is-in", args, false, FunctionOutputArg::Atomic("boolean".to_owned()))
    } else if i == 78 {
        args.push(atomic("integer"));
        proof {
            assert(inputs_view(args@) =~= seq![InputView::Atomic("integer"@)]);
        }
        mk_fn("integerBag", "urn:oasis:names:tc:xacml:1.0:function:integer-bag", args, true, FunctionOutputArg::AtomicBag("integer".to_owned()))
    } else if i == 79 {
        args.push(bag("double"));
        proof {
            assert(inputs_view(args@) =~= seq![InputView::AtomicBag("double"@)]);
        }
        mk_fn("doubleOneAndOnly", "urn:oasis:names:tc:xacml:1.0:function:double-one-and-only", args, false, FunctionOutputArg::Atomic("double".to_owned()))
    } else if i == 80 {
        args.push(bag("double"));
        proof {
            assert(inputs_view(args@) =~= seq![InputView::AtomicBag("double"@)]);
        }
        mk_fn("doubleBagSize", "urn:oasis:names:tc:xacml:1.0:function:double-bag-size", args, false, FunctionOutputArg::Atomic("integer".to_owned()))
    } else if i == 81 {
        args.push(atomic("double"));
        args.push(bag("double"));
        proof {
            assert(inputs_view(args@) =~= seq![InputView::Atomic("double"@), InputView::AtomicBag("double"@)]);
        }
        mk_fn("doubleIsIn", "urn:oasis:names:tc:xacml:1.0:function:double-is-in", args, false, FunctionOutputArg::Atomic("boolean".to_owned()))
    } else if i == 82 {
        args.push(atomic("double"));
        proof {
            assert(inputs_view(args@) =~= seq![InputView::Atomic("double"@)]);
        }
        mk_fn("doubleBag", "urn:oasis:names:tc:xacml:1.0:function:double-bag", args, true, FunctionOutputArg::AtomicBag("double".to_owned()))
    } else if i == 83 {
        args.push(bag("time"));
        proof {
            assert(inputs_view(args@) =~= seq![InputView::AtomicBag("time"@)]);
        }
        mk_fn("timeOneAndOnly", "urn:oasis:names:tc:xacml:1.0:function:time-one-and-only", args, false, FunctionOutputArg::Atomic("time".to_owned()))
    } else if i == 84 {
        args.push(bag("time"));
        proof {
            assert(inputs_view(args@) =~= seq![InputView::AtomicBag("time"@)]);
        }
        mk_fn("timeBagSize", "urn:oasis:names:tc:xacml:1.0:function:time-bag-size", args, false, FunctionOutputArg::Atomic("integer".to_owned()))
    } else if i == 85 {
        args.push(atomic("time"));
        args.push(bag("time"));
        proof {
            assert(inputs_view(args@) =~= seq![InputView::Atomic("time"@), InputView::AtomicBag("time"@)]);
        }
        mk_fn("timeIsIn", "urn:oasis:names:tc:xacml:1.0:function:time-is-in", args, false, FunctionOutputArg::Atomic("boolean".to_owned()))
    } else if i == 86 {
        args.push(atomic("time"));
        proof {
            assert(inputs_view(args@) =~= seq![InputView::Atomic("time"@)]);
        }
        mk_fn("timeBag", "urn:oasis:names:tc:xacml:1.0:function:time-bag", args, true, FunctionOutputArg::AtomicBag("time".to_owned()))
    } else if i == 87 {
        args.push(bag("date"));
        proof {
            assert(inputs_view(args@) =~= seq![InputView::AtomicBag("date"@)]);
        }
        mk_fn("dateOneAndOnly", "urn:oasis:names:tc:xacml:1.0:function:date-one-and-only", args, false, FunctionOutputArg::Atomic("date".to_owned()))
    } else if i == 88 {
        args.push(bag("date"));
        proof {
            assert(inputs_view(args@) =~= seq![InputView::AtomicBag("date"@)]);
        }
        mk_fn("dateBagSize", "urn:oasis:names:tc:xacml:1.0:function:date-bag-size", args, false, FunctionOutputArg::Atomic("integer".to_owned()))
    } else if i == 89 {
        args.push(atomic("date"));
        args.push(bag("date"));
        proof {
            assert(inputs_view(args@) =~= seq![InputView::Atomic("date"@), InputView::AtomicBag("date"@)]);
        }
        mk_fn("dateIsIn", "urn:oasis:names:tc:xacml:1.0:function:date-is-in", args, false, FunctionOutputArg::Atomic("boolean".to_owned()))
    } else if i == 90 {
        args.push(atomic("date"));
        proof {
            assert(inputs_view(args@) =~= seq![InputView::Atomic("date"@)]);
        }
        mk_fn("dateBag", "urn:oasis:names:tc:xacml:1.0:function:date-bag", args, true, FunctionOutputArg::AtomicBag("date".to_owned()))
    } else if i == 91 {
        args.push(bag("dateTime"));
        proof {
            assert(inputs_view(args@) =~= seq![InputView::AtomicBag("dateTime"@)]);
        }
        mk_fn("dateTimeOneAndOnly", "urn:oasis:names:tc:xacml:1.0:function:dateTime-one-and-only", args, false, FunctionOutputArg::Atomic("dateTime".to_owned()))
    } else if i == 92 {
        args.push(bag("dateTime"));
        proof {
            assert(inputs_view(args@) =~= seq![InputView::AtomicBag("dateTime"@)]);
        }
        mk_fn("dateTimeBagSize", "urn:oasis:names:tc:xacml:1.0:function:dateTime-bag-size", args, false, FunctionOutputArg::Atomic("integer".to_owned()))
    } else if i == 93 {
        args.push(atomic("dateTime"));
        args.push(bag("dateTime"));
        proof {
            assert(inputs_view(args@) =~= seq![InputView::Atomic("dateTime"@), InputView::AtomicBag("dateTime"@)]);
        }
        mk_fn("dateTimeIsIn", "urn:oasis:names:tc:xacml:1.0:function:dateTime-is-in", args, false, FunctionOutputArg::Atomic("boolean".to_owned()))
    } else if i == 94 {
        args.push(atomic("dateTime"));
        proof {
            assert(inputs_view(args@) =~= seq![InputView::Atomic("dateTime"@)]);
        }
        mk_fn("dateTimeBag", "urn:oasis:names:tc:xacml:1.0:function:dateTime-bag", args, true, FunctionOutputArg::AtomicBag("dateTime".to_owned()))
    } else {
        args.push(bag("anyURI"));
        proof {
            assert(inputs_view(args@) =~= seq![InputView::AtomicBag("anyURI"@)]);
        }
        mk_fn("anyURIOneAndOnly", "urn:oasis:names:tc:xacml:1.0:function:anyURI-one-and-only", args, false, FunctionOutputArg::Atomic("anyURI".to_owned()))
    }
}

/// The built-in function at the place `i` of the table, for the rows 96 to 127.
fn function_at_4(i: usize) -> (r: Function)
    requires
        96 <= i < 128,
    ensures
        r@ == function_row_4(i as int),
{
    let mut args: Vec<FunctionInputArg> = Vec::new();
    if i == 96 {
        args.push(bag("anyURI"));
        proof {
            assert(inputs_view(args@) =~= seq![InputView::AtomicBag("anyURI"@)]);
        }
        mk_fn("anyURIBagSize", "urn:oasis:names:tc:xacml:1.0:function:anyURI-bag-size", args, false, FunctionOutputArg::Atomic("integer".to_owned()))
    } else if i == 97 {
        args.push(atomic("anyURI"));
        args.push(bag("anyURI"));
        proof {
            assert(inputs_view(args@) =~= seq![InputView::Atomic("anyURI"@), InputView::AtomicBag("anyURI"@)]);
        }
        mk_fn("anyURIIsIn", "urn:oasis:names:tc:xacml:1.0:function:anyURI-is-in", args, false, FunctionOutputArg::Atomic("boolean".to_owned()))
    } else if i == 98 {
        args.push(atomic("anyURI"));
        proof {
            assert(inputs_view(args@) =~= seq![InputView::Atomic("anyURI"@)]);
        }
        mk_fn("anyURIBag", "urn:oasis:names:tc:xacml:1.0:function:anyURI-bag", args, true, FunctionOutputArg::AtomicBag("anyURI".to_owned()))
    } else if i == 99 {
        args.push(bag("hexBinary"));
        proof {
            assert(inputs_view(args@) =~= seq![InputView::AtomicBag("hexBinary"@)]);
        }
        mk_fn("hexBinaryOneAndOnly", "urn:oasis:names:tc:xacml:1.0:function:hexBinary-one-and-only", args, false, FunctionOutputArg::Atomic("hexBinary".to_owned()))
    } else if i == 100 {
        args.push(bag("hexBinary"));
        proof {
            assert(inputs_view(args@) =~= seq![InputView::AtomicBag("hexBinary"@)]);
        }
        mk_fn("hexBinaryBagSize", "urn:oasis:names:tc:xacml:1.0:function:hexBinary-bag-size", args, false, FunctionOutputArg::Atomic("integer".to_owned()))
    } else if i == 101 {
        args.push(atomic("hexBinary"));
        args.push(bag("hexBinary"));
        proof {
            assert(inputs_view(args@) =~= seq![InputView::Atomic("hexBinary"@), InputView::AtomicBag("hexBinary"@)]);
        }
        mk_fn("hexBinaryIsIn", "urn:oasis:names:tc:xacml:1.0:function:hexBinary-is-in", args, false, FunctionOutputArg::Atomic("boolean".to_owned()))
    } else if i == 102 {
        args.push(atomic("hexBinary"));
        proof {
            assert(inputs_view(args@) =~= seq![InputView::Atomic("hexBinary"@)]);
        }
        mk_fn("hexBinaryBag", "urn:oasis:names:tc:xacml:1.0:function:hexBinary-bag", args, true, FunctionOutputArg::AtomicBag("hexBinary".to_owned()))
    } else if i == 103 {
        args.push(bag("base64Binary"));
        proof {
            assert(inputs_view(args@) =~= seq![InputView::AtomicBag("base64Binary"@)]);
        }
        mk_fn("base64BinaryOneAndOnly", "urn:oasis:names:tc:xacml:1.0:function:base64Binary-one-and-only", args, false, FunctionOutputArg::Atomic("base64Binary".to_owned()))
    } else if i == 104 {
        args.push(bag("base64Binary"));
        proof {
            assert(inputs_view(args@) =~= seq![InputView::AtomicBag("base64Binary"@)]);
        }
        mk_fn("base64BinaryBagSize", "urn:oasis:names:tc:xacml:1.0:function:base64Binary-bag-size", args, false, FunctionOutputArg::Atomic("integer".to_owned()))
    } else if i == 105 {
        args.push(atomic("base64Binary"));
        args.push(bag("base64Binary"));
        proof {
            assert(inputs_view(args@) =~= seq![InputView::Atomic("base64Binary"@), InputView::AtomicBag("base64Binary"@)]);
        }
        mk_fn("base64BinaryIsIn", "urn:oasis:names:tc:xacml:1.0:function:base64Binary-is-in", args, false, FunctionOutputArg::Atomic("boolean".to_owned()))
    } else if i == 106 {
        args.push(atomic("base64Binary"));
        proof {
            assert(inputs_view(args@) =~= seq![InputView::Atomic("base64Binary"@)]);
        }
        mk_fn("base64BinaryBag", "urn:oasis:names:tc:xacml:1.0:function:base64Binary-bag", args, true, FunctionOutputArg::AtomicBag("base64Binary".to_owned()))
    } else if i == 107 {
        args.push(bag("dayTimeDuration"));
        proof {
            assert(inputs_view(args@) =~= seq![InputView::AtomicBag("dayTimeDuration"@)]);
        }
        mk_fn("dayTimeDurationOneAndOnly", "urn:oasis:names:tc:xacml:3.0:function:dayTimeDuration-one-and-only", args, false, FunctionOutputArg::Atomic("dayTimeDuration".to_owned()))
    } else if i == 108 {
        args.push(bag("dayTimeDuration"));
        proof {
            assert(inputs_view(args@) =~= seq![InputView::AtomicBag("dayTimeDuration"@)]);
        }
        mk_fn("dayTimeDurationBagSize", "urn:oasis:names:tc:xacml:3.0:function:dayTimeDuration-bag-size", args, false, FunctionOutputArg::Atomic("integer".to_owned()))
    } else if i == 109 {
        args.push(atomic("dayTimeDuration"));
        args.push(bag("dayTimeDuration"));
        proof {
            assert(inputs_view(args@) =~= seq![InputView::Atomic("dayTimeDuration"@), InputView::AtomicBag("dayTimeDuration"@)]);
        }
        mk_fn("dayTimeDurationIsIn", "urn:oasis:names:tc:xacml:3.0:function:dayTimeDuration-is-in", args, false, FunctionOutputArg::Atomic("boolean".to_owned()))
    } else if i == 110 {
        args.push(atomic("dayTimeDuration"));
        proof {
            assert(inputs_view(args@) =~= seq![InputView::Atomic("dayTimeDuration"@)]);
        }
        mk_fn("dayTimeDurationBag", "urn:oasis:names:tc:xacml:3.0:function:dayTimeDuration-bag", args, true, FunctionOutputArg::AtomicBag("dayTimeDuration".to_owned()))
    } else if i == 111 {
        args.push(bag("yearMonthDuration"));
        proof {
            assert(inputs_view(args@) =~= seq![InputView::AtomicBag("yearMonthDuration"@)]);
        }
        mk_fn("yearMonthDurationOneAndOnly", "urn:oasis:names:tc:xacml:3.0:function:yearMonthDuration-one-and-only", args, false, FunctionOutputArg::Atomic("yearMonthDuration".to_owned()))
    } else if i == 112 {
        args.push(bag("yearMonthDuration"));
        proof {
            assert(inputs_view(args@) =~= seq![InputView::AtomicBag("yearMonthDuration"@)]);
        }
        mk_fn("yearMonthDurationBagSize", "urn:oasis:names:tc:xacml:3.0:function:yearMonthDuration-bag-size", args, false, FunctionOutputArg::Atomic("integer".to_owned()))
    } else if i == 113 {
        args.push(atomic("yearMonthDuration"));
        args.push(bag("yearMonthDuration"));
        proof {
            assert(inputs_view(args@) =~= seq![InputView::Atomic("yearMonthDuration"@), InputView::AtomicBag("yearMonthDuration"@)]);
        }
        mk_fn("yearMonthDurationIsIn", "urn:oasis:names:tc:xacml:3.0:function:yearMonthDuration-is-in", args, false, FunctionOutputArg::Atomic("boolean".to_owned()))
    } else if i == 114 {
        args.push(atomic("yearMonthDuration"));
        proof {
            assert(inputs_view(args@) =~= seq![InputView::Atomic("yearMonthDuration"@)]);
        }
        mk_fn("yearMonthDurationBag", "urn:oasis:names:tc:xacml:3.0:function:yearMonthDuration-bag", args, true, FunctionOutputArg::AtomicBag("yearMonthDuration".to_owned()))
    } else if i == 115 {
        args.push(bag("x500Name"));
        proof {
            assert(inputs_view(args@) =~= seq![InputView::AtomicBag("x500Name"@)]);
        }
        mk_fn("x500NameOneAndOnly", "urn:oasis:names:tc:xacml:1.0:function:x500Name-one-and-only", args, false, FunctionOutputArg::Atomic("x500Name".to_owned()))
    } else if i == 116 {
        args.push(bag("x500Name"));
        proof {
            assert(inputs_view(args@) =~= seq![InputView::AtomicBag("x500Name"@)]);
        }
        mk_fn("x500NameBagSize", "urn:oasis:names:tc:xacml:1.0:function:x500Name-bag-size", args, false, FunctionOutputArg::Atomic("integer".to_owned()))
    } else if i == 117 {
        args.push(atomic("x500Name"));
        args.push(bag("x500Name"));
        proof {
            assert(inputs_view(args@) =~= seq![InputView::Atomic("x500Name"@), InputView::AtomicBag("x500Name"@)]);
        }
        mk_fn("x500NameIsIn", "urn:oasis:names:tc:xacml:1.0:function:x500Name-is-in", args, false, FunctionOutputArg::Atomic("boolean".to_owned()))
    } else if i == 118 {
        args.push(atomic("x500Name"));
        proof {
            assert(inputs_view(args@) =~= seq![InputView::Atomic("x500Name"@)]);
        }
        mk_fn("x500NameBag", "urn:oasis:names:tc:xacml:1.0:function:x500Name-bag", args, true, FunctionOutputArg::AtomicBag("x500Name".to_owned()))
    } else if i == 119 {
        args.push(bag("rfc822Name"));
        proof {
            assert(inputs_view(args@) =~= seq![InputView::AtomicBag("rfc822Name"@)]);
        }
        mk_fn("rfc822NameOneAndOnly", "urn:oasis:names:tc:xacml:1.0:function:rfc822Name-one-and-only", args, false, FunctionOutputArg::Atomic("rfc822Name".to_owned()))
    } else if i == 120 {
        args.push(bag("rfc822Name"));
        proof {
            assert(inputs_view(args@) =~= seq![InputView::AtomicBag("rfc822Name"@)]);
        }
        mk_fn("rfc822NameBagSize", "urn:oasis:names:tc:xacml:1.0:function:rfc822Name-bag-size", args, false, FunctionOutputArg::Atomic("integer".to_owned()))
    } else if i == 121 {
        args.push(atomic("rfc822Name"));
        args.push(bag("rfc822Name"));
        proof {
            assert(inputs_view(args@) =~= seq![InputView::Atomic("rfc822Name"@), InputView::AtomicBag("rfc822Name"@)]);
        }
        mk_fn("rfc822NameIsIn", "urn:oasis:names:tc:xacml:1.0:function:rfc822Name-is-in", args, false, FunctionOutputArg::Atomic("boolean".to_owned()))
    } else if i == 122 {
        args.push(atomic("rfc822Name"));
        proof {
            assert(inputs_view(args@) =~= seq![InputView::Atomic("rfc822Name"@)]);
        }
        mk_fn("rfc822NameBag", "urn:oasis:names:tc:xacml:1.0:function:rfc822Name-bag", args, true, FunctionOutputArg::AtomicBag("rfc822Name".to_owned()))
    } else if i == 123 {
        args.push(bag("ipAddress"));
        proof {
            assert(inputs_view(args@) =~= seq![InputView::AtomicBag("ipAddress"@)]);
        }
        mk_fn("ipAddressOneAndOnly", "urn:oasis:names:tc:xacml:2.0:function:ipAddress-one-and-only", args, false, FunctionOutputArg::Atomic("ipAddress".to_owned()))
    } else if i == 124 {
        args.push(bag("ipAddress"));
        proof {
            assert(inputs_view(args@) =~= seq![InputView::AtomicBag("ipAddress"@)]);
        }
        mk_fn("ipAddressBagSize", "urn:oasis:names:tc:xacml:2.0:function:ipAddress-bag-size", args, false, FunctionOutputArg::Atomic("integer".to_owned()))
    } else if i == 125 {
        args.push(atomic("ipAddress"));
        proof {
            assert(inputs_view(args@) =~= seq![InputView::Atomic("ipAddress"@)]);
        }
        mk_fn("ipAddressBag", "urn:oasis:names:tc:xacml:2.0:function:ipAddress-bag", args, true, FunctionOutputArg::AtomicBag("ipAddress".to_owned()))
    } else if i == 126 {
        args.push(bag("dnsName"));
        proof {
            assert(inputs_view(args@) =~= seq![InputView::AtomicBag("dnsName"@)]);
        }
        mk_fn("dnsNameOneAndOnly", "urn:oasis:names:tc:xacml:2.0:function:dnsName-one-and-only", args, false, FunctionOutputArg::Atomic("dnsName".to_owned()))
    } else {
        args.push(bag("dnsName"));
        proof {
            assert(inputs_view(args@) =~= seq![InputView::AtomicBag("dnsName"@)]);
        }
        mk_fn("dnsNameBagSize", "urn:oasis:names:tc:xacml:2.0:function:dnsName-bag-size", args, false, FunctionOutputArg::Atomic("integer".to_owned()))
    }
}

/// The built-in function at the place `i` of the table, for the rows 128 to 159.
fn function_at_5(i: usize) -> (r: Function)
    requires
        128 <= i < 160,
    ensures
        r@ == function_row_5(i as int),
{
    let mut args: Vec<FunctionInputArg> = Vec::new();
    if i == 128 {
        args.push(atomic("dnsName"));
        proof {
            assert(inputs_view(args@) =~= seq![InputView::Atomic("dnsName"@)]);
        }
        mk_fn("dnsNameBag", "urn:oasis:names:tc:xacml:2.0:function:dnsName-bag", args, true, FunctionOutputArg::AtomicBag("dnsName".to_owned()))
    } else if i == 129 {
        args.push(atomic("string"));
        proof {
            assert(inputs_view(args@) =~= seq![InputView::Atomic("string"@)]);
        }
        mk_fn("stringConcatenate", "urn:oasis:names:tc:xacml:2.0:function:string-concatenate", args, true, FunctionOutputArg::Atomic("string".to_owned()))
    } else if i == 130 {
        args.push(atomic("string"));
        proof {
            assert(inputs_view(args@) =~= seq![InputView::Atomic("string"@)]);
        }
        mk_fn("booleanFromString", "urn:oasis:names:tc:xacml:3.0:function:boolean-from-string", args, false, FunctionOutputArg::Atomic("boolean".to_owned()))
    } else if i == 131 {
        args.push(atomic("boolean"));
        proof {
            assert(inputs_view(args@) =~= seq![InputView::Atomic("boolean"@)]);
        }
        mk_fn("stringFromBoolean", "urn:oasis:names:tc:xacml:3.0:function:string-from-boolean", args, false, FunctionOutputArg::Atomic("string".to_owned()))
    } else if i == 132 {
        args.push(atomic("string"));
        proof {
            assert(inputs_view(args@) =~= seq![InputView::Atomic("string"@)]);
        }
        mk_fn("integerFromString", "urn:oasis:names:tc:xacml:3.0:function:integer-from-string", args, false, FunctionOutputArg::Atomic("integer".to_owned()))
    } else if i == 133 {
        args.push(atomic("integer"));
        proof {
            assert(inputs_view(args@) =~= seq![InputView::Atomic("integer"@)]);
        }
        mk_fn("stringFromInteger", "urn:oasis:names:tc:xacml:3.0:function:string-from-integer", args, false, FunctionOutputArg::Atomic("string".to_owned()))
    } else if i == 134 {
        args.push(atomic("string"));
        proof {
            assert(inputs_view(args@) =~= seq![InputView::Atomic("string"@)]);
        }
        mk_fn("doubleFromString", "urn:oasis:names:tc:xacml:3.0:function:double-from-string", args, false, FunctionOutputArg::Atomic("double".to_owned()))
    } else if i == 135 {
        args.push(atomic("double"));
        proof {
            assert(inputs_view(args@) =~= seq![InputView::Atomic("double"@)]);
        }
        mk_fn("stringFromDouble", "urn:oasis:names:tc:xacml:3.0:function:string-from-double", args, false, FunctionOutputArg::Atomic("string".to_owned()))
    } else if i == 136 {
        args.push(atomic("string"));
        proof {
            assert(inputs_view(args@) =~= seq![InputView::Atomic("string"@)]);
        }
        mk_fn("timeFromString", "urn:oasis:names:tc:xacml:3.0:function:time-from-string", args, false, FunctionOutputArg::Atomic("time".to_owned()))
    } else if i == 137 {
        args.push(atomic("time"));
        proof {
            assert(inputs_view(args@) =~= seq![InputView::Atomic("time"@)]);
        }
        mk_fn("stringFromTime", "urn:oasis:names:tc:xacml:3.0:function:string-from-time", args, false, FunctionOutputArg::Atomic("string".to_owned()))
    } else if i == 138 {
        args.push(atomic("string"));
        proof {
            assert(inputs_view(args@) =~= seq![InputView::Atomic("string"@)]);
        }
        mk_fn("dateFromString", "urn:oasis:names:tc:xacml:3.0:function:date-from-string", args, false, FunctionOutputArg::Atomic("date".to_owned()))
    } else if i == 139 {
        args.push(atomic("date"));
        proof {
            assert(inputs_view(args@) =~= seq![InputView::Atomic("date"@)]);
        }
        mk_fn("stringFromDate", "urn:oasis:names:tc:xacml:3.0:function:string-from-date", args, false, FunctionOutputArg::Atomic("string".to_owned()))
    } else if i == 140 {
        args.push(atomic("string"));
        proof {
            assert(inputs_view(args@) =~= seq![InputView::Atomic("string"@)]);
        }
        mk_fn("dateTimeFromString", "urn:oasis:names:tc:xacml:3.0:function:dateTime-from-string", args, false, FunctionOutputArg::Atomic("dateTime".to_owned()))
    } else if i == 141 {
        args.push(atomic("dateTime"));
        proof {
            assert(inputs_view(args@) =~= seq![InputView::Atomic("dateTime"@)]);
        }
        mk_fn("stringFromDateTime", "urn:oasis:names:tc:xacml:3.0:function:string-from-dateTime", args, false, FunctionOutputArg::Atomic("string".to_owned()))
    } else if i == 142 {
        args.push(atomic("string"));
        proof {
            assert(inputs_view(args@) =~= seq![InputView::Atomic("string"@)]);
        }
        mk_fn("anyURIFromString", "urn:oasis:names:tc:xacml:3.0:function:anyURI-from-string", args, false, FunctionOutputArg::Atomic("anyURI".to_owned()))
    } else if i == 143 {
        args.push(atomic("anyURI"));
        proof {
            assert(inputs_view(args@) =~= seq![InputView::Atomic("anyURI"@)]);
        }
        mk_fn("stringFromAnyURI", "urn:oasis:names:tc:xacml:3.0:function:string-from-anyURI", args, false, FunctionOutputArg::Atomic("string".to_owned()))
    } else if i == 144 {
        args.push(atomic("string"));
        proof {
            assert(inputs_view(args@) =~= seq![InputView::Atomic("string"@)]);
        }
        mk_fn("dayTimeDurationFromString", "urn:oasis:names:tc:xacml:3.0:function:dayTimeDuration-from-string", args, false, FunctionOutputArg::Atomic("dayTimeDuration".to_owned()))
    } else if i == 145 {
        args.push(atomic("dayTimeDuration"));
        proof {
            assert(inputs_view(args@) =~= seq![InputView::Atomic("dayTimeDuration"@)]);
        }
        mk_fn("stringFromDayTimeDuration", "urn:oasis:names:tc:xacml:3.0:function:string-from-dayTimeDuration", args, false, FunctionOutputArg::Atomic("string".to_owned()))
    } else if i == 146 {
        args.push(atomic("string"));
        proof {
            assert(inputs_view(args@) =~= seq![InputView::Atomic("string"@)]);
        }
        mk_fn("yearMonthDurationFromString", "urn:oasis:names:tc:xacml:3.0:function:yearMonthDuration-from-string", args, false, FunctionOutputArg::Atomic("yearMonthDuration".to_owned()))
    } else if i == 147 {
        args.push(atomic("yearMonthDuration"));
        proof {
            assert(inputs_view(args@) =~= seq![InputView::Atomic("yearMonthDuration"@)]);
        }
        mk_fn("stringFromYearMonthDuration", "urn:oasis:names:tc:xacml:3.0:function:string-from-yearMonthDuration", args, false, FunctionOutputArg::Atomic("string".to_owned()))
    } else if i == 148 {
        args.push(atomic("string"));
        proof {
            assert(inputs_view(args@) =~= seq![InputView::Atomic("string"@)]);
        }
        mk_fn("x500NameFromString", "urn:oasis:names:tc:xacml:3.0:function:x500Name-from-string", args, false, FunctionOutputArg::Atomic("x500Name".to_owned()))
    } else if i == 149 {
        args.push(atomic("x500Name"));
        proof {
            assert(inputs_view(args@) =~= seq![InputView::Atomic("x500Name"@)]);
        }
        mk_fn("stringFromX500Name", "urn:oasis:names:tc:xacml:3.0:function:string-from-x500Name", args, false, FunctionOutputArg::Atomic("string".to_owned()))
    } else if i == 150 {
        args.push(atomic("string"));
        proof {
            assert(inputs_view(args@) =~= seq![InputView::Atomic("string"@)]);
        }
        mk_fn("rfc822NameFromString", "urn:oasis:names:tc:xacml:3.0:function:rfc822Name-from-string", args, false, FunctionOutputArg::Atomic("rfc822Name".to_owned()))
    } else if i == 151 {
        args.push(atomic("rfc822Name"));
        proof {
            assert(inputs_view(args@) =~= seq![InputView::Atomic("rfc822Name"@)]);
        }
        mk_fn("stringFromRfc822Name", "urn:oasis:names:tc:xacml:3.0:function:string-from-rfc822Name", args, false, FunctionOutputArg::Atomic("string".to_owned()))
    } else if i == 152 {
        args.push(atomic("string"));
        proof {
            assert(inputs_view(args@) =~= seq![InputView::Atomic("string"@)]);
        }
        mk_fn("ipAddressFromString", "urn:oasis:names:tc:xacml:3.0:function:ipAddress-from-string", args, false, FunctionOutputArg::Atomic("ipAddress".to_owned()))
    } else if i == 153 {
        args.push(atomic("ipAddress"));
        proof {
            assert(inputs_view(args@) =~= seq![InputView::Atomic("ipAddress"@)]);
        }
        mk_fn("stringFromIpAddress", "urn:oasis:names:tc:xacml:3.0:function:string-from-ipAddress", args, false, FunctionOutputArg::Atomic("string".to_owned()))
    } else if i == 154 {
        args.push(atomic("string"));
        proof {
            assert(inputs_view(args@) =~= seq![InputView::Atomic("string"@)]);
        }
        mk_fn("dnsNameFromString", "urn:oasis:names:tc:xacml:3.0:function:dnsName-from-string", args, false, FunctionOutputArg::Atomic("dnsName".to_owned()))
    } else if i == 155 {
        args.push(atomic("dnsName"));
        proof {
            assert(inputs_view(args@) =~= seq![InputView::Atomic("dnsName"@)]);
        }
        mk_fn("stringFromDnsName", "urn:oasis:names:tc:xacml:3.0:function:string-from-dnsName", args, false, FunctionOutputArg::Atomic("string".to_owned()))
    } else if i == 156 {
        args.push(atomic("string"));
        args.push(atomic("string"));
        proof {
            assert(inputs_view(args@) =~= seq![InputView::Atomic("string"@), InputView::Atomic("string"@)]);
        }
        mk_fn("stringStartsWith", "urn:oasis:names:tc:xacml:3.0:function:string-starts-with", args, false, FunctionOutputArg::Atomic("boolean".to_owned()))
    } else if i == 157 {
        args.push(atomic("string"));
        args.push(atomic("anyURI"));
        proof {
            assert(inputs_view(args@) =~= seq![InputView::Atomic("string"@), InputView::Atomic("anyURI"@)]);
        }
        mk_fn("anyURIStartsWith", "urn:oasis:names:tc:xacml:3.0:function:anyURI-starts-with", args, false, FunctionOutputArg::Atomic("boolean".to_owned()))
    } else if i == 158 {
        args.push(atomic("string"));
        args.push(atomic("string"));
        proof {
            assert(inputs_view(args@) =~= seq![InputView::Atomic("string"@), InputView::Atomic("string"@)]);
        }
        mk_fn("stringEndsWith", "urn:oasis:names:tc:xacml:3.0:function:string-ends-with", args, false, FunctionOutputArg::Atomic("boolean".to_owned()))
    } else {
        args.push(atomic("string"));
        args.push(atomic("anyURI"));
        proof {
            assert(inputs_view(args@) =~= seq![InputView::Atomic("string"@), InputView::Atomic("anyURI"@)]);
        }
        mk_fn("anyURIEndsWith", "urn:oasis:names:tc:xacml:3.0:function:anyURI-ends-with", args, false, FunctionOutputArg::Atomic("boolean".to_owned()))
    }
}

/// The built-in function at the place `i` of the table, for the rows 160 to 191.
fn function_at_6(i: usize) -> (r: Function)
    requires
        160 <= i < 192,
    ensures
        r@ == function_row_6(i as int),
{
    let mut args: Vec<FunctionInputArg> = Vec::new();
    if i == 160 {
        args.push(atomic("string"));
        args.push(atomic("string"));
        proof {
            assert(inputs_view(args@) =~= seq![InputView::Atomic("string"@), InputView::Atomic("string"@)]);
        }
        mk_fn("stringContains", "urn:oasis:names:tc:xacml:3.0:function:string-contains", args, false, FunctionOutputArg::Atomic("boolean".to_owned()))
    } else if i == 161 {
        args.push(atomic("string"));
        args.push(atomic("anyURI"));
        proof {
            assert(inputs_view(args@) =~= seq![InputView::Atomic("string"@), InputView::Atomic("anyURI"@)]);
        }
        mk_fn("anyURIContains", "urn:oasis:names:tc:xacml:3.0:function:anyURI-contains", args, false, FunctionOutputArg::Atomic("boolean".to_owned()))
    } else if i == 162 {
        args.push(atomic("string"));
        args.push(atomic("integer"));
        args.push(atomic("integer"));
        proof {
            assert(inputs_view(args@) =~= seq![InputView::Atomic("string"@), InputView::Atomic("integer"@), InputView::Atomic("integer"@)]);
        }
        mk_fn("stringSubstring", "urn:oasis:names:tc:xacml:3.0:function:string-substring", args, false, FunctionOutputArg::Atomic("string".to_owned()))
    } else if i == 163 {
        args.push(atomic("anyURI"));
        args.push(atomic("integer"));
        args.push(atomic("integer"));
        proof {
            assert(inputs_view(args@) =~= seq![InputView::Atomic("anyURI"@), InputView::Atomic("integer"@), InputView::Atomic("integer"@)]);
        }
        mk_fn("anyURISubstring", "urn:oasis:names:tc:xacml:3.0:function:anyURI-substring", args, false, FunctionOutputArg::Atomic("string".to_owned()))
    } else if i == 164 {
        args.push(FunctionInputArg::Function);
        args.push(FunctionInputArg::AnyAtomicOrBag);
        args.push(FunctionInputArg::AnyAtomicOrBag);
        proof {
            assert(inputs_view(args@) =~= seq![InputView::Function, InputView::AnyAtomicOrBag, InputView::AnyAtomicOrBag]);
        }
        mk_fn("anyOf", "urn:oasis:names:tc:xacml:3.0:function:any-of", args, true, FunctionOutputArg::Atomic("boolean".to_owned()))
    } else if i == 165 {
        args.push(FunctionInputArg::Function);
        args.push(FunctionInputArg::AnyAtomicOrBag);
        args.push(FunctionInputArg::AnyAtomicOrBag);
        proof {
            assert(inputs_view(args@) =~= seq![InputView::Function, InputView::AnyAtomicOrBag, InputView::AnyAtomicOrBag]);
        }
        mk_fn("allOf", "urn:oasis:names:tc:xacml:3.0:function:all-of", args, true, FunctionOutputArg::Atomic("boolean".to_owned()))
    } else if i == 166 {
        args.push(FunctionInputArg::Function);
        args.push(FunctionInputArg::AnyAtomicOrBag);
        args.push(FunctionInputArg::AnyAtomicOrBag);
        proof {
            assert(inputs_view(args@) =~= seq![InputView::Function, InputView::AnyAtomicOrBag, InputView::AnyAtomicOrBag]);
        }
        mk_fn("anyOfAny", "urn:oasis:names:tc:xacml:3.0:function:any-of-any", args, true, FunctionOutputArg::Atomic("boolean".to_owned()))
    } else if i == 167 {
        args.push(FunctionInputArg::Function);
        args.push(FunctionInputArg::AnyAtomicBag);
        args.push(FunctionInputArg::AnyAtomicBag);
        proof {
            assert(inputs_view(args@) =~= seq![InputView::Function, InputView::AnyAtomicBag, InputView::AnyAtomicBag]);
        }
        mk_fn("allOfAny", "urn:oasis:names:tc:xacml:1.0:function:all-of-any", args, false, FunctionOutputArg::Atomic("boolean".to_owned()))
    } else if i == 168 {
        args.push(FunctionInputArg::Function);
        args.push(FunctionInputArg::AnyAtomicBag);
        args.push(FunctionInputArg::AnyAtomicBag);
        proof {
            assert(inputs_view(args@) =~= seq![InputView::Function, InputView::AnyAtomicBag, InputView::AnyAtomicBag]);
        }
        mk_fn("anyOfAll", "urn:oasis:names:tc:xacml:1.0:function:any-of-all", args, false, FunctionOutputArg::Atomic("boolean".to_owned()))
    } else if i == 169 {
        args.push(FunctionInputArg::Function);
        args.push(FunctionInputArg::AnyAtomicBag);
        args.push(FunctionInputArg::AnyAtomicBag);
        proof {
            assert(inputs_view(args@) =~= seq![InputView::Function, InputView::AnyAtomicBag, InputView::AnyAtomicBag]);
        }
        mk_fn("allOfAll", "urn:oasis:names:tc:xacml:1.0:function:all-of-all", args, false, FunctionOutputArg::Atomic("boolean".to_owned()))
    } else if i == 170 {
        args.push(FunctionInputArg::Function);
        args.push(FunctionInputArg::AnyAtomicOrBag);
        args.push(FunctionInputArg::AnyAtomicOrBag);
        proof {
            assert(inputs_view(args@) =~= seq![InputView::Function, InputView::AnyAtomicOrBag, InputView::AnyAtomicOrBag]);
        }
        mk_fn("map", "urn:oasis:names:tc:xacml:3.0:function:map", args, true, FunctionOutputArg::AnyAtomicBag)
    } else if i == 171 {
        args.push(atomic("x500Name"));
        args.push(atomic("x500Name"));
        proof {
            assert(inputs_view(args@) =~= seq![InputView::Atomic("x500Name"@), InputView::Atomic("x500Name"@)]);
        }
        mk_fn("x500NameMatch", "urn:oasis:names:tc:xacml:1.0:function:x500Name-match", args, false, FunctionOutputArg::Atomic("boolean".to_owned()))
    } else if i == 172 {
        args.push(atomic("string"));
        args.push(atomic("rfc822Name"));
        proof {
            assert(inputs_view(args@) =~= seq![InputView::Atomic("string"@), InputView::Atomic("rfc822Name"@)]);
        }
        mk_fn("rfc822NameMatch", "urn:oasis:names:tc:xacml:1.0:function:rfc822Name-match", args, false, FunctionOutputArg::Atomic("boolean".to_owned()))
    } else if i == 173 {
        args.push(atomic("string"));
        args.push(atomic("string"));
        proof {
            assert(inputs_view(args@) =~= seq![InputView::Atomic("string"@), InputView::Atomic("string"@)]);
        }
        mk_fn("stringRegexpMatch", "urn:oasis:names:tc:xacml:1.0:function:string-regexp-match", args, false, FunctionOutputArg::Atomic("boolean".to_owned()))
    } else if i == 174 {
        args.push(atomic("string"));
        args.push(atomic("anyURI"));
        proof {
            assert(inputs_view(args@) =~= seq![InputView::Atomic("string"@), InputView::Atomic("anyURI"@)]);
        }
        mk_fn("anyURIRegexpMatch", "urn:oasis:names:tc:xacml:2.0:function:anyURI-regexp-match", args, false, FunctionOutputArg::Atomic("boolean".to_owned()))
    } else if i == 175 {
        args.push(atomic("string"));
        args.push(atomic("ipAddress"));
        proof {
            assert(inputs_view(args@) =~= seq![InputView::Atomic("string"@), InputView::Atomic("ipAddress"@)]);
        }
        mk_fn("ipAddressRegexpMatch", "urn:oasis:names:tc:xacml:2.0:function:ipAddress-regexp-match", args, false, FunctionOutputArg::Atomic("boolean".to_owned()))
    } else if i == 176 {
        args.push(atomic("string"));
        args.push(atomic("dnsName"));
        proof {
            assert(inputs_view(args@) =~= seq![InputView::Atomic("string"@), InputView::Atomic("dnsName"@)]);
        }
        mk_fn("dnsNameRegexpMatch", "urn:oasis:names:tc:xacml:2.0:function:dnsName-regexp-match", args, false, FunctionOutputArg::Atomic("boolean".to_owned()))
    } else if i == 177 {
        args.push(atomic("string"));
        args.push(atomic("rfc822Name"));
        proof {
            assert(inputs_view(args@) =~= seq![InputView::Atomic("string"@), InputView::Atomic("rfc822Name"@)]);
        }
        mk_fn("rfc822NameRegexpMatch", "urn:oasis:names:tc:xacml:2.0:function:rfc822Name-regexp-match", args, false, FunctionOutputArg::Atomic("boolean".to_owned()))
    } else if i == 178 {
        args.push(atomic("string"));
        args.push(atomic("x500Name"));
        proof {
            assert(inputs_view(args@) =~= seq![InputView::Atomic("string"@), InputView::Atomic("x500Name"@)]);
        }
        mk_fn("x500NameRegexpMatch", "urn:oasis:names:tc:xacml:2.0:function:x500Name-regexp-match", args, false, FunctionOutputArg::Atomic("boolean".to_owned()))
    } else if i == 179 {
        args.push(atomic("xpath"));
        proof {
            assert(inputs_view(args@) =~= seq![InputView::Atomic("xpath"@)]);
        }
        mk_fn("xpathNodeCount", "urn:oasis:names:tc:xacml:3.0:function:xpath-node-count", args, false, FunctionOutputArg::Atomic("integer".to_owned()))
    } else if i == 180 {
        args.push(atomic("xpath"));
        args.push(atomic("xpath"));
        proof {
            assert(inputs_view(args@) =~= seq![InputView::Atomic("xpath"@), InputView::Atomic("xpath"@)]);
        }
        mk_fn("xpathNodeEqual", "urn:oasis:names:tc:xacml:3.0:function:xpath-node-equal", args, false, FunctionOutputArg::Atomic("boolean".to_owned()))
    } else if i == 181 {
        args.push(atomic("xpath"));
        args.push(atomic("xpath"));
        proof {
            assert(inputs_view(args@) =~= seq![InputView::Atomic("xpath"@), InputView::Atomic("xpath"@)]);
        }
        mk_fn("xpathNodeMatch", "urn:oasis:names:tc:xacml:3.0:function:xpath-node-match", args, false, FunctionOutputArg::Atomic("boolean".to_owned()))
    } else if i == 182 {
        args.push(bag("string"));
        args.push(bag("string"));
        proof {
            assert(inputs_view(args@) =~= seq![InputView::AtomicBag("string"@), InputView::AtomicBag("string"@)]);
        }
        mk_fn("stringIntersection", "urn:oasis:names:tc:xacml:1.0:function:string-intersection", args, false, FunctionOutputArg::AtomicBag("string".to_owned()))
    } else if i == 183 {
        args.push(bag("string"));
        args.push(bag("string"));
        proof {
            assert(inputs_view(args@) =~= seq![InputView::AtomicBag("string"@), InputView::AtomicBag("string"@)]);
        }
        mk_fn("stringAtLeastOneMemberOf", "urn:oasis:names:tc:xacml:1.0:function:string-at-least-one-member-of", args, false, FunctionOutputArg::Atomic("boolean".to_owned()))
    } else if i == 184 {
        args.push(bag("string"));
        args.push(bag("string"));
        args.push(bag("string"));
        proof {
            assert(inputs_view(args@) =~= seq![InputView::AtomicBag("string"@), InputView::AtomicBag("string"@), InputView::AtomicBag("string"@)]);
        }
        mk_fn("stringUnion", "urn:oasis:names:tc:xacml:1.0:function:string-union", args, true, FunctionOutputArg::AtomicBag("string".to_owned()))
    } else if i == 185 {
        args.push(bag("string"));
        args.push(bag("string"));
        proof {
            assert(inputs_view(args@) =~= seq![InputView::AtomicBag("string"@), InputView::AtomicBag("string"@)]);
        }
        mk_fn("stringSubset", "urn:oasis:names:tc:xacml:1.0:function:string-subset", args, false, FunctionOutputArg::Atomic("boolean".to_owned()))
    } else if i == 186 {
        args.push(bag("string"));
        args.push(bag("string"));
        proof {
            assert(inputs_view(args@) =~= seq![InputView::AtomicBag("string"@), InputView::AtomicBag("string"@)]);
        }
        mk_fn("stringSetEquals", "urn:oasis:names:tc:xacml:1.0:function:string-set-equals", args, false, FunctionOutputArg::Atomic("boolean".to_owned()))
    } else if i == 187 {
        args.push(bag("boolean"));
        args.push(bag("boolean"));
        proof {
            assert(inputs_view(args@) =~= seq![InputView::AtomicBag("boolean"@), InputView::AtomicBag("boolean"@)]);
        }
        mk_fn("booleanIntersection", "urn:oasis:names:tc:xacml:1.0:function:boolean-intersection", args, false, FunctionOutputArg::AtomicBag("boolean".to_owned()))
    } else if i == 188 {
        args.push(bag("boolean"));
        args.push(bag("boolean"));
        proof {
            assert(inputs_view(args@) =~= seq![InputView::AtomicBag("boolean"@), InputView::AtomicBag("boolean"@)]);
        }
        mk_fn("booleanAtLeastOneMemberOf", "urn:oasis:names:tc:xacml:1.0:function:boolean-at-least-one-member-of", args, false, FunctionOutputArg::Atomic("boolean".to_owned()))
    } else if i == 189 {
        args.push(bag("boolean"));
        args.push(bag("boolean"));
        args.push(bag("boolean"));
        proof {
            assert(inputs_view(args@) =~= seq![InputView::AtomicBag("boolean"@), InputView::AtomicBag("boolean"@), InputView::AtomicBag("boolean"@)]);
        }
        mk_fn("booleanUnion", "urn:oasis:names:tc:xacml:1.0:function:boolean-union", args, true, FunctionOutputArg::AtomicBag("boolean".to_owned()))
    } else if i == 190 {
        args.push(bag("boolean"));
        args.push(bag("boolean"));
        proof {
            assert(inputs_view(args@) =~= seq![InputView::AtomicBag("boolean"@), InputView::AtomicBag("boolean"@)]);
        }
        mk_fn("booleanSubset", "urn:oasis:names:tc:xacml:1.0:function:boolean-subset", args, false, FunctionOutputArg::Atomic("boolean".to_owned()))
    } else {
        args.push(bag("boolean"));
        args.push(bag("boolean"));
        proof {
            assert(inputs_view(args@) =~= seq![InputView::AtomicBag("boolean"@), InputView::AtomicBag("boolean"@)]);
        }
        mk_fn("booleanSetEquals", "urn:oasis:names:tc:xacml:1.0:function:boolean-set-equals", args, false, FunctionOutputArg::Atomic("boolean".to_owned()))
    }
}

/// The built-in function at the place `i` of the table, for the rows 192 to 223.
fn function_at_7(i: usize) -> (r: Function)
    requires
        192 <= i < 224,
    ensures
        r@ == function_row_7(i as int),
{
    let mut args: Vec<FunctionInputArg> = Vec::new();
    if i == 192 {
        args.push(bag("integer"));
        args.push(bag("integer"));
        proof {
            assert(inputs_view(args@) =~= seq![InputView::AtomicBag("integer"@), InputView::AtomicBag("integer"@)]);
        }
        mk_fn("integerIntersection", "urn:oasis:names:tc:xacml:1.0:function:integer-intersection", args, false, FunctionOutputArg::AtomicBag("integer".to_owned()))
    } else if i == 193 {
        args.push(bag("integer"));
        args.push(bag("integer"));
        proof {
            assert(inputs_view(args@) =~= seq![InputView::AtomicBag("integer"@), InputView::AtomicBag("integer"@)]);
        }
        mk_fn("integerAtLeastOneMemberOf", "urn:oasis:names:tc:xacml:1.0:function:integer-at-least-one-member-of", args, false, FunctionOutputArg::Atomic("boolean".to_owned()))
    } else if i == 194 {
        args.push(bag("integer"));
        args.push(bag("integer"));
        args.push(bag("integer"));
        proof {
            assert(inputs_view(args@) =~= seq![InputView::AtomicBag("integer"@), InputView::AtomicBag("integer"@), InputView::AtomicBag("integer"@)]);
        }
        mk_fn("integerUnion", "urn:oasis:names:tc:xacml:1.0:function:integer-union", args, true, FunctionOutputArg::AtomicBag("integer".to_owned()))
    } else if i == 195 {
        args.push(bag("integer"));
        args.push(bag("integer"));
        proof {
            assert(inputs_view(args@) =~= seq![InputView::AtomicBag("integer"@), InputView::AtomicBag("integer"@)]);
        }
        mk_fn("integerSubset", "urn:oasis:names:tc:xacml:1.0:function:integer-subset", args, false, FunctionOutputArg::Atomic("boolean".to_owned()))
    } else if i == 196 {
        args.push(bag("integer"));
        args.push(bag("integer"));
        proof {
            assert(inputs_view(args@) =~= seq![InputView::AtomicBag("integer"@), InputView::AtomicBag("integer"@)]);
        }
        mk_fn("integerSetEquals", "urn:oasis:names:tc:xacml:1.0:function:integer-set-equals", args, false, FunctionOutputArg::Atomic("boolean".to_owned()))
    } else if i == 197 {
        args.push(bag("double"));
        args.push(bag("double"));
        proof {
            assert(inputs_view(args@) =~= seq![InputView::AtomicBag("double"@), InputView::AtomicBag("double"@)]);
        }
        mk_fn("doubleIntersection", "urn:oasis:names:tc:xacml:1.0:function:double-intersection", args, false, FunctionOutputArg::AtomicBag("double".to_owned()))
    } else if i == 198 {
        args.push(bag("double"));
        args.push(bag("double"));
        proof {
            assert(inputs_view(args@) =~= seq![InputView::AtomicBag("double"@), InputView::AtomicBag("double"@)]);
        }
        mk_fn("doubleAtLeastOneMemberOf", "urn:oasis:names:tc:xacml:1.0:function:double-at-least-one-member-of", args, false, FunctionOutputArg::Atomic("boolean".to_owned()))
    } else if i == 199 {
        args.push(bag("double"));
        args.push(bag("double"));
        args.push(bag("double"));
        proof {
            assert(inputs_view(args@) =~= seq![InputView::AtomicBag("double"@), InputView::AtomicBag("double"@), InputView::AtomicBag("double"@)]);
        }
        mk_fn("doubleUnion", "urn:oasis:names:tc:xacml:1.0:function:double-union", args, true, FunctionOutputArg::AtomicBag("double".to_owned()))
    } else if i == 200 {
        args.push(bag("double"));
        args.push(bag("double"));
        proof {
            assert(inputs_view(args@) =~= seq![InputView::AtomicBag("double"@), InputView::AtomicBag("double"@)]);
        }
        mk_fn("doubleSubset", "urn:oasis:names:tc:xacml:1.0:function:double-subset", args, false, FunctionOutputArg::Atomic("boolean".to_owned()))
    } else if i == 201 {
        args.push(bag("double"));
        args.push(bag("double"));
        proof {
            assert(inputs_view(args@) =~= seq![InputView::AtomicBag("double"@), InputView::AtomicBag("double"@)]);
        }
        mk_fn("doubleSetEquals", "urn:oasis:names:tc:xacml:1.0:function:double-set-equals", args, false, FunctionOutputArg::Atomic("boolean".to_owned()))
    } else if i == 202 {
        args.push(bag("time"));
        args.push(bag("time"));
        proof {
            assert(inputs_view(args@) =~= seq![InputView::AtomicBag("time"@), InputView::AtomicBag("time"@)]);
        }
        mk_fn("timeIntersection", "urn:oasis:names:tc:xacml:1.0:function:time-intersection", args, false, FunctionOutputArg::AtomicBag("time".to_owned()))
    } else if i == 203 {
        args.push(bag("time"));
        args.push(bag("time"));
        proof {
            assert(inputs_view(args@) =~= seq![InputView::AtomicBag("time"@), InputView::AtomicBag("time"@)]);
        }
        mk_fn("timeAtLeastOneMemberOf", "urn:oasis:names:tc:xacml:1.0:function:time-at-least-one-member-of", args, false, FunctionOutputArg::Atomic("boolean".to_owned()))
    } else if i == 204 {
        args.push(bag("time"));
        args.push(bag("time"));
        args.push(bag("time"));
        proof {
            assert(inputs_view(args@) =~= seq![InputView::AtomicBag("time"@), InputView::AtomicBag("time"@), InputView::AtomicBag("time"@)]);
        }
        mk_fn("timeUnion", "urn:oasis:names:tc:xacml:1.0:function:time-union", args, true, FunctionOutputArg::AtomicBag("time".to_owned()))
    } else if i == 205 {
        args.push(bag("time"));
        args.push(bag("time"));
        proof {
            assert(inputs_view(args@) =~= seq![InputView::AtomicBag("time"@), InputView::AtomicBag("time"@)]);
        }
        mk_fn("timeSubset", "urn:oasis:names:tc:xacml:1.0:function:time-subset", args, false, FunctionOutputArg::Atomic("boolean".to_owned()))
    } else if i == 206 {
        args.push(bag("time"));
        args.push(bag("time"));
        proof {
            assert(inputs_view(args@) =~= seq![InputView::AtomicBag("time"@), InputView::AtomicBag("time"@)]);
        }
        mk_fn("timeSetEquals", "urn:oasis:names:tc:xacml:1.0:function:time-set-equals", args, false, FunctionOutputArg::Atomic("boolean".to_owned()))
    } else if i == 207 {
        args.push(bag("date"));
        args.push(bag("date"));
        proof {
            assert(inputs_view(args@) =~= seq![InputView::AtomicBag("date"@), InputView::AtomicBag("date"@)]);
        }
        mk_fn("dateIntersection", "urn:oasis:names:tc:xacml:1.0:function:date-intersection", args, false, FunctionOutputArg::AtomicBag("date".to_owned()))
    } else if i == 208 {
        args.push(bag("date"));
        args.push(bag("date"));
        proof {
            assert(inputs_view(args@) =~= seq![InputView::AtomicBag("date"@), InputView::AtomicBag("date"@)]);
        }
        mk_fn("dateAtLeastOneMemberOf", "urn:oasis:names:tc:xacml:1.0:function:date-at-least-one-member-of", args, false, FunctionOutputArg::Atomic("boolean".to_owned()))
    } else if i == 209 {
        args.push(bag("date"));
        args.push(bag("date"));
        args.push(bag("date"));
        proof {
            assert(inputs_view(args@) =~= seq![InputView::AtomicBag("date"@), InputView::AtomicBag("date"@), InputView::AtomicBag("date"@)]);
        }
        mk_fn("dateUnion", "urn:oasis:names:tc:xacml:1.0:function:date-union", args, true, FunctionOutputArg::AtomicBag("date".to_owned()))
    } else if i == 210 {
        args.push(bag("date"));
        args.push(bag("date"));
        proof {
            assert(inputs_view(args@) =~= seq![InputView::AtomicBag("date"@), InputView::AtomicBag("date"@)]);
        }
        mk_fn("dateSubset", "urn:oasis:names:tc:xacml:1.0:function:date-subset", args, false, FunctionOutputArg::Atomic("boolean".to_owned()))
    } else if i == 211 {
        args.push(bag("date"));
        args.push(bag("date"));
        proof {
            assert(inputs_view(args@) =~= seq![InputView::AtomicBag("date"@), InputView::AtomicBag("date"@)]);
        }
        mk_fn("dateSetEquals", "urn:oasis:names:tc:xacml:1.0:function:date-set-equals", args, false, FunctionOutputArg::Atomic("boolean".to_owned()))
    } else if i == 212 {
        args.push(bag("dateTime"));
        args.push(bag("dateTime"));
        proof {
            assert(inputs_view(args@) =~= seq![InputView::AtomicBag("dateTime"@), InputView::AtomicBag("dateTime"@)]);
        }
        mk_fn("dateTimeIntersection", "urn:oasis:names:tc:xacml:1.0:function:dateTime-intersection", args, false, FunctionOutputArg::AtomicBag("dateTime".to_owned()))
    } else if i == 213 {
        args.push(bag("dateTime"));
        args.push(bag("dateTime"));
        proof {
            assert(inputs_view(args@) =~= seq![InputView::AtomicBag("dateTime"@), InputView::AtomicBag("dateTime"@)]);
        }
        mk_fn("dateTimeAtLeastOneMemberOf", "urn:oasis:names:tc:xacml:1.0:function:dateTime-at-least-one-member-of", args, false, FunctionOutputArg::Atomic("boolean".to_owned()))
    } else if i == 214 {
        args.push(bag("dateTime"));
        args.push(bag("dateTime"));
        args.push(bag("dateTime"));
        proof {
            assert(inputs_view(args@) =~= seq![InputView::AtomicBag("dateTime"@), InputView::AtomicBag("dateTime"@), InputView::AtomicBag("dateTime"@)]);
        }
        mk_fn("dateTimeUnion", "urn:oasis:names:tc:xacml:1.0:function:dateTime-union", args, true, FunctionOutputArg::AtomicBag("dateTime".to_owned()))
    } else if i == 215 {
        args.push(bag("dateTime"));
        args.push(bag("dateTime"));
        proof {
            assert(inputs_view(args@) =~= seq![InputView::AtomicBag("dateTime"@), InputView::AtomicBag("dateTime"@)]);
        }
        mk_fn("dateTimeSubset", "urn:oasis:names:tc:xacml:1.0:function:dateTime-subset", args, false, FunctionOutputArg::Atomic("boolean".to_owned()))
    } else if i == 216 {
        args.push(bag("dateTime"));
        args.push(bag("dateTime"));
        proof {
            assert(inputs_view(args@) =~= seq![InputView::AtomicBag("dateTime"@), InputView::AtomicBag("dateTime"@)]);
        }
        mk_fn("dateTimeSetEquals", "urn:oasis:names:tc:xacml:1.0:function:dateTime-set-equals", args, false, FunctionOutputArg::Atomic("boolean".to_owned()))
    } else if i == 217 {
        args.push(bag("anyURI"));
        args.push(bag("anyURI"));
        proof {
            assert(inputs_view(args@) =~= seq![InputView::AtomicBag("anyURI"@), InputView::AtomicBag("anyURI"@)]);
        }
        mk_fn("anyURIIntersection", "urn:oasis:names:tc:xacml:1.0:function:anyURI-intersection", args, false, FunctionOutputArg::AtomicBag("anyURI".to_owned()))
    } else if i == 218 {
        args.push(bag("anyURI"));
        args.push(bag("anyURI"));
        proof {
            assert(inputs_view(args@) =~= seq![InputView::AtomicBag("anyURI"@), InputView::AtomicBag("anyURI"@)]);
        }
        mk_fn("anyURIAtLeastOneMemberOf", "urn:oasis:names:tc:xacml:1.0:function:anyURI-at-least-one-member-of", args, false, FunctionOutputArg::Atomic("boolean".to_owned()))
    } else if i == 219 {
        args.push(bag("anyURI"));
        args.push(bag("anyURI"));
        args.push(bag("anyURI"));
        proof {
            assert(inputs_view(args@) =~= seq![InputView::AtomicBag("anyURI"@), InputView::AtomicBag("anyURI"@), InputView::AtomicBag("anyURI"@)]);
        }
        mk_fn("anyURIUnion", "urn:oasis:names:tc:xacml:1.0:function:anyURI-union", args, true, FunctionOutputArg::AtomicBag("anyURI".to_owned()))
    } else if i == 220 {
        args.push(bag("anyURI"));
        args.push(bag("anyURI"));
        proof {
            assert(inputs_view(args@) =~= seq![InputView::AtomicBag("anyURI"@), InputView::AtomicBag("anyURI"@)]);
        }
        mk_fn("anyURISubset", "urn:oasis:names:tc:xacml:1.0:function:anyURI-subset", args, false, FunctionOutputArg::Atomic("boolean".to_owned()))
    } else if i == 221 {
        args.push(bag("anyURI"));
        args.push(bag("anyURI"));
        proof {
            assert(inputs_view(args@) =~= seq![InputView::AtomicBag("anyURI"@), InputView::AtomicBag("anyURI"@)]);
        }
        mk_fn("anyURISetEquals", "urn:oasis:names:tc:xacml:1.0:function:anyURI-set-equals", args, false, FunctionOutputArg::Atomic("boolean".to_owned()))
    } else if i == 222 {
        args.push(bag("hexBinary"));
        args.push(bag("hexBinary"));
        proof {
            assert(inputs_view(args@) =~= seq![InputView::AtomicBag("hexBinary"@), InputView::AtomicBag("hexBinary"@)]);
        }
        mk_fn("hexBinaryIntersection", "urn:oasis:names:tc:xacml:1.0:function:hexBinary-intersection", args, false, FunctionOutputArg::AtomicBag("hexBinary".to_owned()))
    } else {
        args.push(bag("hexBinary"));
        args.push(bag("hexBinary"));
        proof {
            assert(inputs_view(args@) =~= seq![InputView::AtomicBag("hexBinary"@), InputView::AtomicBag("hexBinary"@)]);
        }
        mk_fn("hexBinaryAtLeastOneMemberOf", "urn:oasis:names:tc:xacml:1.0:function:hexBinary-at-least-one-member-of", args, false, FunctionOutputArg::Atomic("boolean".to_owned()))
    }
}

/// The built-in function at the place `i` of the table, for the rows 224 to 252.
fn function_at_8(i: usize) -> (r: Function)
    requires
        224 <= i < 253,
    ensures
        r@ == function_row_8(i as int),
{
    let mut args: Vec<FunctionInputArg> = Vec::new();
    if i == 224 {
        args.push(bag("hexBinary"));
        args.push(bag("hexBinary"));
        args.push(bag("hexBinary"));
        proof {
            assert(inputs_view(args@) =~= seq![InputView::AtomicBag("hexBinary"@), InputView::AtomicBag("hexBinary"@), InputView::AtomicBag("hexBinary"@)]);
        }
        mk_fn("hexBinaryUnion", "urn:oasis:names:tc:xacml:1.0:function:hexBinary-union", args, true, FunctionOutputArg::AtomicBag("hexBinary".to_owned()))
    } else if i == 225 {
        args.push(bag("hexBinary"));
        args.push(bag("hexBinary"));
        proof {
            assert(inputs_view(args@) =~= seq![InputView::AtomicBag("hexBinary"@), InputView::AtomicBag("hexBinary"@)]);
        }
        mk_fn("hexBinarySubset", "urn:oasis:names:tc:xacml:1.0:function:hexBinary-subset", args, false, FunctionOutputArg::Atomic("boolean".to_owned()))
    } else if i == 226 {
        args.push(bag("hexBinary"));
        args.push(bag("hexBinary"));
        proof {
            assert(inputs_view(args@) =~= seq![InputView::AtomicBag("hexBinary"@), InputView::AtomicBag("hexBinary"@)]);
        }
        mk_fn("hexBinarySetEquals", "urn:oasis:names:tc:xacml:1.0:function:hexBinary-set-equals", args, false, FunctionOutputArg::Atomic("boolean".to_owned()))
    } else if i == 227 {
        args.push(bag("base64Binary"));
        args.push(bag("base64Binary"));
        proof {
            assert(inputs_view(args@) =~= seq![InputView::AtomicBag("base64Binary"@), InputView::AtomicBag("base64Binary"@)]);
        }
        mk_fn("base64BinaryIntersection", "urn:oasis:names:tc:xacml:1.0:function:base64Binary-intersection", args, false, FunctionOutputArg::AtomicBag("base64Binary".to_owned()))
    } else if i == 228 {
        args.push(bag("base64Binary"));
        args.push(bag("base64Binary"));
        proof {
            assert(inputs_view(args@) =~= seq![InputView::AtomicBag("base64Binary"@), InputView::AtomicBag("base64Binary"@)]);
        }
        mk_fn("base64BinaryAtLeastOneMemberOf", "urn:oasis:names:tc:xacml:1.0:function:base64Binary-at-least-one-member-of", args, false, FunctionOutputArg::Atomic("boolean".to_owned()))
    } else if i == 229 {
        args.push(bag("base64Binary"));
        args.push(bag("base64Binary"));
        args.push(bag("base64Binary"));
        proof {
            assert(inputs_view(args@) =~= seq![InputView::AtomicBag("base64Binary"@), InputView::AtomicBag("base64Binary"@), InputView::AtomicBag("base64Binary"@)]);
        }
        mk_fn("base64BinaryUnion", "urn:oasis:names:tc:xacml:1.0:function:base64Binary-union", args, true, FunctionOutputArg::AtomicBag("base64Binary".to_owned()))
    } else if i == 230 {
        args.push(bag("base64Binary"));
        args.push(bag("base64Binary"));
        proof {
            assert(inputs_view(args@) =~= seq![InputView::AtomicBag("base64Binary"@), InputView::AtomicBag("base64Binary"@)]);
        }
        mk_fn("base64BinarySubset", "urn:oasis:names:tc:xacml:1.0:function:base64Binary-subset", args, false, FunctionOutputArg::Atomic("boolean".to_owned()))
    } else if i == 231 {
        args.push(bag("base64Binary"));
        args.push(bag("base64Binary"));
        proof {
            assert(inputs_view(args@) =~= seq![InputView::AtomicBag("base64Binary"@), InputView::AtomicBag("base64Binary"@)]);
        }
        mk_fn("base64BinarySetEquals", "urn:oasis:names:tc:xacml:1.0:function:base64Binary-set-equals", args, false, FunctionOutputArg::Atomic("boolean".to_owned()))
    } else if i == 232 {
        args.push(bag("dayTimeDuration"));
        args.push(bag("dayTimeDuration"));
        proof {
            assert(inputs_view(args@) =~= seq![InputView::AtomicBag("dayTimeDuration"@), InputView::AtomicBag("dayTimeDuration"@)]);
        }
        mk_fn("dayTimeDurationIntersection", "urn:oasis:names:tc:xacml:3.0:function:dayTimeDuration-intersection", args, false, FunctionOutputArg::AtomicBag("dayTimeDuration".to_owned()))
    } else if i == 233 {
        args.push(bag("dayTimeDuration"));
        args.push(bag("dayTimeDuration"));
        proof {
            assert(inputs_view(args@) =~= seq![InputView::AtomicBag("dayTimeDuration"@), InputView::AtomicBag("dayTimeDuration"@)]);
        }
        mk_fn("dayTimeDurationAtLeastOneMemberOf", "urn:oasis:names:tc:xacml:3.0:function:dayTimeDuration-at-least-one-member-of", args, false, FunctionOutputArg::Atomic("boolean".to_owned()))
    } else if i == 234 {
        args.push(bag("dayTimeDuration"));
        args.push(bag("dayTimeDuration"));
        args.push(bag("dayTimeDuration"));
        proof {
            assert(inputs_view(args@) =~= seq![InputView::AtomicBag("dayTimeDuration"@), InputView::AtomicBag("dayTimeDuration"@), InputView::AtomicBag("dayTimeDuration"@)]);
        }
        mk_fn("dayTimeDurationUnion", "urn:oasis:names:tc:xacml:3.0:function:dayTimeDuration-union", args, true, FunctionOutputArg::AtomicBag("dayTimeDuration".to_owned()))
    } else if i == 235 {
        args.push(bag("dayTimeDuration"));
        args.push(bag("dayTimeDuration"));
        proof {
            assert(inputs_view(args@) =~= seq![InputView::AtomicBag("dayTimeDuration"@), InputView::AtomicBag("dayTimeDuration"@)]);
        }
        mk_fn("dayTimeDurationSubset", "urn:oasis:names:tc:xacml:3.0:function:dayTimeDuration-subset", args, false, FunctionOutputArg::Atomic("boolean".to_owned()))
    } else if i == 236 {
        args.push(bag("dayTimeDuration"));
        args.push(bag("dayTimeDuration"));
        proof {
            assert(inputs_view(args@) =~= seq![InputView::AtomicBag("dayTimeDuration"@), InputView::AtomicBag("dayTimeDuration"@)]);
        }
        mk_fn("dayTimeDurationSetEquals", "urn:oasis:names:tc:xacml:3.0:function:dayTimeDuration-set-equals", args, false, FunctionOutputArg::Atomic("boolean".to_owned()))
    } else if i == 237 {
        args.push(bag("yearMonthDuration"));
        args.push(bag("yearMonthDuration"));
        proof {
            assert(inputs_view(args@) =~= seq![InputView::AtomicBag("yearMonthDuration"@), InputView::AtomicBag("yearMonthDuration"@)]);
        }
        mk_fn("yearMonthDurationIntersection", "urn:oasis:names:tc:xacml:3.0:function:yearMonthDuration-intersection", args, false, FunctionOutputArg::AtomicBag("yearMonthDuration".to_owned()))
    } else if i == 238 {
        args.push(bag("yearMonthDuration"));
        args.push(bag("yearMonthDuration"));
        proof {
            assert(inputs_view(args@) =~= seq![InputView::AtomicBag("yearMonthDuration"@), InputView::AtomicBag("yearMonthDuration"@)]);
        }
        mk_fn("yearMonthDurationAtLeastOneMemberOf", "urn:oasis:names:tc:xacml:3.0:function:yearMonthDuration-at-least-one-member-of", args, false, FunctionOutputArg::Atomic("boolean".to_owned()))
    } else if i == 239 {
        args.push(bag("yearMonthDuration"));
        args.push(bag("yearMonthDuration"));
        args.push(bag("yearMonthDuration"));
        proof {
            assert(inputs_view(args@) =~= seq![InputView::AtomicBag("yearMonthDuration"@), InputView::AtomicBag("yearMonthDuration"@), InputView::AtomicBag("yearMonthDuration"@)]);
        }
        mk_fn("yearMonthDurationUnion", "urn:oasis:names:tc:xacml:3.0:function:yearMonthDuration-union", args, true, FunctionOutputArg::AtomicBag("yearMonthDuration".to_owned()))
    } else if i == 240 {
        args.push(bag("yearMonthDuration"));
        args.push(bag("yearMonthDuration"));
        proof {
            assert(inputs_view(args@) =~= seq![InputView::AtomicBag("yearMonthDuration"@), InputView::AtomicBag("yearMonthDuration"@)]);
        }
        mk_fn("yearMonthDurationSubset", "urn:oasis:names:tc:xacml:3.0:function:yearMonthDuration-subset", args, false, FunctionOutputArg::Atomic("boolean".to_owned()))
    } else if i == 241 {
        args.push(bag("yearMonthDuration"));
        args.push(bag("yearMonthDuration"));
        proof {
            assert(inputs_view(args@) =~= seq![InputView::AtomicBag("yearMonthDuration"@), InputView::AtomicBag("yearMonthDuration"@)]);
        }
        mk_fn("yearMonthDurationSetEquals", "urn:oasis:names:tc:xacml:3.0:function:yearMonthDuration-set-equals", args, false, FunctionOutputArg::Atomic("boolean".to_owned()))
    } else if i == 242 {
        args.push(bag("x500Name"));
        args.push(bag("x500Name"));
        proof {
            assert(inputs_view(args@) =~= seq![InputView::AtomicBag("x500Name"@), InputView::AtomicBag("x500Name"@)]);
        }
        mk_fn("x500NameIntersection", "urn:oasis:names:tc:xacml:1.0:function:x500Name-intersection", args, false, FunctionOutputArg::AtomicBag("x500Name".to_owned()))
    } else if i == 243 {
        args.push(bag("x500Name"));
        args.push(bag("x500Name"));
        proof {
            assert(inputs_view(args@) =~= seq![InputView::AtomicBag("x500Name"@), InputView::AtomicBag("x500Name"@)]);
        }
        mk_fn("x500NameAtLeastOneMemberOf", "urn:oasis:names:tc:xacml:1.0:function:x500Name-at-least-one-member-of", args, false, FunctionOutputArg::Atomic("boolean".to_owned()))
    } else if i == 244 {
        args.push(bag("x500Name"));
        args.push(bag("x500Name"));
        args.push(bag("x500Name"));
        proof {
            assert(inputs_view(args@) =~= seq![InputView::AtomicBag("x500Name"@), InputView::AtomicBag("x500Name"@), InputView::AtomicBag("x500Name"@)]);
        }
        mk_fn("x500NameUnion", "urn:oasis:names:tc:xacml:1.0:function:x500Name-union", args, true, FunctionOutputArg::AtomicBag("x500Name".to_owned()))
    } else if i == 245 {
        args.push(bag("x500Name"));
        args.push(bag("x500Name"));
        proof {
            assert(inputs_view(args@) =~= seq![InputView::AtomicBag("x500Name"@), InputView::AtomicBag("x500Name"@)]);
        }
        mk_fn("x500NameSubset", "urn:oasis:names:tc:xacml:1.0:function:x500Name-subset", args, false, FunctionOutputArg::Atomic("boolean".to_owned()))
    } else if i == 246 {
        args.push(bag("x500Name"));
        args.push(bag("x500Name"));
        proof {
            assert(inputs_view(args@) =~= seq![InputView::AtomicBag("x500Name"@), InputView::AtomicBag("x500Name"@)]);
        }
        mk_fn("x500NameSetEquals", "urn:oasis:names:tc:xacml:1.0:function:x500Name-set-equals", args, false, FunctionOutputArg::Atomic("boolean".to_owned()))
    } else if i == 247 {
        args.push(bag("rfc822Name"));
        args.push(bag("rfc822Name"));
        proof {
            assert(inputs_view(args@) =~= seq![InputView::AtomicBag("rfc822Name"@), InputView::AtomicBag("rfc822Name"@)]);
        }
        mk_fn("rfc822NameIntersection", "urn:oasis:names:tc:xacml:1.0:function:rfc822Name-intersection", args, false, FunctionOutputArg::AtomicBag("rfc822Name".to_owned()))
    } else if i == 248 {
        args.push(bag("rfc822Name"));
        args.push(bag("rfc822Name"));
        proof {
            assert(inputs_view(args@) =~= seq![InputView::AtomicBag("rfc822Name"@), InputView::AtomicBag("rfc822Name"@)]);
        }
        mk_fn("rfc822NameAtLeastOneMemberOf", "urn:oasis:names:tc:xacml:1.0:function:rfc822Name-at-least-one-member-of", args, false, FunctionOutputArg::Atomic("boolean".to_owned()))
    } else if i == 249 {
        args.push(bag("rfc822Name"));
        args.push(bag("rfc822Name"));
        args.push(bag("rfc822Name"));
        proof {
            assert(inputs_view(args@) =~= seq![InputView::AtomicBag("rfc822Name"@), InputView::AtomicBag("rfc822Name"@), InputView::AtomicBag("rfc822Name"@)]);
        }
        mk_fn("rfc822NameUnion", "urn:oasis:names:tc:xacml:1.0:function:rfc822Name-union", args, true, FunctionOutputArg::AtomicBag("rfc822Name".to_owned()))
    } else if i == 250 {
        args.push(bag("rfc822Name"));
        args.push(bag("rfc822Name"));
        proof {
            assert(inputs_view(args@) =~= seq![InputView::AtomicBag("rfc822Name"@), InputView::AtomicBag("rfc822Name"@)]);
        }
        mk_fn("rfc822NameSubset", "urn:oasis:names:tc:xacml:1.0:function:rfc822Name-subset", args, false, FunctionOutputArg::Atomic("boolean".to_owned()))
    } else if i == 251 {
        args.push(bag("rfc822Name"));
        args.push(bag("rfc822Name"));
        proof {
            assert(inputs_view(args@) =~= seq![InputView::AtomicBag("rfc822Name"@), InputView::AtomicBag("rfc822Name"@)]);
        }
        mk_fn("rfc822NameSetEquals", "urn:oasis:names:tc:xacml:1.0:function:rfc822Name-set-equals", args, false, FunctionOutputArg::Atomic("boolean".to_owned()))
    } else {
        args.push(atomic("anyURI"));
        args.push(atomic("string"));
        proof {
            assert(inputs_view(args@) =~= seq![InputView::Atomic("anyURI"@), InputView::Atomic("string"@)]);
        }
        mk_fn("accessPermitted", "urn:oasis:names:tc:xacml:3.0:function:access-permitted", args, false, FunctionOutputArg::Atomic("boolean".to_owned()))
    }
}

/// The built-in function at the place `i` of the table.
fn function_at(i: usize) -> (r: Function)
    requires
        i < 253,
    ensures
        r@ == function_row(i as int),
{
    if i < 32 {
        function_at_1(i)
    } else if i < 64 {
        function_at_2(i)
    } else if i < 96 {
        function_at_3(i)
    } else if i < 128 {
        function_at_4(i)
    } else if i < 160 {
        function_at_5(i)
    } else if i < 192 {
        function_at_6(i)
    } else if i < 224 {
        function_at_7(i)
    } else {
        function_at_8(i)
    }
}

/// The functions that XACML defines, as built-in declarations: the rows of
/// `function_row`, in order.
pub fn standard_functions() -> (r: Vec<Function>)
    ensures
        r@.len() == 253,
        forall|i: int| 0 <= i < 253 ==> (#[trigger] r@[i])@ == function_row(i),
{
    let mut out: Vec<Function> = Vec::new();
    let mut i: usize = 0;
    while i < 253
        invariant
            i <= 253,
            out@.len() == i,
            forall|j: int| 0 <= j < i ==> (#[trigger] out@[j])@ == function_row(j),
        decreases 253 - i,
    {
        out.push(function_at(i));
        i = i + 1;
    }
    out
}

} // verus!
