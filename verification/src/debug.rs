//! Diagnostics for failed API calls: the source location and the readable name of the call
//! are attached to the error that the call returned.
use vstd::prelude::*;
use crate::api_name::{api_name, api_name_of, CallExpr};
use crate::text::{decimal, digit_char, digit_value, digits_value, is_digit, push_decimal};

verus! {

/// Constrains two references to have the same referent type. It does nothing at run time.
pub fn __api_same_type<T: ?Sized>(_a: &T, _b: &T) {
}

/// Source location and message attached to a failed API call.
#[allow(non_camel_case_types)]
pub struct __api_call_context_t {
    /// Source file containing the instrumented call.
    pub file: &'static str,
    /// One-based source line containing the instrumented call.
    pub line: u32,
    /// Human-readable description of the failure.
    pub message: String,
}

/// `{message}\n    at {file}:{line}`.
pub open spec fn context_text(message: Seq<char>, file: Seq<char>, line: u32) -> Seq<char> {
    message + "\n    at "@ + file + ":"@ + decimal(line as nat)
}

impl __api_call_context_t {
    /// The text of this context: the message, then the source location on its own line.
    pub fn to_display_string(&self) -> (r: String)
        ensures
            r@ == context_text(self.message@, self.file@, self.line),
    {
        let mut s = self.message.clone();
        s.append("\n    at ");
        s.append(self.file);
        s.append(":");
        push_decimal(&mut s, self.line);
        s
    }
}

/// A failed API call: the error that the call returned, with the context of the call.
pub struct ApiCallError<E> {
    /// Where the call was made and what failed.
    pub context: __api_call_context_t,
    /// The error that the call returned.
    pub source: E,
}

impl<E> ApiCallError<E> {
    /// The text of the error: its context, which is the outermost layer of the error.
    pub fn to_display_string(&self) -> (r: String)
        ensures
            r@ == context_text(self.context.message@, self.context.file@, self.context.line),
    {
        self.context.to_display_string()
    }
}

/// The message of a failed call: `{name} failed`.
pub open spec fn failure_message(name: Seq<char>) -> Seq<char> {
    name + " failed"@
}

/// Passes on the result of a fallible API call, attaching the call's source location and
/// readable name to an error.
///
/// `call` describes the expression that produced `result`; its name is built only when the
/// call failed. An `Ok` value is returned unchanged.
pub fn api_call<T, E>(result: Result<T, E>, call: &CallExpr, file: &'static str, line: u32) -> (r: Result<T, ApiCallError<E>>)
    requires
        api_name(*call) is Ok,
    ensures
        match result {
            Ok(v) => r == Ok::<T, ApiCallError<E>>(v),
            Err(e) => match r {
                Ok(_) => false,
                Err(err) => {
                    &&& err.source == e
                    &&& err.context.file == file
                    &&& err.context.line == line
                    &&& err.context.message@ == failure_message(api_name(*call)->Ok_0)
                },
            },
        },
{
    match result {
        Ok(v) => Ok(v),
        Err(e) => {
            let name = api_name_of(call);
            let name = match name {
                Ok(name) => name,
                Err(_) => {
                    assert(false);
                    String::new()
                },
            };
            let mut message = name;
            message.append(" failed");
            Err(ApiCallError {
                context: __api_call_context_t { file, line, message },
                source: e,
            })
        },
    }
}

/// The text of a failed call's error starts with `{name} failed`, followed by the source
/// location, for every call that can be named.
pub proof fn law_failure_text_names_the_call(call: CallExpr, file: Seq<char>, line: u32)
    requires
        api_name(call) is Ok,
    ensures
        context_text(failure_message(api_name(call)->Ok_0), file, line).take(
            failure_message(api_name(call)->Ok_0).len() as int,
        ) == failure_message(api_name(call)->Ok_0),
{
    let m = failure_message(api_name(call)->Ok_0);
    assert(context_text(m, file, line).take(m.len() as int) =~= m);
}


/// The message of a failed call is the whole name of the call followed by ` failed`.
pub proof fn law_failure_message_keeps_whole_name(name: Seq<char>)
    ensures
        failure_message(name).len() == name.len() + " failed"@.len(),
        failure_message(name).take(name.len() as int) == name,
        failure_message(name).skip(name.len() as int) == " failed"@,
{
    assert(failure_message(name).take(name.len() as int) =~= name);
    assert(failure_message(name).skip(name.len() as int) =~= " failed"@);
}

/// The text of a context is the message, then `\n    at `, the whole source file, `:` and
/// the line in decimal.
pub proof fn law_context_text_layout(message: Seq<char>, file: Seq<char>, line: u32)
    ensures
        ({
            let t = context_text(message, file, line);
            let at = "\n    at "@;
            let m = message.len() as int;
            let f = m + at.len() as int;
            let c = f + file.len() as int;
            &&& t.len() == c + 1 + decimal(line as nat).len()
            &&& t.take(m) == message
            &&& t.subrange(m, f) == at
            &&& t.subrange(f, c) == file
            &&& t.skip(c) == ":"@ + decimal(line as nat)
        }),
{
    let t = context_text(message, file, line);
    let at = "\n    at "@;
    let m = message.len() as int;
    let f = m + at.len() as int;
    let c = f + file.len() as int;
    reveal_strlit(":");
    assert(t =~= message + at + file + ":"@ + decimal(line as nat));
    assert(t.take(m) =~= message);
    assert(t.subrange(m, f) =~= at);
    assert(t.subrange(f, c) =~= file);
    assert(t.skip(c) =~= ":"@ + decimal(line as nat));
}

/// The line number is written in decimal: only digits, never empty, and its value is the
/// line number itself.
pub proof fn law_line_number_round_trips(n: nat)
    ensures
        decimal(n).len() > 0,
        forall|i: int| 0 <= i < decimal(n).len() ==> is_digit(#[trigger] decimal(n)[i]),
        digits_value(decimal(n)) == n,
    decreases n,
{
    let d = decimal(n);
    assert(digit_value(digit_char(n % 10)) == n % 10);
    if n >= 10 {
        law_line_number_round_trips(n / 10);
        assert(d.drop_last() =~= decimal(n / 10));
        assert(n == (n / 10) * 10 + n % 10) by (nonlinear_arith);
        assert(d.last() == digit_char(n % 10));
        assert(digits_value(d) == digits_value(decimal(n / 10)) * 10 + digit_value(d.last()));
        assert forall|i: int| 0 <= i < d.len() implies is_digit(#[trigger] d[i]) by {
            if i < d.len() - 1 {
                assert(d[i] == decimal(n / 10)[i]);
            }
        }
    } else {
        assert(d.drop_last() =~= Seq::<char>::empty());
        assert(n % 10 == n);
        assert(digits_value(d) == digits_value(d.drop_last()) * 10 + digit_value(d.last()));
    }
}

} // verus!
