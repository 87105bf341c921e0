//! Readable names of function and method calls, as the diagnostic macros print them.
//!
//! A call expression is described by [`CallExpr`]: its syntactic shape, together with the
//! type names that the generated code obtains from the compiler (the receiver's type for a
//! method call, the owning type of an associated function, and each explicitly supplied
//! type argument).
use vstd::prelude::*;
use crate::text::{join, push_joined, push_trimmed_leading_amps, trim_leading_amps};

verus! {

/// One explicitly supplied generic argument of a call.
pub enum GenericArg {
    /// A lifetime, as written (for example `'a`).
    Lifetime(String),
    /// A type, given by the readable name of the type it resolves to.
    Type(String),
    /// A const generic argument, as written; not supported.
    Const(String),
    /// An associated type, associated const or constraint argument, as written; not supported.
    Associated(String),
}

/// The generic arguments attached to the last segment of a function path.
pub enum PathArguments {
    /// No arguments (`foo`).
    NoArguments,
    /// Angle-bracketed arguments (`foo::<A, B>`).
    AngleBracketed(Vec<GenericArg>),
    /// Parenthesized arguments (`Fn(A) -> B`), which contribute nothing to the name.
    Parenthesized,
}

/// One segment of a function path.
pub struct PathSegment {
    pub ident: String,
    pub arguments: PathArguments,
}

/// The callee of a function-call expression.
pub enum Callee {
    /// A path to a free or associated function. `owner_type_name` is the readable name of the
    /// type that all segments but the last one denote; it is used only when the next-to-last
    /// segment starts with an ASCII uppercase letter.
    Path { segments: Vec<PathSegment>, owner_type_name: String },
    /// Any other callee expression (a closure, a field, a call result, ...).
    Other,
}

/// The shape of an expression handed to the name builder.
pub enum CallExpr {
    /// An invisible group around an expression.
    Group(Box<CallExpr>),
    /// A parenthesized expression.
    Paren(Box<CallExpr>),
    /// `receiver.method::<turbofish>(..)`; `receiver_type_name` is the readable name of the
    /// receiver's type.
    MethodCall { receiver_type_name: String, method: String, turbofish: Option<Vec<GenericArg>> },
    /// `callee(..)`.
    Call { func: Callee },
    /// Any expression that is not a call.
    Other,
}

/// Why no name can be built for an expression.
#[derive(PartialEq, Eq, Structural, Clone, Copy, Debug)]
pub enum ApiNameError {
    /// The expression is neither a function call nor a method call.
    NotACall,
    /// The callee of a function call is not a path to a function.
    NotAFunctionPath,
    /// A generic argument is a const argument.
    ConstGenericArgument,
    /// A generic argument is an associated type, associated const or constraint.
    AssociatedGenericArgument,
}

impl ApiNameError {
    /// The diagnostic text of this error.
    pub fn message(&self) -> (r: &'static str)
        ensures
            r@ == self.message_spec(),
    {
        match self {
            ApiNameError::NotACall => "expected a function or method call",
            ApiNameError::NotAFunctionPath => "expected a path to a free or associated function",
            ApiNameError::ConstGenericArgument => "const generic arguments are not supported",
            ApiNameError::AssociatedGenericArgument => "associated generic arguments are not supported",
        }
    }

    pub open spec fn message_spec(&self) -> Seq<char> {
        match self {
            ApiNameError::NotACall => "expected a function or method call"@,
            ApiNameError::NotAFunctionPath => "expected a path to a free or associated function"@,
            ApiNameError::ConstGenericArgument => "const generic arguments are not supported"@,
            ApiNameError::AssociatedGenericArgument => "associated generic arguments are not supported"@,
        }
    }
}

/// The expression with every surrounding group and parenthesis removed.
pub open spec fn strip_groups(e: CallExpr) -> CallExpr
    decreases e,
{
    match e {
        CallExpr::Group(inner) => strip_groups(*inner),
        CallExpr::Paren(inner) => strip_groups(*inner),
        _ => e,
    }
}

/// The text of one generic argument, or why it is refused.
pub open spec fn generic_arg_text(a: GenericArg) -> Result<Seq<char>, ApiNameError> {
    match a {
        GenericArg::Lifetime(text) => Ok(text@),
        GenericArg::Type(name) => Ok(name@),
        GenericArg::Const(_) => Err(ApiNameError::ConstGenericArgument),
        GenericArg::Associated(_) => Err(ApiNameError::AssociatedGenericArgument),
    }
}

/// The texts of all arguments in order, or the error of the first refused one.
pub open spec fn generic_arg_texts(args: Seq<GenericArg>) -> Result<Seq<Seq<char>>, ApiNameError>
    decreases args.len(),
{
    if args.len() == 0 {
        Ok(Seq::empty())
    } else {
        match generic_arg_texts(args.drop_last()) {
            Err(e) => Err(e),
            Ok(texts) => match generic_arg_text(args.last()) {
                Ok(t) => Ok(texts.push(t)),
                Err(e) => Err(e),
            },
        }
    }
}

/// `::<A, B, ..>` for the given arguments.
pub open spec fn generics_suffix(args: Seq<GenericArg>) -> Result<Seq<char>, ApiNameError> {
    match generic_arg_texts(args) {
        Ok(texts) => Ok("::<"@ + join(texts, ", "@) + ">"@),
        Err(e) => Err(e),
    }
}

/// Whether a path segment names a type: it starts with an ASCII uppercase letter.
pub open spec fn is_type_segment(ident: Seq<char>) -> bool {
    ident.len() > 0 && 'A' <= ident[0] && ident[0] <= 'Z'
}

/// The readable name of a path call, from its segments.
pub open spec fn path_call_name(segments: Seq<PathSegment>, owner_type_name: Seq<char>) -> Result<Seq<char>, ApiNameError> {
    if segments.len() == 0 {
        Err(ApiNameError::NotAFunctionPath)
    } else {
        let last = segments.last();
        let generics = match last.arguments {
            PathArguments::AngleBracketed(args) => generics_suffix(args@),
            _ => Ok(Seq::empty()),
        };
        match generics {
            Err(e) => Err(e),
            Ok(g) => if segments.len() >= 2 && is_type_segment(segments[segments.len() - 2].ident@) {
                Ok(owner_type_name + "::"@ + last.ident@ + g)
            } else {
                Ok(last.ident@ + g)
            },
        }
    }
}

/// The readable name of a call expression, or why none can be built.
///
/// A method call is named `Receiver::method`, where leading `&` are removed from the
/// receiver's type name; a path call to an associated function is named `Owner::function`;
/// any other path call is named by its last segment. Explicit type and lifetime arguments
/// follow as `::<A, B>`.
pub open spec fn api_name(e: CallExpr) -> Result<Seq<char>, ApiNameError> {
    match strip_groups(e) {
        CallExpr::MethodCall { receiver_type_name, method, turbofish } => {
            let generics = match turbofish {
                Some(args) => generics_suffix(args@),
                None => Ok(Seq::empty()),
            };
            match generics {
                Err(e) => Err(e),
                Ok(g) => Ok(trim_leading_amps(receiver_type_name@) + "::"@ + method@ + g),
            }
        },
        CallExpr::Call { func } => match func {
            Callee::Path { segments, owner_type_name } => path_call_name(segments@, owner_type_name@),
            Callee::Other => Err(ApiNameError::NotAFunctionPath),
        },
        _ => Err(ApiNameError::NotACall),
    }
}

/// The view of a computed name.
pub open spec fn name_view(r: Result<String, ApiNameError>) -> Result<Seq<char>, ApiNameError> {
    match r {
        Ok(s) => Ok(s@),
        Err(e) => Err(e),
    }
}

fn strip_groups_exec(e: &CallExpr) -> (r: &CallExpr)
    ensures
        *r == strip_groups(*e),
    decreases e,
{
    match e {
        CallExpr::Group(inner) => strip_groups_exec(inner),
        CallExpr::Paren(inner) => strip_groups_exec(inner),
        _ => e,
    }
}

fn generic_arg_to_string(a: &GenericArg) -> (r: Result<String, ApiNameError>)
    ensures
        name_view(r) == generic_arg_text(*a),
{
    match a {
        GenericArg::Lifetime(text) => Ok(text.clone()),
        GenericArg::Type(name) => Ok(name.clone()),
        GenericArg::Const(_) => Err(ApiNameError::ConstGenericArgument),
        GenericArg::Associated(_) => Err(ApiNameError::AssociatedGenericArgument),
    }
}

/// Formats explicitly supplied generic arguments as `::<A, B>`.
///
/// Lifetimes are kept as written and types by their readable names; the first const or
/// associated argument makes the result an error.
pub fn display_generic_args(args: &Vec<GenericArg>) -> (r: Result<String, ApiNameError>)
    ensures
        name_view(r) == generics_suffix(args@),
{
    let mut texts: Vec<String> = Vec::new();
    let mut i: usize = 0;
    assert(args@.take(0) =~= Seq::<GenericArg>::empty());
    assert(texts@.map_values(|t: String| t@) =~= Seq::<Seq<char>>::empty());
    while i < args.len()
        invariant
            i <= args.len(),
            generic_arg_texts(args@.take(i as int)) == Ok::<Seq<Seq<char>>, ApiNameError>(texts@.map_values(|t: String| t@)),
        decreases args.len() - i,
    {
        assert(args@.take(i + 1).drop_last() =~= args@.take(i as int));
        assert(args@.take(i + 1).last() == args@[i as int]);
        let t = generic_arg_to_string(&args[i]);
        match t {
            Ok(t) => {
                let ghost before = texts@;
                texts.push(t);
                assert(texts@.map_values(|t: String| t@) =~= before.map_values(|t: String| t@).push(t@));
            },
            Err(e) => {
                proof { lemma_first_error_persists(args@, i as int); }
                return Err(e);
            },
        }
        i = i + 1;
    }
    assert(args@.take(args.len() as int) =~= args@);
    let mut s = String::new();
    s.append("::<");
    push_joined(&mut s, &texts, ", ");
    s.append(">");
    Ok(s)
}

/// An error in a prefix of the arguments is the error of the whole list.
proof fn lemma_first_error_persists(args: Seq<GenericArg>, i: int)
    requires
        0 <= i < args.len(),
        generic_arg_texts(args.take(i + 1)) is Err,
    ensures
        generic_arg_texts(args) == generic_arg_texts(args.take(i + 1)),
    decreases args.len() - i,
{
    if i + 1 == args.len() {
        assert(args.take(i + 1) =~= args);
    } else {
        assert(args.take(i + 2).drop_last() =~= args.take(i + 1));
        lemma_first_error_persists(args, i + 1);
    }
}


/// Whether a generic argument is one that names keep (a lifetime or a type).
pub open spec fn is_supported_arg(a: GenericArg) -> bool {
    a is Lifetime || a is Type
}

/// The text that a supported argument contributes to a name.
pub open spec fn supported_arg_text(a: GenericArg) -> Seq<char> {
    match a {
        GenericArg::Lifetime(text) => text@,
        GenericArg::Type(name) => name@,
        GenericArg::Const(text) => text@,
        GenericArg::Associated(text) => text@,
    }
}

/// Surrounding groups and parentheses do not change the name of an expression.
pub proof fn law_groups_are_transparent(e: CallExpr)
    ensures
        api_name(CallExpr::Group(Box::new(e))) == api_name(e),
        api_name(CallExpr::Paren(Box::new(e))) == api_name(e),
{
}

/// Type and lifetime arguments are all kept, in order, separated by `, `, inside `::<..>`.
pub proof fn law_explicit_generics_preserved(args: Seq<GenericArg>)
    requires
        forall|i: int| 0 <= i < args.len() ==> is_supported_arg(#[trigger] args[i]),
    ensures
        generics_suffix(args) == Ok::<Seq<char>, ApiNameError>(
            "::<"@ + join(
                args.map_values(
                    |a: GenericArg|
                        match a {
                            GenericArg::Lifetime(text) => text@,
                            GenericArg::Type(name) => name@,
                            GenericArg::Const(text) => text@,
                            GenericArg::Associated(text) => text@,
                        },
                ),
                ", "@,
            ) + ">"@,
        ),
{
    lemma_supported_texts(args);
    assert(args.map_values(|a: GenericArg| supported_arg_text(a)) =~= args.map_values(
        |a: GenericArg|
            match a {
                GenericArg::Lifetime(text) => text@,
                GenericArg::Type(name) => name@,
                GenericArg::Const(text) => text@,
                GenericArg::Associated(text) => text@,
            },
    ));
}

proof fn lemma_supported_texts(args: Seq<GenericArg>)
    requires
        forall|i: int| 0 <= i < args.len() ==> is_supported_arg(#[trigger] args[i]),
    ensures
        generic_arg_texts(args) == Ok::<Seq<Seq<char>>, ApiNameError>(
            args.map_values(|a: GenericArg| supported_arg_text(a)),
        ),
    decreases args.len(),
{
    if args.len() > 0 {
        let prefix = args.drop_last();
        assert forall|i: int| 0 <= i < prefix.len() implies is_supported_arg(#[trigger] prefix[i]) by {
            assert(prefix[i] == args[i]);
        }
        lemma_supported_texts(prefix);
        assert(is_supported_arg(args[args.len() - 1]));
        assert(generic_arg_text(args.last()) == Ok::<Seq<char>, ApiNameError>(supported_arg_text(args.last())));
        assert(args.map_values(|a: GenericArg| supported_arg_text(a)) =~= prefix.map_values(
            |a: GenericArg| supported_arg_text(a),
        ).push(supported_arg_text(args.last())));
    } else {
        assert(args.map_values(|a: GenericArg| supported_arg_text(a)) =~= Seq::<Seq<char>>::empty());
    }
}

/// The first const or associated argument decides the error, whatever follows it.
pub proof fn law_first_unsupported_argument_reported(args: Seq<GenericArg>, i: int)
    requires
        0 <= i < args.len(),
        !is_supported_arg(args[i]),
        forall|j: int| 0 <= j < i ==> is_supported_arg(#[trigger] args[j]),
    ensures
        generics_suffix(args) == match args[i] {
            GenericArg::Const(_) => Err::<Seq<char>, ApiNameError>(ApiNameError::ConstGenericArgument),
            _ => Err::<Seq<char>, ApiNameError>(ApiNameError::AssociatedGenericArgument),
        },
{
    let prefix = args.take(i);
    assert forall|j: int| 0 <= j < prefix.len() implies is_supported_arg(#[trigger] prefix[j]) by {
        assert(prefix[j] == args[j]);
    }
    lemma_supported_texts(prefix);
    assert(args.take(i + 1).drop_last() =~= prefix);
    assert(args.take(i + 1).last() == args[i]);
    lemma_first_error_persists(args, i);
}

/// A method call is named after its receiver's type with every leading `&` removed, so a
/// reference receiver gives the same name as the value it refers to.
pub proof fn law_receiver_references_ignored(receiver: Seq<char>)
    ensures
        trim_leading_amps(seq!['&'] + receiver) == trim_leading_amps(receiver),
        trim_leading_amps(receiver).len() == 0 || trim_leading_amps(receiver)[0] != '&',
    decreases receiver.len(),
{
    assert((seq!['&'] + receiver).drop_first() =~= receiver);
    if receiver.len() > 0 && receiver[0] == '&' {
        law_receiver_references_ignored(receiver.drop_first());
    }
}


/// The number of `&` that a text starts with.
pub open spec fn leading_amp_count(text: Seq<char>) -> nat
    decreases text.len(),
{
    if text.len() > 0 && text[0] == '&' {
        1 + leading_amp_count(text.drop_first())
    } else {
        0
    }
}

/// Removing the leading `&` of a text keeps everything after them: the result is the text
/// without its first `k` characters, where those `k` are all `&` and the next one is not.
pub proof fn law_trim_keeps_text_after_leading_amps(text: Seq<char>)
    ensures
        leading_amp_count(text) <= text.len(),
        forall|i: int| 0 <= i < leading_amp_count(text) ==> #[trigger] text[i] == '&',
        leading_amp_count(text) == text.len() || text[leading_amp_count(text) as int] != '&',
        trim_leading_amps(text) == text.skip(leading_amp_count(text) as int),
    decreases text.len(),
{
    if text.len() > 0 && text[0] == '&' {
        let rest = text.drop_first();
        law_trim_keeps_text_after_leading_amps(rest);
        let k = leading_amp_count(rest) as int;
        assert(rest.skip(k) =~= text.skip(k + 1));
        assert forall|i: int| 0 <= i < k + 1 implies #[trigger] text[i] == '&' by {
            if i > 0 {
                assert(text[i] == rest[i - 1]);
            }
        }
        if k + 1 < text.len() {
            assert(text[k + 1] == rest[k]);
        }
    } else {
        assert(text.skip(0) =~= text);
    }
}

/// A method call is named by its receiver's type name with only the leading `&` removed
/// (every later character kept as it is), then `::`, the method, and the generics suffix.
pub proof fn law_method_call_name(e: CallExpr)
    ensures
        match e {
            CallExpr::MethodCall { receiver_type_name, method, turbofish } => {
                let g = match turbofish {
                    Some(args) => generics_suffix(args@),
                    None => Ok(Seq::<char>::empty()),
                };
                let r = receiver_type_name@;
                let k = leading_amp_count(r) as int;
                &&& 0 <= k <= r.len()
                &&& forall|i: int| 0 <= i < k ==> #[trigger] r[i] == '&'
                &&& (k == r.len() || r[k] != '&')
                &&& g is Err ==> api_name(e) == Err::<Seq<char>, ApiNameError>(g->Err_0)
                &&& g is Ok ==> api_name(e) == Ok::<Seq<char>, ApiNameError>(r.skip(k) + "::"@ + method@ + g->Ok_0)
            },
            _ => true,
        },
{
    match e {
        CallExpr::MethodCall { receiver_type_name, method, turbofish } => {
            law_trim_keeps_text_after_leading_amps(receiver_type_name@);
        },
        _ => {},
    }
}

/// A path call whose next-to-last segment starts with an ASCII uppercase letter (`'A'` to
/// `'Z'`) names an associated function: the owner type's name, `::`, the last segment and
/// its generics suffix.
pub proof fn law_associated_function_named_with_owner(segments: Vec<PathSegment>, owner_type_name: String)
    requires
        segments@.len() >= 2,
        segments@[segments@.len() - 2].ident@.len() > 0,
        'A' <= segments@[segments@.len() - 2].ident@[0] <= 'Z',
    ensures
        ({
            let last = segments@.last();
            let e = CallExpr::Call { func: Callee::Path { segments, owner_type_name } };
            match last.arguments {
                PathArguments::AngleBracketed(args) => match generics_suffix(args@) {
                    Ok(g) => api_name(e) == Ok::<Seq<char>, ApiNameError>(owner_type_name@ + "::"@ + last.ident@ + g),
                    Err(err) => api_name(e) == Err::<Seq<char>, ApiNameError>(err),
                },
                _ => api_name(e) == Ok::<Seq<char>, ApiNameError>(owner_type_name@ + "::"@ + last.ident@),
            }
        }),
{
    let last = segments@.last();
    match last.arguments {
        PathArguments::AngleBracketed(args) => {},
        _ => {
            assert(owner_type_name@ + "::"@ + last.ident@ + Seq::<char>::empty() =~= owner_type_name@ + "::"@ + last.ident@);
        },
    }
}

/// A function reached through a module path is named by its last segment alone: the module
/// qualification does not appear in the name.
pub proof fn law_module_qualification_dropped(segments: Seq<PathSegment>, owner_type_name: Seq<char>)
    requires
        segments.len() >= 2,
        !(segments[segments.len() - 2].ident@.len() > 0 && 'A' <= segments[segments.len() - 2].ident@[0] <= 'Z'),
    ensures
        path_call_name(segments, owner_type_name) == path_call_name(seq![segments.last()], owner_type_name),
        !(segments.last().arguments is AngleBracketed) ==> path_call_name(segments, owner_type_name)
            == Ok::<Seq<char>, ApiNameError>(segments.last().ident@),
{
    assert(segments.last().ident@ + Seq::<char>::empty() =~= segments.last().ident@);
}

/// Only calls have names: any other expression is refused, and so is a call whose callee is
/// not a path.
pub proof fn law_only_calls_are_named(e: CallExpr)
    ensures
        strip_groups(e) is Other ==> api_name(e) == Err::<Seq<char>, ApiNameError>(ApiNameError::NotACall),
        (strip_groups(e) matches CallExpr::Call { func: Callee::Other }) ==> api_name(e) == Err::<Seq<char>, ApiNameError>(ApiNameError::NotAFunctionPath),
{
}

fn path_call_name_exec(segments: &Vec<PathSegment>, owner_type_name: &String) -> (r: Result<String, ApiNameError>)
    ensures
        name_view(r) == path_call_name(segments@, owner_type_name@),
{
    let n = segments.len();
    if n == 0 {
        return Err(ApiNameError::NotAFunctionPath);
    }
    let last = &segments[n - 1];
    let generics = match &last.arguments {
        PathArguments::AngleBracketed(args) => display_generic_args(args),
        _ => Ok(String::new()),
    };
    let generics = match generics {
        Ok(g) => g,
        Err(e) => return Err(e),
    };
    let owned = n >= 2 && {
        let ident = segments[n - 2].ident.as_str();
        ident.unicode_len() > 0 && {
            let c = ident.get_char(0);
            'A' <= c && c <= 'Z'
        }
    };
    let mut s = String::new();
    if owned {
        s.append(owner_type_name.as_str());
        s.append("::");
    }
    s.append(last.ident.as_str());
    s.append(generics.as_str());
    proof {
        if owned {
            assert(s@ =~= owner_type_name@ + "::"@ + last.ident@ + generics@);
        } else {
            assert(s@ =~= last.ident@ + generics@);
        }
    }
    Ok(s)
}

/// Builds the readable name of a function or method call, as the diagnostic macros print it.
///
/// Surrounding groups and parentheses are ignored. Expressions that are not calls, callees
/// that are not function paths, and const or associated generic arguments are refused.
pub fn api_name_of(expr: &CallExpr) -> (r: Result<String, ApiNameError>)
    ensures
        name_view(r) == api_name(*expr),
{
    let e = strip_groups_exec(expr);
    match e {
        CallExpr::MethodCall { receiver_type_name, method, turbofish } => {
            let generics = match turbofish {
                Some(args) => display_generic_args(args),
                None => Ok(String::new()),
            };
            let generics = match generics {
                Ok(g) => g,
                Err(err) => return Err(err),
            };
            let mut s = String::new();
            push_trimmed_leading_amps(&mut s, receiver_type_name.as_str());
            s.append("::");
            s.append(method.as_str());
            s.append(generics.as_str());
            assert(s@ =~= trim_leading_amps(receiver_type_name@) + "::"@ + method@ + generics@);
            Ok(s)
        },
        CallExpr::Call { func } => match func {
            Callee::Path { segments, owner_type_name } => path_call_name_exec(segments, owner_type_name),
            Callee::Other => Err(ApiNameError::NotAFunctionPath),
        },
        _ => Err(ApiNameError::NotACall),
    }
}

} // verus!
