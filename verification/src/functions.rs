use vstd::prelude::*;
use vstd::string::StringExecFns;

verus! {

/// The source of a function of three parameters whose body is `js`.
pub open spec fn tick_callback_text(
    js: Seq<char>,
    arg1: Seq<char>,
    arg2: Seq<char>,
    arg3: Seq<char>,
) -> Seq<char> {
    "function ("@ + arg1 + ", "@ + arg2 + ", "@ + arg3 + ") {\n    "@ + js + "\n}\n"@
}

/// The source of a function of one parameter whose body is `js`.
pub open spec fn single_arg_callback_text(js: Seq<char>, arg: Seq<char>) -> Seq<char> {
    "function ("@ + arg + ") {\n    "@ + js + "\n}\n"@
}

/// The source of a callback for the ticks of an axis: a function of three
/// parameters with the body `js`.
pub fn tick_callback(js: &str, arg1: &str, arg2: &str, arg3: &str) -> (r: String)
    ensures
        r@ == tick_callback_text(js@, arg1@, arg2@, arg3@),
{
    let mut out = String::from_str("function (");
    out.append(arg1);
    out.append(", ");
    out.append(arg2);
    out.append(", ");
    out.append(arg3);
    out.append(") {\n    ");
    out.append(js);
    out.append("\n}\n");
    out
}

/// The source of a callback of one parameter with the body `js`.
pub fn single_arg_callback(js: &str, arg: &str) -> (r: String)
    ensures
        r@ == single_arg_callback_text(js@, arg@),
{
    let mut out = String::from_str("function (");
    out.append(arg);
    out.append(") {\n    ");
    out.append(js);
    out.append("\n}\n");
    out
}

} // verus!
