use vstd::prelude::*;
use vstd::string::*;

verus! {

/// The greeting shown for `name`.
pub open spec fn greeting(name: Seq<char>) -> Seq<char> {
    "Hello, "@ + name + "! You've been greeted from Rust!"@
}

/// Formats a greeting for `name`. Pure: the result depends on `name` alone.
pub fn greet(name: &str) -> (r: String)
    ensures
        r@ == greeting(name@),
{
    let s = String::from_str("Hello, ");
    let s = s.concat(name);
    s.concat("! You've been greeted from Rust!")
}


/// The directory that `pick_directory` offers.
pub open spec fn placeholder_directory() -> Seq<char> {
    "C:\\Users\\digimbyte\\Documents"@
}

/// What a result of `pick_directory` says, as plain text values.
pub open spec fn picked(r: Result<Option<String>, String>) -> Result<Option<Seq<char>>, Seq<char>> {
    match r {
        Result::Ok(Option::Some(d)) => Result::Ok(Option::Some(d@)),
        Result::Ok(Option::None) => Result::Ok(Option::None),
        Result::Err(e) => Result::Err(e@),
    }
}

/// Offers a directory to work in. No dialog is shown: the answer is always
/// the same fixed directory, and nothing on disk is read.
pub fn pick_directory() -> (r: Result<Option<String>, String>)
    ensures
        picked(r) == Result::<Option<Seq<char>>, Seq<char>>::Ok(Option::Some(placeholder_directory())),
{
    Ok(Some(String::from_str("C:\\Users\\digimbyte\\Documents")))
}

/// Any two answers of `pick_directory` are the same directory.
pub proof fn pick_directory_is_stable(
    a: Result<Option<String>, String>,
    b: Result<Option<String>, String>,
)
    requires
        picked(a) == Result::<Option<Seq<char>>, Seq<char>>::Ok(Option::Some(placeholder_directory())),
        picked(b) == Result::<Option<Seq<char>>, Seq<char>>::Ok(Option::Some(placeholder_directory())),
    ensures
        picked(a) == picked(b),
        a is Ok && a->Ok_0 is Some,
{
}

} // verus!
