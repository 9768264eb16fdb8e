//! Where the CSV file goes.

use vstd::prelude::*;
use vstd::string::*;

verus! {

/// A decimal digit or a letter from `a` to `f`.
pub open spec fn is_lower_hex(c: char) -> bool {
    ('0' <= c <= '9') || ('a' <= c <= 'f')
}

/// The shape of a UUID in lower-case hyphenated form: 36 characters, hyphens
/// after the 8th, 12th, 16th and 20th hexadecimal digit.
pub open spec fn is_uuid_text(text: Seq<char>) -> bool {
    &&& text.len() == 36
    &&& forall|i: int|
        0 <= i < 36 ==> if i == 8 || i == 13 || i == 18 || i == 23 {
            #[trigger] text[i] == '-'
        } else {
            is_lower_hex(#[trigger] text[i])
        }
}

/// The path of the file for `stem` in the directory `temp_dir`.
pub open spec fn path_of(temp_dir: Seq<char>, stem: Seq<char>) -> Seq<char> {
    temp_dir + "/"@ + stem + ".csv"@
}

/// Draws a random UUID with `uuid::Uuid::new_v4` and formats it with
/// `uuid::fmt::Hyphenated::encode_lower`. Trusted: the text has the shape of
/// a lower-case hyphenated UUID. Which UUID it is differs from call to call,
/// and nothing is claimed of it. `new_v4` aborts the program when the
/// operating system has no random bytes to give.
#[verifier::external_body]
fn fresh_uuid() -> (text: String)
    ensures
        is_uuid_text(text@),
{
    uuid::Uuid::new_v4().hyphenated().encode_lower(&mut uuid::Uuid::encode_buffer()).to_owned()
}

/// The stem of the output file: the name the caller asked for, verbatim, or
/// a freshly drawn UUID where none was given.
pub fn file_stem(fname: Option<String>) -> (stem: String)
    ensures
        match fname {
            Some(name) => stem@ == name@,
            None => is_uuid_text(stem@),
        },
{
    match fname {
        Some(name) => name,
        None => fresh_uuid(),
    }
}

/// The path of the output file: `stem` with the suffix `.csv`, in the
/// directory `temp_dir`.
pub fn output_path(temp_dir: &str, stem: &str) -> (path: String)
    ensures
        path@ == path_of(temp_dir@, stem@),
{
    let mut path = temp_dir.to_owned();
    path.append("/");
    path.append(stem);
    path.append(".csv");
    path
}

} // verus!
