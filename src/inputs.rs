//! Checks on the paths given on the command line.
use vstd::prelude::*;

use crate::formats::same_text;

verus! {

/// Relies on `std::path::Path::exists`: whether something is found at the
/// path at the moment of the call. Nothing can be promised of the answer.
#[verifier::external_body]
fn path_exists(path: &str) -> (r: bool) {
    std::path::Path::new(path).exists()
}

/// Relies on `std::path::Path::is_dir`: whether a directory is found at the
/// path at the moment of the call. Nothing can be promised of the answer.
#[verifier::external_body]
fn path_is_dir(path: &str) -> (r: bool) {
    std::path::Path::new(path).is_dir()
}

pub open spec fn missing_file_message() -> Seq<char> {
    "Input file does not exist."@
}

pub open spec fn not_a_directory_message() -> Seq<char> {
    "Path does not exist or is not a directory"@
}

/// Accepts an input file name given that `exists` tells whether something is
/// found there: `-`, for standard input, is always accepted.
pub fn check_input_file(file_name: &str, exists: bool) -> (r: Result<String, &'static str>)
    ensures
        r is Ok <==> (file_name@ == "-"@ || exists),
        r matches Ok(name) ==> name@ == file_name@,
        r matches Err(msg) ==> msg@ == missing_file_message(),
{
    if same_text(file_name, "-") || exists {
        Ok(String::from_str(file_name))
    } else {
        Err("Input file does not exist.")
    }
}

/// Accepts `-`, for standard input, or the name of something that exists.
pub fn verify_file(file_name: &str) -> (r: Result<String, &'static str>)
    ensures
        file_name@ == "-"@ ==> r is Ok,
        r matches Ok(name) ==> name@ == file_name@,
        r matches Err(msg) ==> msg@ == missing_file_message(),
{
    if same_text(file_name, "-") {
        return check_input_file(file_name, true);
    }
    let exists = path_exists(file_name);
    check_input_file(file_name, exists)
}

/// Accepts a file name given that `exists` tells whether something is found
/// there; `-` is not special here.
pub fn check_existing_file(file_name: &str, exists: bool) -> (r: Result<String, &'static str>)
    ensures
        r is Ok <==> exists,
        r matches Ok(name) ==> name@ == file_name@,
        r matches Err(msg) ==> msg@ == missing_file_message(),
{
    if exists {
        Ok(String::from_str(file_name))
    } else {
        Err("Input file does not exist.")
    }
}

/// Accepts the name of something that exists; `-` is not special here.
pub fn verify_input_file(file_name: &str) -> (r: Result<String, &'static str>)
    ensures
        r matches Ok(name) ==> name@ == file_name@,
        r matches Err(msg) ==> msg@ == missing_file_message(),
{
    let exists = path_exists(file_name);
    check_existing_file(file_name, exists)
}

/// Accepts a directory given what was found at the path.
pub fn check_directory(path: &str, exists: bool, is_dir: bool) -> (r: Result<String, &'static str>)
    ensures
        r is Ok <==> (exists && is_dir),
        r matches Ok(name) ==> name@ == path@,
        r matches Err(msg) ==> msg@ == not_a_directory_message(),
{
    if exists && is_dir {
        Ok(String::from_str(path))
    } else {
        Err("Path does not exist or is not a directory")
    }
}

/// Accepts the name of an existing directory.
pub fn verify_path(path: &str) -> (r: Result<String, &'static str>)
    ensures
        r matches Ok(name) ==> name@ == path@,
        r matches Err(msg) ==> msg@ == not_a_directory_message(),
{
    let exists = path_exists(path);
    let is_dir = exists && path_is_dir(path);
    check_directory(path, exists, is_dir)
}

} // verus!
