//! Where the bytes of a loaded image are to be found on disk.

use vstd::prelude::*;
use vstd::string::StringExecFns;
use crate::text::{contains, contains_text, same_text};

verus! {

/// The folder that holds the shared libraries of the system.
pub const OTA_FOLDER: &'static str = "dylibs";

/// The folder that holds the applications.
pub const APPS_FOLDER: &'static str = "apps";

/// The path of the process's own executable: directly under the
/// applications folder for first-party software, inside the application
/// bundle otherwise.
pub open spec fn main_executable_path(proc_name: Seq<char>, first_party: bool) -> Seq<char> {
    if first_party {
        APPS_FOLDER@ + "/"@ + proc_name
    } else {
        APPS_FOLDER@ + "/"@ + proc_name + ".app/"@ + proc_name
    }
}

/// The path of a framework that the application carries in its bundle.
pub open spec fn embedded_framework_path(image_name: Seq<char>, proc_name: Seq<char>) -> Seq<
    char,
> {
    APPS_FOLDER@ + "/"@ + proc_name + ".app/Frameworks/"@ + image_name + ".framework/"@
        + image_name
}

/// The path of a library of the system.
pub open spec fn shared_library_path(image_name: Seq<char>) -> Seq<char> {
    OTA_FOLDER@ + "/"@ + image_name
}

/// Whether the path that the report recorded for an image names the
/// process. An image without a recorded path does not.
pub open spec fn recorded_under_process(recorded_path: Option<String>, proc_name: Seq<char>) -> bool {
    match recorded_path {
        Some(p) => contains_text(p@, proc_name),
        None => false,
    }
}

/// The path at which an image is looked for. An image named like the process
/// is its main executable. Any other image whose recorded path names the
/// process is a framework of the application. What is left is a library of
/// the system.
pub open spec fn binary_path_text(
    image_name: Seq<char>,
    recorded_path: Option<String>,
    proc_name: Seq<char>,
    first_party: bool,
) -> Seq<char> {
    if image_name == proc_name {
        main_executable_path(proc_name, first_party)
    } else if recorded_under_process(recorded_path, proc_name) {
        embedded_framework_path(image_name, proc_name)
    } else {
        shared_library_path(image_name)
    }
}

/// The four places an image can be looked for at, by what it is: the main
/// executable of first-party software, the main executable of any other
/// application, a framework of the application, a library of the system.
pub proof fn lemma_binary_path_rules(
    image_name: Seq<char>,
    recorded_path: Option<String>,
    proc_name: Seq<char>,
    first_party: bool,
)
    ensures
        image_name == proc_name && first_party ==> binary_path_text(
            image_name,
            recorded_path,
            proc_name,
            first_party,
        ) == APPS_FOLDER@ + "/"@ + proc_name,
        image_name == proc_name && !first_party ==> binary_path_text(
            image_name,
            recorded_path,
            proc_name,
            first_party,
        ) == APPS_FOLDER@ + "/"@ + proc_name + ".app/"@ + proc_name,
        image_name != proc_name && recorded_under_process(recorded_path, proc_name)
            ==> binary_path_text(image_name, recorded_path, proc_name, first_party) == APPS_FOLDER@
            + "/"@ + proc_name + ".app/Frameworks/"@ + image_name + ".framework/"@ + image_name,
        image_name != proc_name && !recorded_under_process(recorded_path, proc_name)
            ==> binary_path_text(image_name, recorded_path, proc_name, first_party) == OTA_FOLDER@
            + "/"@ + image_name,
{
}

/// `name` is one of `names`.
pub open spec fn names_contain(names: Seq<String>, name: Seq<char>) -> bool {
    exists|i: int| 0 <= i < names.len() && (#[trigger] names[i])@ == name
}

/// The path at which the image `image_name` is looked for.
pub fn binary_path(
    image_name: &str,
    recorded_path: &Option<String>,
    proc_name: &str,
    first_party: bool,
) -> (path: String)
    ensures
        path@ == binary_path_text(image_name@, *recorded_path, proc_name@, first_party),
{
    let mut path = String::new();
    if same_text(image_name, proc_name) {
        path.append(APPS_FOLDER);
        path.append("/");
        path.append(proc_name);
        if !first_party {
            path.append(".app/");
            path.append(proc_name);
        }
        assert(path@ =~= main_executable_path(proc_name@, first_party));
    } else {
        let under_process = match recorded_path {
            Some(p) => contains(p.as_str(), proc_name),
            None => false,
        };
        if under_process {
            path.append(APPS_FOLDER);
            path.append("/");
            path.append(proc_name);
            path.append(".app/Frameworks/");
            path.append(image_name);
            path.append(".framework/");
            path.append(image_name);
            assert(path@ =~= embedded_framework_path(image_name@, proc_name@));
        } else {
            path.append(OTA_FOLDER);
            path.append("/");
            path.append(image_name);
            assert(path@ =~= shared_library_path(image_name@));
        }
    }
    path
}

/// Whether `name` is one of the image names in `names`.
pub fn is_filtered(names: &Vec<String>, name: &str) -> (r: bool)
    ensures
        r == names_contain(names@, name@),
{
    let mut i: usize = 0;
    while i < names.len()
        invariant
            i <= names.len(),
            forall|j: int| 0 <= j < i ==> (#[trigger] names@[j])@ != name@,
        decreases names.len() - i,
    {
        if same_text(names[i].as_str(), name) {
            return true;
        }
        i += 1;
    }
    false
}

} // verus!
