//! Folder names and the pattern of a decorated method name.

use vstd::prelude::*;

verus! {

/// Where the binaries of system updates are kept.
pub const OTA_FOLDER: &'static str = "otas";

/// Where the binaries of applications are kept.
pub const APPS_FOLDER: &'static str = "apps";

/// Where the annotated reports go.
pub const OUTPUT_FOLDER: &'static str = "assemblicated";

/// The pattern of a method name with each marker and each of its numbers in
/// a group of its own.
pub const OBJC_METHOD: &'static str =
    r#"[-|+]\[(.*) (.*)][\._]*(block_invoke)*[\._]*([0-9]*)[\._]*(cold)*[\._]*([0-9]*)"#;

} // verus!
