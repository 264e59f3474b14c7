use ips_analyzer::image_path::{binary_path, is_filtered, APPS_FOLDER, OTA_FOLDER};

#[test]
fn main_executable_of_first_party_software() {
    assert_eq!(binary_path("Demo", &Some(String::from("/usr/libexec/Demo")), "Demo", true), "apps/Demo");
    assert_eq!(binary_path("Demo", &None, "Demo", true), "apps/Demo");
}

#[test]
fn main_executable_in_its_bundle() {
    assert_eq!(
        binary_path("Demo", &Some(String::from("/private/var/Demo.app/Demo")), "Demo", false),
        "apps/Demo.app/Demo"
    );
    assert_eq!(binary_path("Demo", &None, "Demo", false), "apps/Demo.app/Demo");
}

#[test]
fn framework_of_the_application() {
    let recorded = Some(String::from("/private/var/containers/Demo.app/Frameworks/Kit.framework/Kit"));
    assert_eq!(
        binary_path("Kit", &recorded, "Demo", false),
        "apps/Demo.app/Frameworks/Kit.framework/Kit"
    );
    assert_eq!(
        binary_path("Kit", &recorded, "Demo", true),
        "apps/Demo.app/Frameworks/Kit.framework/Kit"
    );
}

#[test]
fn library_of_the_system() {
    let recorded = Some(String::from("/usr/lib/system/libsystem_c.dylib"));
    assert_eq!(binary_path("libsystem_c.dylib", &recorded, "Demo", false), "dylibs/libsystem_c.dylib");
    assert_eq!(binary_path("libsystem_c.dylib", &None, "Demo", true), "dylibs/libsystem_c.dylib");
}

#[test]
fn folders_are_named() {
    assert_eq!(APPS_FOLDER, "apps");
    assert_eq!(OTA_FOLDER, "dylibs");
}

#[test]
fn filter_knows_its_names() {
    let names = vec![String::from("UIKitCore"), String::from("CoreFoundation")];
    assert!(is_filtered(&names, "CoreFoundation"));
    assert!(is_filtered(&names, "UIKitCore"));
    assert!(!is_filtered(&names, "CoreFoundatio"));
    assert!(!is_filtered(&names, "Demo"));
    assert!(!is_filtered(&Vec::new(), "CoreFoundation"));
}
