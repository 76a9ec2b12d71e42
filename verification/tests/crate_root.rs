use nesql::{is_release, ENGINE, VENDORED_POSTGRES, VERSION};

#[test]
fn it_does_not_overstate_itself() {
    assert!(!is_release());
    assert_eq!(VENDORED_POSTGRES, "17.4");
}

#[test]
fn constants_name_the_crate_and_the_engine() {
    assert_eq!(VERSION, "8.0.0");
    assert_eq!(ENGINE, "https://github.com/Eth-Interchained/nedb");
}
