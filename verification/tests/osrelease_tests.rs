use vpscheck::osrelease::os_name_of;

#[test]
fn pretty_name_is_preferred_wherever_it_stands() {
    let c = Some("NAME=\"Fedora Linux\"\nPRETTY_NAME=\"Fedora Linux 40\"\n".to_string());
    assert_eq!(os_name_of(&c), "Fedora Linux 40");
}

#[test]
fn name_is_the_fallback() {
    let c = Some("ID=debian\nNAME=\"Debian GNU/Linux\"\nVERSION_ID=\"12\"\n".to_string());
    assert_eq!(os_name_of(&c), "Debian GNU/Linux");
}

#[test]
fn unknown_when_no_descriptor() {
    assert_eq!(os_name_of(&None), "Unknown");
}

#[test]
fn unknown_when_no_name_line() {
    let c = Some("ID=something\nVERSION_ID=\"1\"\n".to_string());
    assert_eq!(os_name_of(&c), "Unknown");
}

#[test]
fn unquoted_values_pass_through() {
    let c = Some("NAME=Alpine\n".to_string());
    assert_eq!(os_name_of(&c), "Alpine");
}

#[test]
fn a_key_merely_ending_in_name_does_not_match() {
    let c = Some("CPE_NAME=\"cpe:/o:x\"\nNAME=\"Real One\"\n".to_string());
    assert_eq!(os_name_of(&c), "Real One");
}

#[test]
fn value_on_the_last_line_without_newline() {
    let c = Some("ID=x\nPRETTY_NAME=\"Tail OS\"".to_string());
    assert_eq!(os_name_of(&c), "Tail OS");
}
