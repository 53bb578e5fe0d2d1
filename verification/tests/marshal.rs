use augeas::marshal::check_embedded_nul;
use augeas::NulError;

#[test]
fn plain_strings_marshal() {
    assert_eq!(check_embedded_nul(""), Ok(()));
    assert_eq!(check_embedded_nul("etc/passwd/root/uid"), Ok(()));
    assert_eq!(check_embedded_nul("value with spaces"), Ok(()));
}

#[test]
fn embedded_terminator_is_rejected_with_its_position() {
    assert_eq!(check_embedded_nul("\0"), Err(NulError { position: 0 }));
    assert_eq!(check_embedded_nul("a\0b"), Err(NulError { position: 1 }));
    assert_eq!(check_embedded_nul("ab\0"), Err(NulError { position: 2 }));
}

#[test]
fn first_of_several_terminators_is_reported() {
    assert_eq!(check_embedded_nul("a\0b\0c"), Err(NulError { position: 1 }));
}

#[test]
fn position_counts_characters_not_bytes() {
    // 'é' is two bytes in the wire encoding but one character.
    assert_eq!(check_embedded_nul("éé\0"), Err(NulError { position: 2 }));
}
