use hachi::cli::rom_arg_index;

#[test]
fn zero_user_args_selects_nothing() {
    // the process sees only its own name: usage line, no ROM load
    assert_eq!(rom_arg_index(1), None);
}

#[test]
fn one_rom_arg_is_selected() {
    assert_eq!(rom_arg_index(2), Some(1));
}

#[test]
fn extra_args_select_nothing() {
    assert_eq!(rom_arg_index(3), None);
    assert_eq!(rom_arg_index(0), None);
}
