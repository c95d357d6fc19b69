use lessons::my_new_mod::{ClosedBox, OpenBox};

#[test]
fn an_open_box_shows_its_contents() {
    let open_box = OpenBox { contents: "public info" };
    assert_eq!(open_box.contents, "public info");
}

#[test]
fn a_closed_box_can_be_made() {
    let _closed_box: ClosedBox<&str> = ClosedBox::new("private data");
    let _numbers: ClosedBox<Vec<u8>> = ClosedBox::new(vec![1, 2, 3]);
}

#[test]
fn public_functions_announce_themselves() {
    assert_eq!(lessons::my_mod::public_function(), "public function called");
    assert_eq!(lessons::my_mod::nested::function(), "public function from nested module called");
    assert_eq!(lessons::deeply::nested::function(), "I am a deeply nested function!");
    assert_eq!(lessons::cool_function(), "A cool function was called");
}

#[test]
fn private_functions_are_reached_indirectly() {
    assert_eq!(
        lessons::my_mod::indirect_access(),
        vec!["Get ready for indirectly accessed call", "private function called"]
    );
}

#[test]
fn the_nested_module_is_called_from_its_parent() {
    assert_eq!(
        lessons::my_mod::call_public_functions(),
        vec![
            "Calling some public functions",
            "Called public function in my_mod::nested",
            "Another call:-",
            "I am public function but only in my own module",
            ">",
            "called my_mod::nested::public_function_for_super()",
        ]
    );
}

#[test]
fn the_cool_module_calls_its_parent() {
    assert_eq!(
        lessons::cool::cool_function(),
        vec![
            "Called cool::cool_function()",
            "Calling my parent's function",
            "A cool function was called",
        ]
    );
}
