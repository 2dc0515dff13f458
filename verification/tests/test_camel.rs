use rust_autoargs::camel::to_camel_case;

#[test]
fn camel_case_of_snake_case_names() {
    assert_eq!(to_camel_case("draw_rectangle"), "DrawRectangle");
    assert_eq!(to_camel_case("add"), "Add");
    assert_eq!(to_camel_case("mut_ref_method"), "MutRefMethod");
    assert_eq!(to_camel_case("x"), "X");
}

#[test]
fn camel_case_edge_cases() {
    assert_eq!(to_camel_case(""), "");
    assert_eq!(to_camel_case("_"), "");
    assert_eq!(to_camel_case("__"), "");
    assert_eq!(to_camel_case("_private_fn"), "PrivateFn");
    assert_eq!(to_camel_case("a__b"), "AB");
    assert_eq!(to_camel_case("trailing_"), "Trailing");
    assert_eq!(to_camel_case("already_Camel"), "AlreadyCamel");
    assert_eq!(to_camel_case("v2_draw"), "V2Draw");
    assert_eq!(to_camel_case("x_1"), "X1");
}

#[test]
fn camel_case_uses_unicode_uppercase() {
    // 'ß' upper-cases to "SS"; 'é' to 'É'.
    assert_eq!(to_camel_case("ß_x"), "SSX");
    assert_eq!(to_camel_case("été_fin"), "ÉtéFin");
}

#[test]
fn camel_case_underscore_join_law() {
    let a = "draw";
    let b = "rectangle_now";
    assert_eq!(to_camel_case(&format!("{}_{}", a, b)), format!("{}{}", to_camel_case(a), to_camel_case(b)));
}

#[test]
fn camel_case_ascii_idempotent_law() {
    for s in ["draw_rectangle", "_a_b_", "Mixed_case_Name", "x", ""] {
        let once = to_camel_case(s);
        assert_eq!(to_camel_case(&once), once);
        assert!(!once.contains('_'));
    }
}

#[test]
fn camel_case_uppercases_only_part_starts() {
    assert_eq!(to_camel_case("a_z_7_q"), "AZ7Q");
    assert_eq!(to_camel_case("abc"), "Abc");
}
