use holo_bot::attributes::{Colour, Permissions};
use holo_bot::declarations::{
    is_cooked, remove_cooked, with_suffix, ArgKind, ArgPlan, AsOption, DeclarFor,
};

#[test]
fn permissions_read_in_any_case() {
    assert_eq!(Permissions::from_str("administrator"), Some(Permissions(8)));
    assert_eq!(Permissions::from_str("Send_Messages"), Some(Permissions(0b1000_0000_0000)));
    assert_eq!(
        Permissions::from_str("PRESET_GENERAL"),
        Some(Permissions(0b0000_0110_0011_0111_1101_1100_0100_0001))
    );
    assert_eq!(Permissions::from_str("FLY"), None);
    assert_eq!(Permissions::from_name("administrator"), None);
}

#[test]
fn colours_read_by_name_or_hex() {
    assert_eq!(Colour::from_str("blurple"), Some(Colour(0x7289DA)));
    assert_eq!(Colour::from_str("Fabled_Pink"), Some(Colour(0xFAB81ED)));
    assert_eq!(Colour::from_str("#1a2B3c"), Some(Colour(0x1A2B3C)));
    assert_eq!(Colour::from_str("#+abcde"), Some(Colour(0xABCDE)));
    assert_eq!(Colour::from_str("1a2b3c"), None);
    assert_eq!(Colour::from_str("#1a2b3"), None);
    assert_eq!(Colour::from_str("#1a2b3g"), None);
    assert_eq!(Colour::from_str("#-abcde"), None);
    assert_eq!(Colour::from_str("#\u{e9}\u{e9}\u{e9}"), None);
}

#[test]
fn declaration_arguments_are_planned() {
    assert_eq!(DeclarFor::Command.create_declaration_validations(4), Err(3));
    assert_eq!(DeclarFor::Help.create_declaration_validations(7), Err(6));
    assert_eq!(
        DeclarFor::Command.create_declaration_validations(1),
        Ok(vec![
            ArgPlan::Validate { index: 0, kind: ArgKind::Context },
            ArgPlan::Supply { kind: ArgKind::Interaction },
        ])
    );
    assert_eq!(
        DeclarFor::Check.create_declaration_validations(4),
        Ok(vec![
            ArgPlan::Validate { index: 0, kind: ArgKind::Context },
            ArgPlan::Validate { index: 1, kind: ArgKind::Interaction },
            ArgPlan::Validate { index: 2, kind: ArgKind::Options },
        ])
    );
    assert_eq!(DeclarFor::Help.create_declaration_validations(0).unwrap().len(), 4);
    assert_eq!(ArgKind::Owners.supplied_name(), "_owners");
}

#[test]
fn cooked_attributes_are_moved_out_in_order() {
    assert!(is_cooked("derive"));
    assert!(is_cooked("cfg_attr"));
    assert!(!is_cooked("description"));
    let mut attrs = vec!["doc", "cfg", "checks", "allow"];
    let marks: Vec<bool> = attrs.iter().map(|a| is_cooked(a)).collect();
    let cooked = remove_cooked(&mut attrs, &marks);
    assert_eq!(attrs, vec!["doc", "checks"]);
    assert_eq!(cooked, vec!["cfg", "allow"]);
}

#[test]
fn generated_names_are_upper_case_with_suffix() {
    assert_eq!(with_suffix("ogey", "INTERACTION"), "OGEY_INTERACTION");
    assert_eq!(with_suffix("live_now", "GROUP"), "LIVE_NOW_GROUP");
}

#[test]
fn as_option_maps_its_value() {
    assert_eq!(AsOption(Some(2)).map(|x| x * 3).0, Some(6));
    assert_eq!(AsOption::<i32>(None).map(|x| x * 3).0, None);
    assert_eq!(AsOption::<i32>::default().0, None);
}
