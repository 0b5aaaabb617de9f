use errorsx::uuidx::generate_new_v4;

#[test]
fn generated_identifier_is_version_four() {
    let id = generate_new_v4();
    assert_eq!(id.get_version_num(), 4);
    assert_eq!(id.get_variant(), uuid::Variant::RFC4122);
}

#[test]
fn generated_identifier_has_the_random_layout() {
    let value = generate_new_v4().as_u128();
    assert_eq!(
        value & 0x0000_0000_0000_F000_C000_0000_0000_0000u128,
        0x0000_0000_0000_4000_8000_0000_0000_0000u128
    );
}

#[test]
fn generated_identifiers_differ() {
    assert_ne!(generate_new_v4(), generate_new_v4());
}
