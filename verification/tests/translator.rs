use profile_errors::error::CliError;
use profile_errors::error::ProfileError;

#[test]
fn not_found_maps_to_profile_not_found() {
    let out = CliError::from(ProfileError::NotFound);
    assert_eq!(out, CliError::ProfileNotFound);
}

#[test]
fn invalid_format_maps_to_invalid_profile_format() {
    let out = CliError::from(ProfileError::InvalidFormat);
    assert_eq!(out, CliError::InvalidProfileFormat);
}

#[test]
fn io_error_payload_passes_through_unchanged() {
    let detail = String::from("permission denied on /etc/profiles/default.json");
    let out = CliError::from(ProfileError::IoError(detail.clone()));
    assert_eq!(out, CliError::IoError(detail));
}

#[test]
fn serialization_error_payload_passes_through_unchanged() {
    let detail = String::from("unexpected end of input at byte 17");
    let out = CliError::from(ProfileError::SerializationError(detail.clone()));
    assert_eq!(out, CliError::SerializationError(detail));
}

#[test]
fn unmapped_variant_falls_back_to_other_with_structured_message() {
    let out = CliError::from(ProfileError::PermissionDenied { uid: 501 });
    assert_eq!(
        out,
        CliError::Other(String::from("Profile error: PermissionDenied { uid: 501 }"))
    );
}

#[test]
fn translation_is_deterministic() {
    let a = CliError::from(ProfileError::PermissionDenied { uid: 42 });
    let b = CliError::from(ProfileError::PermissionDenied { uid: 42 });
    assert_eq!(a, b);

    let detail = String::from("disk offline");
    let c = CliError::from(ProfileError::IoError(detail.clone()));
    let d = CliError::from(ProfileError::IoError(detail));
    assert_eq!(c, d);
}

#[test]
fn distinct_unmapped_inputs_give_distinct_messages() {
    let a = CliError::from(ProfileError::PermissionDenied { uid: 0 });
    let b = CliError::from(ProfileError::PermissionDenied { uid: 1 });
    assert_ne!(a, b);
    match (a, b) {
        (CliError::Other(ma), CliError::Other(mb)) => {
            assert_ne!(ma, mb);
        }
        _ => panic!("both translations must take the fallback path"),
    }
}

#[test]
fn empty_payload_passes_through() {
    let out = CliError::from(ProfileError::IoError(String::new()));
    assert_eq!(out, CliError::IoError(String::new()));
}
