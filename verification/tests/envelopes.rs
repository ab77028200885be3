use workix_desktop::envelope::ApiResponse;

#[test]
fn a_success_carries_data_and_no_error() {
    let response = ApiResponse::with_data(7u32);
    assert!(response.success);
    assert_eq!(response.data, Some(7));
    assert_eq!(response.error, None);
    assert!(response.is_consistent());
}

#[test]
fn a_failure_carries_an_error_and_no_data() {
    let response: ApiResponse<u32> = ApiResponse::with_error(String::from("out of paper"));
    assert!(!response.success);
    assert_eq!(response.data, None);
    assert_eq!(response.error.as_deref(), Some("out of paper"));
    assert!(response.is_consistent());
}

#[test]
fn mixed_envelopes_are_told_apart() {
    let both = ApiResponse { success: true, data: Some(1u8), error: Some(String::from("x")) };
    assert!(!both.is_consistent());
    let neither: ApiResponse<u8> = ApiResponse { success: false, data: None, error: None };
    assert!(!neither.is_consistent());
    let success_without_data: ApiResponse<u8> =
        ApiResponse { success: true, data: None, error: None };
    assert!(!success_without_data.is_consistent());
    let failure_with_data = ApiResponse { success: false, data: Some(1u8), error: None };
    assert!(!failure_with_data.is_consistent());
    let flag_against_error: ApiResponse<u8> =
        ApiResponse { success: true, data: None, error: Some(String::from("x")) };
    assert!(!flag_against_error.is_consistent());
}

#[test]
fn an_envelope_can_be_cloned() {
    let response = ApiResponse::with_data(String::from("payload"));
    let copy = response.clone();
    assert_eq!(copy.success, response.success);
    assert_eq!(copy.data, response.data);
    assert_eq!(copy.error, response.error);
}

#[test]
fn the_envelope_is_found_at_the_crate_root() {
    let response: workix_desktop::ApiResponse<bool> = ApiResponse::with_data(true);
    assert_eq!(response.data, Some(true));
}
