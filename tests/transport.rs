use bixolon::transport::{
    device_matches, select_bulk_endpoints, BulkEndpoints, EndpointError, EndpointInfo,
    BIXOLON_VENDOR_ID,
};

fn ep(interface_number: u8, bulk: bool, host_to_device: bool, address: u8) -> EndpointInfo {
    EndpointInfo { interface_number, bulk, host_to_device, address }
}

#[test]
fn picks_bulk_pair_and_out_interface() {
    let settings = vec![
        vec![ep(0, false, true, 0x81)],
        vec![ep(1, true, true, 0x02), ep(1, true, false, 0x82)],
        vec![ep(2, true, true, 0x03)],
    ];
    assert_eq!(
        select_bulk_endpoints(&settings),
        Ok(BulkEndpoints { write: 0x02, read: 0x82, interface_number: 1 })
    );
}

#[test]
fn missing_endpoints_are_reported() {
    assert_eq!(select_bulk_endpoints(&vec![]), Err(EndpointError::NoWriteEndpoint));
    let only_out = vec![vec![ep(0, true, true, 0x01)]];
    assert_eq!(select_bulk_endpoints(&only_out), Err(EndpointError::NoReadEndpoint));
    let only_in = vec![vec![ep(0, true, false, 0x81)]];
    assert_eq!(select_bulk_endpoints(&only_in), Err(EndpointError::NoWriteEndpoint));
}

#[test]
fn later_endpoints_in_the_same_setting_win() {
    let settings = vec![vec![
        ep(0, true, true, 0x01),
        ep(0, true, false, 0x81),
        ep(3, true, true, 0x05),
    ]];
    assert_eq!(
        select_bulk_endpoints(&settings),
        Ok(BulkEndpoints { write: 0x05, read: 0x81, interface_number: 3 })
    );
}

#[test]
fn device_search_by_vendor_and_product() {
    assert!(device_matches(BIXOLON_VENDOR_ID, 6, 0x1504, None));
    assert!(device_matches(0x1504, 6, 0x1504, Some(6)));
    assert!(!device_matches(0x1504, 7, 0x1504, Some(6)));
    assert!(!device_matches(0x1505, 6, 0x1504, None));
}

